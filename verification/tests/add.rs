use gittwo::add_config::{AddPlan, PathDecision};
use gittwo::error::ErrorKind;
use gittwo::status::{INDEX_NEW, WT_DELETED, WT_MODIFIED, WT_NEW};
use gittwo::{AddConfig, AddFlags, GitRepository};

fn specs() -> Vec<String> {
    vec![String::from("src/*.rs"), String::from("README.md")]
}

#[test]
fn add_config_keeps_the_specs() {
    let config = AddConfig::new(specs());
    assert_eq!(config.get_specs(), &specs());
    assert_eq!(config.plan(), AddPlan { update: false, ask_for_each_path: false });
}

#[test]
fn update_asks_for_each_path() {
    let mut config = AddConfig::new(specs());
    config.add_flag(AddFlags::Update(true));
    assert_eq!(config.plan(), AddPlan { update: true, ask_for_each_path: true });
    assert_eq!(config.get_specs(), &specs());
    config.add_flag(AddFlags::Update(false));
    assert_eq!(config.plan(), AddPlan { update: false, ask_for_each_path: false });
}

#[test]
fn changed_paths_are_taken() {
    let config = AddConfig::new(specs());
    assert_eq!(config.path_decision(WT_MODIFIED), PathDecision::Take);
    assert_eq!(config.path_decision(WT_NEW), PathDecision::Take);
    assert_eq!(config.path_decision(WT_DELETED | INDEX_NEW), PathDecision::Take);
    assert_eq!(config.path_decision(0), PathDecision::Skip);
    assert_eq!(config.path_decision(INDEX_NEW), PathDecision::Skip);
}

#[test]
fn dry_run_takes_nothing() {
    let mut config = AddConfig::new(specs());
    config.add_flag(AddFlags::DryRun(true));
    assert_eq!(config.path_decision(WT_MODIFIED), PathDecision::Skip);
    assert_eq!(config.path_decision(0), PathDecision::Skip);
    config.add_flag(AddFlags::DryRun(false));
    assert_eq!(config.path_decision(WT_MODIFIED), PathDecision::Take);
}

#[test]
fn decision_codes_for_the_backend() {
    assert_eq!(PathDecision::Take.code(), 0);
    assert_eq!(PathDecision::Skip.code(), 1);
}

#[test]
fn add_flag_can_be_chained() {
    let mut config = AddConfig::new(specs());
    let plan = config.add_flag(AddFlags::Update(true)).plan();
    assert!(plan.update);
}

#[test]
fn add_without_a_repository_is_refused() {
    let handle = GitRepository::new();
    let error = handle.begin_add(&AddConfig::new(specs())).unwrap_err();
    assert_eq!(error.kind, ErrorKind::NotFound);
}
