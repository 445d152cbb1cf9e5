use gittwo::{GitRepository, InitConfig, InitFlags};
use std::path::PathBuf;

#[test]
fn init_config_keeps_the_directory() {
    let mut config = InitConfig::new(PathBuf::from("./temp_test/init_initial_branch/"));
    assert_eq!(config.get_dir(), &PathBuf::from("./temp_test/init_initial_branch/"));
    config.set_dir(PathBuf::from("/elsewhere"));
    assert_eq!(config.get_dir(), &PathBuf::from("/elsewhere"));
}

#[test]
fn plain_init_plan() {
    let plan = InitConfig::new(PathBuf::from("x")).plan();
    assert_eq!(plan.dir, PathBuf::from("x"));
    assert!(!plan.bare);
    assert_eq!(plan.initial_head, None);
    assert_eq!(plan.workdir_path, None);
}

#[test]
fn init_flags_reach_the_plan() {
    let mut config = InitConfig::new(PathBuf::from("x"));
    config.add_flag(InitFlags::InitialBranch(Some(String::from("test"))));
    config.add_flag(InitFlags::Bare(true));
    config.add_flag(InitFlags::SeparateGitDir(PathBuf::from("/git/dir")));
    let plan = config.plan();
    assert_eq!(plan.dir, PathBuf::from("x"));
    assert!(plan.bare);
    assert_eq!(plan.initial_head, Some(String::from("test")));
    assert_eq!(plan.workdir_path, Some(PathBuf::from("/git/dir")));
}

#[test]
fn initial_branch_can_be_unset() {
    let mut config = InitConfig::new(PathBuf::from("x"));
    config.add_flag(InitFlags::InitialBranch(Some(String::from("test"))));
    config.add_flag(InitFlags::InitialBranch(None));
    config.add_flag(InitFlags::Bare(true));
    config.add_flag(InitFlags::Bare(false));
    let plan = config.plan();
    assert_eq!(plan.initial_head, None);
    assert!(!plan.bare);
}

#[test]
fn init_through_an_empty_handle_may_begin() {
    let handle = GitRepository::new();
    let mut config = InitConfig::new(PathBuf::from("x"));
    config.add_flag(InitFlags::InitialBranch(Some(String::from("test"))));
    match handle.begin_init(config) {
        Ok(plan) => {
            assert_eq!(plan.dir, PathBuf::from("x"));
            assert_eq!(plan.initial_head, Some(String::from("test")));
        }
        Err(error) => panic!("unexpected {:?}", error),
    }
}
