use gittwo::error::ErrorKind;
use gittwo::fetch_config::{FetchStep, UNSHALLOW_DEPTH};
use gittwo::{FetchConfig, FetchFlags, GitRepository};

fn text(s: &str) -> String {
    String::from(s)
}

#[test]
fn named_remote_is_fetched_at_once() {
    let config = FetchConfig::new(Some(text("upstream")));
    assert_eq!(config.first_step(), FetchStep::Fetch { remote: text("upstream"), depth: None });
}

#[test]
fn without_a_remote_head_is_read_first() {
    let config = FetchConfig::new(None);
    assert_eq!(config.first_step(), FetchStep::ReadHead);
    assert_eq!(
        config.after_head(Some("main")),
        FetchStep::ReadConfig { key: text("branch.main.remote") }
    );
    assert_eq!(
        config.after_config(Some("fork")),
        FetchStep::Fetch { remote: text("fork"), depth: None }
    );
}

#[test]
fn fetch_falls_back_to_origin() {
    let config = FetchConfig::new(None);
    assert_eq!(config.after_head(None), FetchStep::Fetch { remote: text("origin"), depth: None });
    assert_eq!(config.after_config(None), FetchStep::Fetch { remote: text("origin"), depth: None });
}

#[test]
fn unshallow_fetches_the_whole_history() {
    let mut config = FetchConfig::new(Some(text("origin")));
    config.add_flag(FetchFlags::Unshallow(true));
    assert_eq!(UNSHALLOW_DEPTH, 2147483647);
    assert_eq!(
        config.first_step(),
        FetchStep::Fetch { remote: text("origin"), depth: Some(2147483647) }
    );
    assert_eq!(
        config.after_head(None),
        FetchStep::Fetch { remote: text("origin"), depth: Some(2147483647) }
    );
    assert_eq!(
        config.after_config(Some("x")),
        FetchStep::Fetch { remote: text("x"), depth: Some(2147483647) }
    );
    config.add_flag(FetchFlags::Unshallow(false));
    assert_eq!(config.first_step(), FetchStep::Fetch { remote: text("origin"), depth: None });
}

#[test]
fn fetch_without_a_repository_is_refused() {
    let handle = GitRepository::new();
    let error = handle.begin_fetch(&FetchConfig::new(None)).unwrap_err();
    assert_eq!(error.kind, ErrorKind::NotFound);
}
