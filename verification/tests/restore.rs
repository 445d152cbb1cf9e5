use gittwo::error::ErrorKind;
use gittwo::restore_config::{RestoreConfig, RestoreFlags};
use gittwo::GitRepository;

#[test]
fn restore_is_not_provided() {
    let handle = GitRepository::new();
    let mut config = RestoreConfig::new(vec![String::from("a.txt")]);
    config.add_flag(RestoreFlags::Staged(true));
    let error = handle.begin_restore(&config).unwrap_err();
    assert_eq!(error.kind, ErrorKind::NotFound);
    assert_eq!(
        error.message,
        "Repository not found or created, try opening a valid repository or cloning one"
    );
}
