use gittwo::error::{ErrorKind, GitError};
use gittwo::refnames::{
    branch_reference_of, forced_tracking_refspec_of, refspec_of, tag_reference_of,
    tag_refspec_of, tracking_refspec_of, upstream_name_of,
};
use gittwo::GitRepository;

#[test]
fn a_new_handle_is_empty() {
    let handle = GitRepository::new();
    assert!(!handle.is_valid());
    assert!(handle.repository().is_none());
    assert!(!handle.get_skip_owner_validation());
    assert!(!handle.get_bypass_certificate_check());
    match handle.require_repository() {
        Err(error) => assert_eq!(error, GitError::missing_repository()),
        Ok(_) => panic!("a repository out of nothing"),
    }
}

#[test]
fn switches_are_independent() {
    let mut handle = GitRepository::new();
    handle.skip_owner_validation(true);
    assert!(handle.get_skip_owner_validation());
    assert!(!handle.get_bypass_certificate_check());
    handle.bypass_certificate_check(true);
    handle.skip_owner_validation(false);
    assert!(!handle.get_skip_owner_validation());
    assert!(handle.get_bypass_certificate_check());
    assert!(!handle.is_valid());
}

#[test]
fn owner_check_follows_the_switch() {
    let mut handle = GitRepository::new();
    assert_eq!(handle.owner_check_override(), None);
    assert!(handle.owner_check());
    handle.skip_owner_validation(true);
    assert_eq!(handle.owner_check_override(), Some(false));
    assert!(!handle.owner_check());
}

#[test]
fn missing_repository_error() {
    let error = GitError::missing_repository();
    assert_eq!(error.kind, ErrorKind::NotFound);
    assert_eq!(
        error.message(),
        "Repository not found or created, try opening a valid repository or cloning one"
    );
}

#[test]
fn reference_names_and_refspecs() {
    assert_eq!(branch_reference_of("curl"), "refs/heads/curl");
    assert_eq!(tag_reference_of("v1.0"), "refs/tags/v1.0");
    assert_eq!(tracking_refspec_of("origin", "curl"), "refs/heads/curl:refs/remotes/origin/curl");
    assert_eq!(
        forced_tracking_refspec_of("origin", "curl"),
        "+refs/heads/curl:refs/remotes/origin/curl"
    );
    assert_eq!(tag_refspec_of("v1.0"), "refs/tags/v1.0:refs/tags/v1.0");
    assert_eq!(refspec_of("a", "b"), "a:b");
    assert_eq!(upstream_name_of("origin", "curl"), "origin/curl");
    assert_eq!(branch_reference_of(""), "refs/heads/");
}
