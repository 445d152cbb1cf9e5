use gittwo::error::ErrorKind;
use gittwo::remote_config::{flag_text_of, subcommand_text_of, RemoteAction};
use gittwo::{GitRepository, RemoteConfig, RemoteFlags, RemoteSubCommand};

fn text(s: &str) -> String {
    String::from(s)
}

fn add() -> RemoteSubCommand {
    RemoteSubCommand::Add(text("test"), text("https://github.com/rust-lang/git2-rs.git"))
}

#[test]
fn add_takes_track() {
    let mut config = RemoteConfig::new(Some(add()));
    assert!(config.add_flag(RemoteFlags::Track(vec![text("curl")])).is_ok());
    assert_eq!(
        config.plan(),
        vec![
            RemoteAction::Create {
                name: text("test"),
                url: text("https://github.com/rust-lang/git2-rs.git"),
            },
            RemoteAction::ClearEntry { key: text("remote.test.fetch") },
            RemoteAction::AddFetch {
                remote: text("test"),
                refspec: text("+refs/heads/curl:refs/remotes/test/curl"),
            },
        ]
    );
}

#[test]
fn add_without_track_only_creates() {
    let config = RemoteConfig::new(Some(add()));
    assert_eq!(
        config.plan(),
        vec![RemoteAction::Create {
            name: text("test"),
            url: text("https://github.com/rust-lang/git2-rs.git"),
        }]
    );
}

#[test]
fn track_of_several_branches_keeps_their_order() {
    let mut config = RemoteConfig::new(Some(add()));
    config.add_flag(RemoteFlags::Track(vec![text("b"), text("a"), text("b")])).unwrap();
    let plan = config.plan();
    assert_eq!(plan.len(), 5);
    assert_eq!(
        &plan[2..],
        &[
            RemoteAction::AddFetch {
                remote: text("test"),
                refspec: text("+refs/heads/b:refs/remotes/test/b"),
            },
            RemoteAction::AddFetch {
                remote: text("test"),
                refspec: text("+refs/heads/a:refs/remotes/test/a"),
            },
            RemoteAction::AddFetch {
                remote: text("test"),
                refspec: text("+refs/heads/b:refs/remotes/test/b"),
            },
        ]
    );
}

#[test]
fn track_of_no_branch_clears_the_refspecs() {
    let mut config = RemoteConfig::new(Some(add()));
    config.add_flag(RemoteFlags::Track(vec![])).unwrap();
    assert_eq!(
        &config.plan()[1..],
        &[RemoteAction::ClearEntry { key: text("remote.test.fetch") }]
    );
}

#[test]
fn add_does_not_take_delete() {
    let mut config = RemoteConfig::new(Some(add()));
    let error = config.add_flag(RemoteFlags::Delete(true)).unwrap_err();
    assert_eq!(error.kind, ErrorKind::Invalid);
    assert_eq!(
        error.message,
        format!(
            "No flag '{}' for subcommand '{:?}'.",
            "--delete true",
            Some(add())
        )
    );
    assert_eq!(
        error.message,
        "No flag '--delete true' for subcommand 'Some(Add(\"test\", \"https://github.com/rust-lang/git2-rs.git\"))'."
    );
    // the config is as before
    assert_eq!(config.plan().len(), 1);
}

#[test]
fn remove_takes_no_flag() {
    let mut config = RemoteConfig::new(Some(RemoteSubCommand::Remove(text("origin"))));
    let error = config.add_flag(RemoteFlags::Track(vec![text("a"), text("b\"c")])).unwrap_err();
    assert_eq!(
        error.message,
        format!(
            "No flag '--track {:?}' for subcommand '{:?}'.",
            vec![text("a"), text("b\"c")],
            Some(RemoteSubCommand::Remove(text("origin")))
        )
    );
    assert!(config.add_flag(RemoteFlags::Delete(false)).is_err());
    assert_eq!(config.plan(), vec![RemoteAction::Remove { name: text("origin") }]);
}

#[test]
fn no_subcommand_takes_no_flag() {
    let mut config = RemoteConfig::new(None);
    assert!(!config.has_subcommand());
    let error = config.add_flag(RemoteFlags::Delete(false)).unwrap_err();
    assert_eq!(error.message, "No flag '--delete false' for subcommand 'None'.");
    let error = config.add_flag(RemoteFlags::Track(vec![])).unwrap_err();
    assert_eq!(error.message, "No flag '--track []' for subcommand 'None'.");
}

#[test]
fn set_head_takes_delete_and_not_track() {
    let sub = RemoteSubCommand::SetHead(text("origin"), Some(text("main")));
    let mut config = RemoteConfig::new(Some(sub.clone()));
    let error = config.add_flag(RemoteFlags::Track(vec![text("x")])).unwrap_err();
    assert_eq!(
        error.message,
        format!("No flag '--track {:?}' for subcommand '{:?}'.", vec![text("x")], Some(sub))
    );
    assert!(config.add_flag(RemoteFlags::Delete(true)).is_ok());
    assert_eq!(
        config.plan(),
        vec![RemoteAction::DeleteReference { name: text("refs/remote/origin/HEAD") }]
    );
    assert!(config.add_flag(RemoteFlags::Delete(false)).is_ok());
    assert_eq!(
        config.plan(),
        vec![RemoteAction::SetSymbolic {
            name: text("refs/remote/origin/HEAD"),
            target: text("refs/remote/origin/main"),
            log: text("set remote HEAD"),
        }]
    );
}

#[test]
fn set_head_without_branch_and_without_delete_does_nothing() {
    let config = RemoteConfig::new(Some(RemoteSubCommand::SetHead(text("origin"), None)));
    assert!(config.has_subcommand());
    assert_eq!(config.plan(), vec![]);
}

#[test]
fn set_head_without_branch_with_delete_deletes() {
    let mut config = RemoteConfig::new(Some(RemoteSubCommand::SetHead(text("up"), None)));
    config.add_flag(RemoteFlags::Delete(true)).unwrap();
    assert_eq!(
        config.plan(),
        vec![RemoteAction::DeleteReference { name: text("refs/remote/up/HEAD") }]
    );
}

#[test]
fn setting_a_subcommand_resets_the_flags() {
    let mut config = RemoteConfig::new(Some(add()));
    config.add_flag(RemoteFlags::Track(vec![text("curl")])).unwrap();
    config.set_subcommand(Some(add()));
    assert_eq!(config.plan().len(), 1);
    config.set_subcommand(Some(RemoteSubCommand::SetHead(text("o"), None)));
    config.add_flag(RemoteFlags::Delete(true)).unwrap();
    config.set_subcommand(Some(RemoteSubCommand::SetHead(text("o"), None)));
    assert_eq!(config.plan(), vec![]);
    config.set_subcommand(None);
    assert!(!config.has_subcommand());
}

#[test]
fn texts_are_what_the_formatter_writes() {
    let flags = [
        RemoteFlags::Track(vec![]),
        RemoteFlags::Track(vec![text("one")]),
        RemoteFlags::Track(vec![text("a b"), text("tab\there"), text("q\"uote"), text("\u{e4}")]),
    ];
    for flag in flags {
        let items = match &flag {
            RemoteFlags::Track(items) => items.clone(),
            RemoteFlags::Delete(_) => unreachable!(),
        };
        assert_eq!(flag_text_of(&flag), format!("--track {:?}", items));
    }
    assert_eq!(flag_text_of(&RemoteFlags::Delete(true)), "--delete true");
    assert_eq!(RemoteFlags::Delete(true).to_string(), "--delete true");
    assert_eq!(RemoteFlags::Track(vec![text("curl")]).to_string(), "--track [\"curl\"]");
    assert_eq!(flag_text_of(&RemoteFlags::Delete(false)), "--delete false");
    let subcommands = [
        None,
        Some(add()),
        Some(RemoteSubCommand::Remove(text("back\\slash"))),
        Some(RemoteSubCommand::SetHead(text("o"), None)),
        Some(RemoteSubCommand::SetHead(text("o"), Some(text("new\nline")))),
    ];
    for subcommand in subcommands {
        assert_eq!(subcommand_text_of(&subcommand), format!("{:?}", subcommand));
    }
}

#[test]
fn remote_without_a_repository_is_refused() {
    let handle = GitRepository::new();
    let config = RemoteConfig::new(Some(add()));
    let error = handle.begin_remote(&config).unwrap_err();
    assert_eq!(error.kind, ErrorKind::NotFound);
    assert_eq!(
        error.message,
        "Repository not found or created, try opening a valid repository or cloning one"
    );
}
