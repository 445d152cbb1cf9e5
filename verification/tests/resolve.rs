use gittwo::error::{ErrorKind, GitError};
use gittwo::resolve::{
    find_match, named_of, ObjectId, RemoteHead, ResolutionOutcome, ResolveAction, ResolveEvent,
    Resolver,
};

fn id(byte: u8) -> ObjectId {
    ObjectId { bytes: vec![byte; 20] }
}

fn head(name: &str, byte: u8) -> RemoteHead {
    RemoteHead { name: String::from(name), id: id(byte) }
}

fn text(s: &str) -> String {
    String::from(s)
}

/// Runs the machine over the answers and gives every action it took, the
/// first question included.
fn drive(spec: &str, events: Vec<ResolveEvent>) -> Vec<ResolveAction> {
    let (mut resolver, first) = Resolver::new(text(spec));
    let mut actions = vec![first];
    for event in events {
        let (next, action) = resolver.step(event);
        resolver = next;
        actions.push(action);
    }
    actions
}

#[test]
fn first_question_is_for_the_local_branch() {
    let (resolver, first) = Resolver::new(text("curl"));
    assert_eq!(first, ResolveAction::FindLocalBranch { name: text("curl") });
    assert_eq!(resolver.spec(), "curl");
    assert!(!resolver.is_done());
}

#[test]
fn local_branch_wins_over_everything() {
    // the spec is also a valid short commit id: nobody asks
    let actions = drive(
        "d1b40aa",
        vec![
            ResolveEvent::Found(Some(text("refs/heads/d1b40aa"))),
            ResolveEvent::Revision(id(1)),
            ResolveEvent::Found(Some(text("refs/tags/d1b40aa"))),
        ],
    );
    assert_eq!(
        actions,
        vec![
            ResolveAction::FindLocalBranch { name: text("d1b40aa") },
            ResolveAction::Resolved(ResolutionOutcome::LocalBranch(text("refs/heads/d1b40aa"))),
            ResolveAction::Idle,
            ResolveAction::Idle,
        ]
    );
}

#[test]
fn local_branch_without_a_readable_name_falls_back_to_the_spec() {
    let actions = drive("topic", vec![ResolveEvent::Found(None)]);
    assert_eq!(
        actions[1],
        ResolveAction::Resolved(ResolutionOutcome::LocalBranch(text("topic")))
    );
}

#[test]
fn local_tag_is_second() {
    let actions = drive(
        "libgit2-sys-0.14.2",
        vec![
            ResolveEvent::Missing,
            ResolveEvent::Found(Some(text("refs/tags/libgit2-sys-0.14.2"))),
        ],
    );
    assert_eq!(
        actions,
        vec![
            ResolveAction::FindLocalBranch { name: text("libgit2-sys-0.14.2") },
            ResolveAction::FindReference { name: text("refs/tags/libgit2-sys-0.14.2") },
            ResolveAction::Resolved(ResolutionOutcome::LocalTag(text(
                "refs/tags/libgit2-sys-0.14.2"
            ))),
        ]
    );
}

#[test]
fn remote_branch_curl_on_origin() {
    let actions = drive(
        "curl",
        vec![
            ResolveEvent::Missing,
            ResolveEvent::Missing,
            ResolveEvent::Remotes(vec![Some(text("origin"))]),
            ResolveEvent::Completed,
            ResolveEvent::Heads(vec![
                head("HEAD", 1),
                head("refs/heads/master", 1),
                head("refs/heads/curl", 2),
                head("refs/tags/curl", 3),
            ]),
            ResolveEvent::Completed,
            ResolveEvent::Completed,
            ResolveEvent::Completed,
        ],
    );
    assert_eq!(
        actions,
        vec![
            ResolveAction::FindLocalBranch { name: text("curl") },
            ResolveAction::FindReference { name: text("refs/tags/curl") },
            ResolveAction::ListRemotes,
            ResolveAction::Connect { remote: text("origin") },
            ResolveAction::ListHeads { remote: text("origin") },
            ResolveAction::Fetch {
                remote: text("origin"),
                refspec: text("refs/heads/curl:refs/remotes/origin/curl"),
            },
            ResolveAction::CreateBranch { name: text("curl"), target: id(2) },
            ResolveAction::SetUpstream { branch: text("curl"), upstream: text("origin/curl") },
            ResolveAction::Resolved(ResolutionOutcome::RemoteBranch(
                text("origin"),
                text("curl"),
                id(2)
            )),
        ]
    );
}

#[test]
fn remote_tag_is_fetched_under_its_own_name() {
    let actions = drive(
        "v1",
        vec![
            ResolveEvent::Missing,
            ResolveEvent::Missing,
            ResolveEvent::Remotes(vec![Some(text("up"))]),
            ResolveEvent::Completed,
            ResolveEvent::Heads(vec![head("refs/heads/main", 1), head("refs/tags/v1", 9)]),
            ResolveEvent::Completed,
            ResolveEvent::Found(Some(text("refs/tags/v1"))),
        ],
    );
    assert_eq!(
        &actions[5..],
        &[
            ResolveAction::Fetch { remote: text("up"), refspec: text("refs/tags/v1:refs/tags/v1") },
            ResolveAction::FindReference { name: text("refs/tags/v1") },
            ResolveAction::Resolved(ResolutionOutcome::RemoteTag(
                text("up"),
                text("refs/tags/v1")
            )),
        ]
    );
}

#[test]
fn first_matching_reference_decides_between_tag_and_branch() {
    // the tag comes first in the remote's list
    let actions = drive(
        "x",
        vec![
            ResolveEvent::Missing,
            ResolveEvent::Missing,
            ResolveEvent::Remotes(vec![Some(text("origin"))]),
            ResolveEvent::Completed,
            ResolveEvent::Heads(vec![head("refs/tags/x", 4), head("refs/heads/x", 5)]),
        ],
    );
    assert_eq!(
        actions[5],
        ResolveAction::Fetch { remote: text("origin"), refspec: text("refs/tags/x:refs/tags/x") }
    );
}

#[test]
fn scan_stops_at_the_first_remote_with_a_match() {
    let actions = drive(
        "curl",
        vec![
            ResolveEvent::Missing,
            ResolveEvent::Missing,
            ResolveEvent::Remotes(vec![Some(text("first")), Some(text("second"))]),
            ResolveEvent::Completed,
            ResolveEvent::Heads(vec![head("refs/heads/curl", 2)]),
            ResolveEvent::Completed,
            ResolveEvent::Completed,
            ResolveEvent::Completed,
            ResolveEvent::Completed,
            ResolveEvent::Completed,
            ResolveEvent::Completed,
        ],
    );
    for action in &actions {
        match action {
            ResolveAction::Connect { remote }
            | ResolveAction::ListHeads { remote }
            | ResolveAction::Disconnect { remote }
            | ResolveAction::Fetch { remote, .. } => assert_eq!(remote, "first"),
            _ => {}
        }
    }
    let fetches = actions.iter().filter(|a| matches!(a, ResolveAction::Fetch { .. })).count();
    assert_eq!(fetches, 1);
    assert_eq!(
        actions[8],
        ResolveAction::Resolved(ResolutionOutcome::RemoteBranch(
            text("first"),
            text("curl"),
            id(2)
        ))
    );
    assert_eq!(actions[9], ResolveAction::Idle);
    assert_eq!(actions[10], ResolveAction::Idle);
    assert_eq!(actions[11], ResolveAction::Idle);
}

#[test]
fn remote_branch_is_fetched_before_anything_is_looked_up_or_created() {
    // the commit is not in the repository until the fetch has brought it
    let actions = drive(
        "curl",
        vec![
            ResolveEvent::Missing,
            ResolveEvent::Missing,
            ResolveEvent::Remotes(vec![Some(text("origin"))]),
            ResolveEvent::Completed,
            ResolveEvent::Heads(vec![head("refs/heads/curl", 2)]),
        ],
    );
    assert_eq!(
        actions[5],
        ResolveAction::Fetch {
            remote: text("origin"),
            refspec: text("refs/heads/curl:refs/remotes/origin/curl"),
        }
    );
    for action in &actions[..5] {
        assert!(!matches!(
            action,
            ResolveAction::CreateBranch { .. } | ResolveAction::SetUpstream { .. }
        ));
    }
}

#[test]
fn remote_without_match_is_disconnected_before_the_next() {
    let actions = drive(
        "curl",
        vec![
            ResolveEvent::Missing,
            ResolveEvent::Missing,
            ResolveEvent::Remotes(vec![Some(text("a")), None, Some(text("b"))]),
            ResolveEvent::Completed,
            ResolveEvent::Heads(vec![head("refs/heads/main", 1)]),
            ResolveEvent::Completed,
            ResolveEvent::Completed,
            ResolveEvent::Heads(vec![head("refs/heads/curl", 7)]),
        ],
    );
    assert_eq!(
        &actions[3..],
        &[
            ResolveAction::Connect { remote: text("a") },
            ResolveAction::ListHeads { remote: text("a") },
            ResolveAction::Disconnect { remote: text("a") },
            ResolveAction::Connect { remote: text("b") },
            ResolveAction::ListHeads { remote: text("b") },
            ResolveAction::Fetch {
                remote: text("b"),
                refspec: text("refs/heads/curl:refs/remotes/b/curl"),
            },
        ]
    );
}

#[test]
fn remote_whose_references_cannot_be_listed_aborts() {
    let actions = drive(
        "curl",
        vec![
            ResolveEvent::Missing,
            ResolveEvent::Missing,
            ResolveEvent::Remotes(vec![Some(text("a")), Some(text("b"))]),
            ResolveEvent::Completed,
            ResolveEvent::Failed,
            ResolveEvent::Completed,
        ],
    );
    assert_eq!(
        &actions[4..],
        &[
            ResolveAction::ListHeads { remote: text("a") },
            ResolveAction::Abort,
            ResolveAction::Idle,
        ]
    );
}

#[test]
fn failed_connection_aborts() {
    let actions = drive(
        "curl",
        vec![
            ResolveEvent::Missing,
            ResolveEvent::Missing,
            ResolveEvent::Remotes(vec![Some(text("a")), Some(text("b"))]),
            ResolveEvent::Failed,
            ResolveEvent::Completed,
        ],
    );
    assert_eq!(
        &actions[3..],
        &[
            ResolveAction::Connect { remote: text("a") },
            ResolveAction::Abort,
            ResolveAction::Idle,
        ]
    );
}

#[test]
fn failed_listing_of_remotes_aborts() {
    let actions = drive(
        "curl",
        vec![ResolveEvent::Missing, ResolveEvent::Missing, ResolveEvent::Failed],
    );
    assert_eq!(actions[3], ResolveAction::Abort);
}

#[test]
fn failure_while_setting_up_the_branch_aborts() {
    for failing in 0..3 {
        let mut events = vec![
            ResolveEvent::Missing,
            ResolveEvent::Missing,
            ResolveEvent::Remotes(vec![Some(text("origin"))]),
            ResolveEvent::Completed,
            ResolveEvent::Heads(vec![head("refs/heads/curl", 2)]),
        ];
        for _ in 0..failing {
            events.push(ResolveEvent::Completed);
        }
        events.push(ResolveEvent::Failed);
        let actions = drive("curl", events);
        assert_eq!(actions.last(), Some(&ResolveAction::Abort));
    }
}

#[test]
fn tag_that_is_gone_after_the_fetch_aborts() {
    let actions = drive(
        "v1",
        vec![
            ResolveEvent::Missing,
            ResolveEvent::Missing,
            ResolveEvent::Remotes(vec![Some(text("up"))]),
            ResolveEvent::Completed,
            ResolveEvent::Heads(vec![head("refs/tags/v1", 9)]),
            ResolveEvent::Completed,
            ResolveEvent::Missing,
        ],
    );
    assert_eq!(actions.last(), Some(&ResolveAction::Abort));
}

#[test]
fn short_commit_id_resolves_to_a_detached_commit() {
    let actions = drive(
        "d1b40aa",
        vec![
            ResolveEvent::Missing,
            ResolveEvent::Missing,
            ResolveEvent::Remotes(vec![Some(text("origin"))]),
            ResolveEvent::Completed,
            ResolveEvent::Heads(vec![head("refs/heads/master", 1), head("refs/heads/curl", 2)]),
            ResolveEvent::Completed,
            ResolveEvent::Revision(id(0xd1)),
        ],
    );
    assert_eq!(
        &actions[6..],
        &[
            ResolveAction::ParseRevision { spec: text("d1b40aa") },
            ResolveAction::Resolved(ResolutionOutcome::DetachedCommit(id(0xd1))),
        ]
    );
}

#[test]
fn without_remotes_the_revision_is_next() {
    let actions = drive(
        "HEAD~2",
        vec![
            ResolveEvent::Missing,
            ResolveEvent::Missing,
            ResolveEvent::Remotes(vec![]),
            ResolveEvent::Revision(id(3)),
        ],
    );
    assert_eq!(
        &actions[3..],
        &[
            ResolveAction::ParseRevision { spec: text("HEAD~2") },
            ResolveAction::Resolved(ResolutionOutcome::DetachedCommit(id(3))),
        ]
    );
}

#[test]
fn non_existant_spec_is_unresolved() {
    let actions = drive(
        "nonExistant",
        vec![
            ResolveEvent::Missing,
            ResolveEvent::Missing,
            ResolveEvent::Remotes(vec![Some(text("origin"))]),
            ResolveEvent::Completed,
            ResolveEvent::Heads(vec![head("refs/heads/master", 1)]),
            ResolveEvent::Completed,
            ResolveEvent::Missing,
        ],
    );
    assert_eq!(
        actions.last(),
        Some(&ResolveAction::Unresolved(GitError {
            kind: ErrorKind::NotFound,
            message: text("Failed to resolve spec: nonExistant"),
        }))
    );
    // nothing was fetched, created or set on the way
    for action in &actions {
        assert!(!matches!(
            action,
            ResolveAction::Fetch { .. }
                | ResolveAction::CreateBranch { .. }
                | ResolveAction::SetUpstream { .. }
        ));
    }
}

#[test]
fn machine_is_done_after_the_end() {
    let (resolver, _) = Resolver::new(text("x"));
    let (resolver, action) = resolver.step(ResolveEvent::Found(Some(text("refs/heads/x"))));
    assert!(matches!(action, ResolveAction::Resolved(_)));
    assert!(resolver.is_done());
    let (resolver, action) = resolver.step(ResolveEvent::Completed);
    assert_eq!(action, ResolveAction::Idle);
    assert!(resolver.is_done());
}

#[test]
fn find_match_gives_the_first_position() {
    let heads = vec![
        head("HEAD", 1),
        head("refs/heads/curl-old", 2),
        head("refs/tags/curl", 3),
        head("refs/heads/curl", 4),
    ];
    assert_eq!(find_match(&heads, "curl"), 2);
    assert_eq!(find_match(&heads, "curl-old"), 1);
    assert_eq!(find_match(&heads, "missing"), 4);
    assert_eq!(find_match(&Vec::new(), "curl"), 0);
    // a short name is no match for a full one
    assert_eq!(find_match(&vec![head("curl", 1)], "curl"), 1);
}

#[test]
fn named_of_drops_remotes_without_a_name() {
    assert_eq!(
        named_of(&vec![None, Some(text("a")), None, Some(text("b")), None]),
        vec![text("a"), text("b")]
    );
    assert_eq!(named_of(&vec![None, None]), Vec::<String>::new());
    assert_eq!(named_of(&vec![]), Vec::<String>::new());
}

#[test]
fn object_id_duplicate_is_equal() {
    let first = ObjectId { bytes: (0..20).collect() };
    assert_eq!(first.duplicate(), first);
    let empty = ObjectId { bytes: vec![] };
    assert_eq!(empty.duplicate(), empty);
}
