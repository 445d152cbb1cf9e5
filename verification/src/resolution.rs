//! What a search finds, said in one piece: given everything that the
//! backend would answer, the result of the search is the first find in the
//! fixed order. The machine of `resolve`, driven with those answers, ends
//! with exactly that.

use vstd::prelude::*;
use crate::refnames::branch_reference;
use crate::resolve::{
    match_position,
    name_or,
    named,
    start,
    step,
    unresolved_error,
    ActionView,
    EventView,
    OutcomeView,
    RemoteHeadView,
    ResolverView,
    Stage,
};

verus! {

/// What the backend would answer about one remote.
pub struct RemoteAnswers {
    pub name: Seq<char>,
    /// Whether the remote can be looked up and connected to.
    pub connects: bool,
    /// The references that it offers, in its order; `None` where they
    /// cannot be read.
    pub heads: Option<Seq<RemoteHeadView>>,
    /// The step of setting up a find at which the backend fails, if it
    /// fails at one. For a branch the steps are: fetching, creating the
    /// branch, setting the upstream. For a tag there is one: fetching.
    pub failing_step: Option<nat>,
    /// Whether the tag's reference is there once it is fetched, and its
    /// name, where that is valid UTF-8.
    pub fetched_tag: Option<Option<Seq<char>>>,
}

/// What the backend would answer to every question about a spec.
pub struct Answers {
    /// Whether a local branch has the spec's name, and the reference's name,
    /// where that is valid UTF-8.
    pub local_branch: Option<Option<Seq<char>>>,
    /// The same for a local tag.
    pub local_tag: Option<Option<Seq<char>>>,
    /// The remotes that have a name, in the backend's order; `None` where
    /// they cannot be listed.
    pub remotes: Option<Seq<RemoteAnswers>>,
    /// The object that the spec names as a revision, if it names one.
    pub revision: Option<Seq<u8>>,
}

/// Whether setting up a find fails within its first `steps` steps.
pub open spec fn fails_within(r: RemoteAnswers, steps: nat) -> bool {
    r.failing_step matches Some(at) && at < steps
}

/// What the scan of the remotes from the one at `i` on finds, and the
/// revision where none of them has a match.
///
/// A remote that cannot be reached, or whose references cannot be read,
/// ends the search with the backend's error. One whose references hold no
/// match is passed over. The first reference that is the branch or the tag
/// of the spec's name decides: it is set up, and the search ends with it,
/// or with the backend's error where setting it up fails.
pub open spec fn scan(spec: Seq<char>, remotes: Seq<RemoteAnswers>, i: int, revision: Option<
    Seq<u8>,
>) -> ActionView
    decreases remotes.len() - i,
{
    if i < 0 || i >= remotes.len() {
        match revision {
            Some(id) => ActionView::Resolved(OutcomeView::DetachedCommit(id)),
            None => ActionView::Unresolved(unresolved_error(spec)),
        }
    } else {
        let r = remotes[i];
        if !r.connects {
            ActionView::Abort
        } else {
            match r.heads {
                None => ActionView::Abort,
                Some(heads) => {
                    let k = match_position(heads, spec);
                    if 0 <= k < heads.len() {
                        if heads[k].name == branch_reference(spec) {
                            if fails_within(r, 3) {
                                ActionView::Abort
                            } else {
                                ActionView::Resolved(
                                    OutcomeView::RemoteBranch(r.name, spec, heads[k].id),
                                )
                            }
                        } else if fails_within(r, 1) {
                            ActionView::Abort
                        } else {
                            match r.fetched_tag {
                                Some(name) => ActionView::Resolved(
                                    OutcomeView::RemoteTag(r.name, name_or(name, spec)),
                                ),
                                None => ActionView::Abort,
                            }
                        }
                    } else {
                        scan(spec, remotes, i + 1, revision)
                    }
                },
            }
        }
    }
}

/// What the search for `spec` ends with: the local branch of its name
/// where there is one; else the local tag; else what the scan of the
/// remotes finds; else the revision; else nothing.
pub open spec fn resolution(spec: Seq<char>, a: Answers) -> ActionView {
    match a.local_branch {
        Some(name) => ActionView::Resolved(OutcomeView::LocalBranch(name_or(name, spec))),
        None => match a.local_tag {
            Some(name) => ActionView::Resolved(OutcomeView::LocalTag(name_or(name, spec))),
            None => match a.remotes {
                Some(remotes) => scan(spec, remotes, 0, a.revision),
                None => ActionView::Abort,
            },
        },
    }
}

/// The names of the remotes as the backend lists them.
pub open spec fn listed(remotes: Seq<RemoteAnswers>) -> Seq<Option<Seq<char>>> {
    Seq::new(remotes.len(), |i: int| Some(remotes[i].name))
}

/// The names of the remotes.
pub open spec fn names(remotes: Seq<RemoteAnswers>) -> Seq<Seq<char>> {
    Seq::new(remotes.len(), |i: int| remotes[i].name)
}

/// What the backend says that a step of setting up was done, or failed.
pub open spec fn set_up(r: RemoteAnswers, at: nat) -> EventView {
    if r.failing_step == Some(at) {
        EventView::Failed
    } else {
        EventView::Completed
    }
}

/// The answer to a lookup.
pub open spec fn found(reference: Option<Option<Seq<char>>>) -> EventView {
    match reference {
        Some(name) => EventView::Found(name),
        None => EventView::Missing,
    }
}

/// What the backend answers to the question that the machine waits on in
/// state `s`.
pub open spec fn reply(a: Answers, s: ResolverView) -> EventView {
    let remotes = a.remotes.unwrap();
    match s.stage {
        Stage::LocalBranch => found(a.local_branch),
        Stage::LocalTag => found(a.local_tag),
        Stage::Remotes => match a.remotes {
            Some(remotes) => EventView::Remotes(listed(remotes)),
            None => EventView::Failed,
        },
        Stage::Connect { remote } => if remotes[remote as int].connects {
            EventView::Completed
        } else {
            EventView::Failed
        },
        Stage::Heads { remote } => match remotes[remote as int].heads {
            Some(heads) => EventView::Heads(heads),
            None => EventView::Failed,
        },
        Stage::Disconnect { remote } => EventView::Completed,
        Stage::BranchFetch { remote } => set_up(remotes[remote as int], 0),
        Stage::BranchCreate { remote } => set_up(remotes[remote as int], 1),
        Stage::BranchUpstream { remote } => set_up(remotes[remote as int], 2),
        Stage::TagFetch { remote } => set_up(remotes[remote as int], 0),
        Stage::TagReference { remote } => found(remotes[remote as int].fetched_tag),
        Stage::Revision => match a.revision {
            Some(id) => EventView::Revision(id),
            None => EventView::Missing,
        },
        Stage::Done => EventView::Completed,
    }
}

/// Whether an action ends the search.
pub open spec fn ends(action: ActionView) -> bool {
    action is Resolved || action is Unresolved || action is Abort || action is Idle
}

/// What the machine ends with when it is driven from state `s` with the
/// backend's answers, for at most `fuel` questions.
pub open spec fn drive(s: ResolverView, a: Answers, fuel: nat) -> ActionView
    decreases fuel,
{
    if fuel == 0 {
        ActionView::Idle
    } else {
        let next = step(s, reply(a, s));
        if ends(next.1) {
            next.1
        } else {
            drive(next.0, a, (fuel - 1) as nat)
        }
    }
}

/// The backend's list of remotes that all have a name holds their names.
pub proof fn lemma_named_of_listed(remotes: Seq<RemoteAnswers>)
    ensures
        named(listed(remotes)) == names(remotes),
    decreases remotes.len(),
{
    if remotes.len() > 0 {
        let front = remotes.drop_last();
        lemma_named_of_listed(front);
        assert(listed(remotes).drop_last() =~= listed(front));
        assert(named(listed(remotes)) =~= names(remotes));
    } else {
        assert(named(listed(remotes)) =~= names(remotes));
    }
}

/// Driven from the point where the remote at `i` is to be connected, or,
/// behind the last remote, where the revision is asked for, the machine
/// ends with what the scan from `i` on finds.
pub proof fn lemma_drive_scans(s: ResolverView, a: Answers, i: int, fuel: nat)
    requires
        a.remotes is Some,
        a.remotes.unwrap().len() <= usize::MAX,
        s.remotes == names(a.remotes.unwrap()),
        0 <= i <= a.remotes.unwrap().len(),
        s.stage == if i < a.remotes.unwrap().len() {
            Stage::Connect { remote: i as usize }
        } else {
            Stage::Revision
        },
        fuel >= 3 * (a.remotes.unwrap().len() - i) + 6,
    ensures
        drive(s, a, fuel) == scan(s.spec, a.remotes.unwrap(), i, a.revision),
    decreases a.remotes.unwrap().len() - i,
{
    let remotes = a.remotes.unwrap();
    reveal_with_fuel(drive, 7);
    if i < remotes.len() {
        let r = remotes[i];
        if r.connects {
            let s1 = step(s, reply(a, s)).0;
            assert(s1.stage == Stage::Heads { remote: i as usize });
            let after = step(s1, reply(a, s1));
            let passes = match r.heads {
                None => false,
                Some(heads) => !(0 <= match_position(heads, s.spec) < heads.len()),
            };
            if passes {
                let s2 = after.0;
                assert(s2.stage == Stage::Disconnect { remote: i as usize });
                let s3 = step(s2, reply(a, s2)).0;
                assert(s3.spec == s.spec);
                assert(s3.remotes == s.remotes);
                lemma_drive_scans(s3, a, i + 1, (fuel - 3) as nat);
                assert(drive(s, a, fuel) == drive(s3, a, (fuel - 3) as nat));
            }
        }
    }
}

/// The machine, driven with the backend's answers, ends with the first find
/// in the fixed order: whatever the backend would answer, and for every
/// bound on the questions that leaves room for them all, the search for a
/// spec ends with `resolution`.
pub proof fn lemma_search_finds_resolution(spec: Seq<char>, a: Answers, fuel: nat)
    requires
        a.remotes matches Some(remotes) ==> remotes.len() <= usize::MAX && fuel >= 3
            * remotes.len() + 9,
        fuel >= 3,
    ensures
        drive(start(spec).0, a, fuel) == resolution(spec, a),
{
    let s = start(spec).0;
    reveal_with_fuel(drive, 4);
    if a.local_branch is None {
        let s1 = step(s, reply(a, s)).0;
        if a.local_tag is None {
            let s2 = step(s1, reply(a, s1)).0;
            if a.remotes is Some {
                let remotes = a.remotes.unwrap();
                lemma_named_of_listed(remotes);
                let s3 = step(s2, reply(a, s2)).0;
                assert(s3.remotes == names(remotes));
                lemma_drive_scans(s3, a, 0, (fuel - 3) as nat);
                assert(drive(s, a, fuel) == drive(s3, a, (fuel - 3) as nat));
            }
        }
    }
}

/// A spec that is the name of a local branch resolves to that branch, even
/// where it also names a tag, a branch of a remote or a commit.
pub proof fn lemma_branch_before_commit(spec: Seq<char>, a: Answers)
    requires
        a.local_branch is Some,
    ensures
        resolution(spec, a) matches ActionView::Resolved(OutcomeView::LocalBranch(_)),
        !(resolution(spec, a) matches ActionView::Resolved(OutcomeView::DetachedCommit(_))),
{
}

} // verus!
