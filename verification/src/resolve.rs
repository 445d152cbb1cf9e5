//! What a spec names: a branch, a tag or a commit, looked for in a fixed
//! order.
//!
//! The search is a machine that asks the backend one question at a time.
//! `Resolver::new` gives the first question; `Resolver::step` takes the
//! answer to the last question and gives the next one, until the search ends
//! with `Resolved`, `Unresolved` or `Abort`. Whoever drives the machine puts
//! each question to the backend and hands back what it said.

use vstd::prelude::*;
use vstd::string::*;
use crate::error::{ErrorKind, GitError, GitErrorView};
use crate::text::texts;
use crate::refnames::{
    branch_reference,
    branch_reference_of,
    tag_reference,
    tag_reference_of,
    tag_refspec,
    tag_refspec_of,
    tracking_refspec,
    tracking_refspec_of,
    upstream_name,
    upstream_name_of,
};

verus! {

/// The id of an object, as its bytes.
#[derive(Clone, Debug, PartialEq, Eq)]
pub struct ObjectId {
    pub bytes: Vec<u8>,
}

impl View for ObjectId {
    type V = Seq<u8>;

    open spec fn view(&self) -> Seq<u8> {
        self.bytes@
    }
}

impl ObjectId {
    /// A copy of the id.
    pub fn duplicate(&self) -> (id: ObjectId)
        ensures
            id@ == self@,
    {
        let mut bytes: Vec<u8> = Vec::new();
        let mut i: usize = 0;
        while i < self.bytes.len()
            invariant
                i <= self.bytes@.len(),
                bytes@ == self.bytes@.take(i as int),
            decreases self.bytes@.len() - i,
        {
            bytes.push(self.bytes[i]);
            assert(bytes@ =~= self.bytes@.take(i + 1));
            i = i + 1;
        }
        assert(bytes@ =~= self.bytes@);
        ObjectId { bytes }
    }
}

/// A reference that a remote offers: its full name and the object it
/// points at.
#[derive(Clone, Debug, PartialEq, Eq)]
pub struct RemoteHead {
    pub name: String,
    pub id: ObjectId,
}

/// A remote's reference as plain values.
pub struct RemoteHeadView {
    pub name: Seq<char>,
    pub id: Seq<u8>,
}

impl View for RemoteHead {
    type V = RemoteHeadView;

    open spec fn view(&self) -> RemoteHeadView {
        RemoteHeadView { name: self.name@, id: self.id@ }
    }
}

/// What a spec was found to name.
#[derive(Clone, Debug, PartialEq, Eq)]
pub enum ResolutionOutcome {
    /// A local branch, by the full name of its reference.
    LocalBranch(String),
    /// A local tag, by the full name of its reference.
    LocalTag(String),
    /// A branch of a remote that now has a local branch of its name: the
    /// remote, the branch's short name, and the commit it points at.
    RemoteBranch(String, String, ObjectId),
    /// A tag of a remote that was fetched: the remote, and the full name of
    /// the tag's reference.
    RemoteTag(String, String),
    /// A commit, by its id.
    DetachedCommit(ObjectId),
}

/// An outcome as plain values.
pub enum OutcomeView {
    LocalBranch(Seq<char>),
    LocalTag(Seq<char>),
    RemoteBranch(Seq<char>, Seq<char>, Seq<u8>),
    RemoteTag(Seq<char>, Seq<char>),
    DetachedCommit(Seq<u8>),
}

impl View for ResolutionOutcome {
    type V = OutcomeView;

    open spec fn view(&self) -> OutcomeView {
        match self {
            ResolutionOutcome::LocalBranch(name) => OutcomeView::LocalBranch(name@),
            ResolutionOutcome::LocalTag(name) => OutcomeView::LocalTag(name@),
            ResolutionOutcome::RemoteBranch(remote, name, id) => OutcomeView::RemoteBranch(
                remote@,
                name@,
                id@,
            ),
            ResolutionOutcome::RemoteTag(remote, name) => OutcomeView::RemoteTag(remote@, name@),
            ResolutionOutcome::DetachedCommit(id) => OutcomeView::DetachedCommit(id@),
        }
    }
}

/// A question to the backend, or the end of the search.
#[derive(Clone, Debug, PartialEq, Eq)]
pub enum ResolveAction {
    /// Is there a local branch of this short name?
    FindLocalBranch { name: String },
    /// Is there a reference of this full name?
    FindReference { name: String },
    /// Which remotes are configured?
    ListRemotes,
    /// Look the remote up and open a connection to it, for fetching.
    Connect { remote: String },
    /// Which references does the connected remote offer?
    ListHeads { remote: String },
    /// Close the connection to the remote.
    Disconnect { remote: String },
    /// Fetch from the remote what the refspec names.
    Fetch { remote: String, refspec: String },
    /// Look the fetched commit up and create the local branch at it; a
    /// branch of that name that is there already is not replaced.
    CreateBranch { name: String, target: ObjectId },
    /// Set the upstream of the local branch.
    SetUpstream { branch: String, upstream: String },
    /// What does the spec name as a revision?
    ParseRevision { spec: String },
    /// The search ended: this is what the spec names.
    Resolved(ResolutionOutcome),
    /// The search ended: the spec names nothing.
    Unresolved(GitError),
    /// The search ended: the backend's last error is the result.
    Abort,
    /// The search had ended before.
    Idle,
}

/// An action as plain values.
pub enum ActionView {
    FindLocalBranch { name: Seq<char> },
    FindReference { name: Seq<char> },
    ListRemotes,
    Connect { remote: Seq<char> },
    ListHeads { remote: Seq<char> },
    Disconnect { remote: Seq<char> },
    Fetch { remote: Seq<char>, refspec: Seq<char> },
    CreateBranch { name: Seq<char>, target: Seq<u8> },
    SetUpstream { branch: Seq<char>, upstream: Seq<char> },
    ParseRevision { spec: Seq<char> },
    Resolved(OutcomeView),
    Unresolved(GitErrorView),
    Abort,
    Idle,
}

impl View for ResolveAction {
    type V = ActionView;

    open spec fn view(&self) -> ActionView {
        match self {
            ResolveAction::FindLocalBranch { name } => ActionView::FindLocalBranch { name: name@ },
            ResolveAction::FindReference { name } => ActionView::FindReference { name: name@ },
            ResolveAction::ListRemotes => ActionView::ListRemotes,
            ResolveAction::Connect { remote } => ActionView::Connect { remote: remote@ },
            ResolveAction::ListHeads { remote } => ActionView::ListHeads { remote: remote@ },
            ResolveAction::Disconnect { remote } => ActionView::Disconnect { remote: remote@ },
            ResolveAction::Fetch { remote, refspec } => ActionView::Fetch {
                remote: remote@,
                refspec: refspec@,
            },
            ResolveAction::CreateBranch { name, target } => ActionView::CreateBranch {
                name: name@,
                target: target@,
            },
            ResolveAction::SetUpstream { branch, upstream } => ActionView::SetUpstream {
                branch: branch@,
                upstream: upstream@,
            },
            ResolveAction::ParseRevision { spec } => ActionView::ParseRevision { spec: spec@ },
            ResolveAction::Resolved(outcome) => ActionView::Resolved(outcome@),
            ResolveAction::Unresolved(error) => ActionView::Unresolved(error@),
            ResolveAction::Abort => ActionView::Abort,
            ResolveAction::Idle => ActionView::Idle,
        }
    }
}

/// What the backend said to the last question.
#[derive(Clone, Debug, PartialEq, Eq)]
pub enum ResolveEvent {
    /// The reference exists; its full name, where that is valid UTF-8.
    Found(Option<String>),
    /// There is no such thing, or looking for it failed.
    Missing,
    /// The names of the configured remotes, in the backend's order; `None`
    /// for a name that is not valid UTF-8.
    Remotes(Vec<Option<String>>),
    /// The references that the remote offers, in the order it gave them.
    Heads(Vec<RemoteHead>),
    /// The revision's object.
    Revision(ObjectId),
    /// It was done.
    Completed,
    /// It failed.
    Failed,
}

/// An event as plain values.
pub enum EventView {
    Found(Option<Seq<char>>),
    Missing,
    Remotes(Seq<Option<Seq<char>>>),
    Heads(Seq<RemoteHeadView>),
    Revision(Seq<u8>),
    Completed,
    Failed,
}

/// The texts of a list of names, some of which may be missing.
pub open spec fn optional_texts(list: Seq<Option<String>>) -> Seq<Option<Seq<char>>> {
    Seq::new(
        list.len(),
        |i: int|
            match list[i] {
                Some(name) => Some(name@),
                None => None,
            },
    )
}

/// A list of remote references as plain values.
pub open spec fn head_views(list: Seq<RemoteHead>) -> Seq<RemoteHeadView> {
    Seq::new(list.len(), |i: int| list[i]@)
}

impl View for ResolveEvent {
    type V = EventView;

    open spec fn view(&self) -> EventView {
        match self {
            ResolveEvent::Found(name) => EventView::Found(
                match name {
                    Some(name) => Some(name@),
                    None => None,
                },
            ),
            ResolveEvent::Missing => EventView::Missing,
            ResolveEvent::Remotes(list) => EventView::Remotes(optional_texts(list@)),
            ResolveEvent::Heads(list) => EventView::Heads(head_views(list@)),
            ResolveEvent::Revision(id) => EventView::Revision(id@),
            ResolveEvent::Completed => EventView::Completed,
            ResolveEvent::Failed => EventView::Failed,
        }
    }
}

/// Where the search stands: which answer it waits for. `remote` counts the
/// named remotes in the backend's order.
#[derive(Clone, Copy, Debug, PartialEq, Eq, Structural)]
pub enum Stage {
    LocalBranch,
    LocalTag,
    Remotes,
    Connect { remote: usize },
    Heads { remote: usize },
    Disconnect { remote: usize },
    BranchFetch { remote: usize },
    BranchCreate { remote: usize },
    BranchUpstream { remote: usize },
    TagFetch { remote: usize },
    TagReference { remote: usize },
    Revision,
    Done,
}

/// The state of a search as plain values.
pub struct ResolverView {
    /// The spec that is looked for.
    pub spec: Seq<char>,
    pub stage: Stage,
    /// The remotes that have a name, in the backend's order; empty until
    /// the backend has listed them.
    pub remotes: Seq<Seq<char>>,
    /// The commit of the remote branch that was found; empty until then.
    pub target: Seq<u8>,
}

/// The remotes of `list` that have a name, in order.
pub open spec fn named(list: Seq<Option<Seq<char>>>) -> Seq<Seq<char>>
    decreases list.len(),
{
    if list.len() == 0 {
        Seq::empty()
    } else {
        match list.last() {
            Some(name) => named(list.drop_last()).push(name),
            None => named(list.drop_last()),
        }
    }
}

/// Whether a remote's reference of this name is the branch or the tag that
/// `spec` names.
pub open spec fn names_spec(name: Seq<char>, spec: Seq<char>) -> bool {
    name == branch_reference(spec) || name == tag_reference(spec)
}

/// The position of the first reference in `heads` that is the branch or the
/// tag of `spec`; the length of `heads` where none is.
pub open spec fn match_position(heads: Seq<RemoteHeadView>, spec: Seq<char>) -> int
    decreases heads.len(),
{
    if heads.len() == 0 || names_spec(heads[0].name, spec) {
        0
    } else {
        1 + match_position(heads.skip(1), spec)
    }
}

/// The reference's name where the backend could give it, else the spec.
pub open spec fn name_or(name: Option<Seq<char>>, spec: Seq<char>) -> Seq<char> {
    match name {
        Some(name) => name,
        None => spec,
    }
}

/// The error of a spec that names nothing.
pub open spec fn unresolved_error(spec: Seq<char>) -> GitErrorView {
    GitErrorView { kind: ErrorKind::NotFound, message: "Failed to resolve spec: "@ + spec }
}

/// The state in which a search has ended.
pub open spec fn finished(s: ResolverView) -> ResolverView {
    ResolverView { stage: Stage::Done, ..s }
}

/// The state and the first question of the search for `spec`.
pub open spec fn start(spec: Seq<char>) -> (ResolverView, ActionView) {
    (
        ResolverView {
            spec,
            stage: Stage::LocalBranch,
            remotes: Seq::empty(),
            target: Seq::empty(),
        },
        ActionView::FindLocalBranch { name: spec },
    )
}

/// Goes on with the remote at `remote`, or with the revision where no
/// remote is left.
pub open spec fn scan_from(s: ResolverView, remote: int) -> (ResolverView, ActionView) {
    if 0 <= remote < s.remotes.len() {
        (
            ResolverView { stage: Stage::Connect { remote: remote as usize }, ..s },
            ActionView::Connect { remote: s.remotes[remote] },
        )
    } else {
        (ResolverView { stage: Stage::Revision, ..s }, ActionView::ParseRevision { spec: s.spec })
    }
}

/// Ends the search with the backend's error unless `e` says that the last
/// operation was done, in which case `next` follows.
pub open spec fn when_completed(
    s: ResolverView,
    e: EventView,
    next: (ResolverView, ActionView),
) -> (ResolverView, ActionView) {
    if e is Completed {
        next
    } else {
        (finished(s), ActionView::Abort)
    }
}

/// What follows a remote's list of references.
pub open spec fn after_heads(s: ResolverView, remote: usize, heads: Seq<RemoteHeadView>) -> (
    ResolverView,
    ActionView,
) {
    let k = match_position(heads, s.spec);
    if 0 <= k < heads.len() {
        if heads[k].name == branch_reference(s.spec) {
            (
                ResolverView { stage: Stage::BranchFetch { remote }, target: heads[k].id, ..s },
                ActionView::Fetch {
                    remote: s.remotes[remote as int],
                    refspec: tracking_refspec(s.remotes[remote as int], s.spec),
                },
            )
        } else {
            (
                ResolverView { stage: Stage::TagFetch { remote }, ..s },
                ActionView::Fetch { remote: s.remotes[remote as int], refspec: tag_refspec(s.spec) },
            )
        }
    } else {
        (
            ResolverView { stage: Stage::Disconnect { remote }, ..s },
            ActionView::Disconnect { remote: s.remotes[remote as int] },
        )
    }
}

/// One step of the search: from the state and the backend's answer to the
/// next state and the next question.
///
/// The order is fixed, and the first find ends the search: the local branch
/// of the spec's name; the local tag; then the remotes that have a name, in
/// the backend's order, each one's references in the order it gives them,
/// where the first that is the branch or the tag of the spec's name is
/// fetched; last the spec as a revision. A branch of a remote is fetched
/// first; the local branch is then created at the fetched commit and its
/// upstream is set. An answer other than a find counts as none for the
/// local branch, the local tag and the revision. Failing to list the
/// remotes, to connect, to list a remote's references, to fetch or to set
/// up the branch ends the search with the backend's error. A remote without
/// a match is disconnected before the next one is connected.
pub open spec fn step(s: ResolverView, e: EventView) -> (ResolverView, ActionView) {
    match s.stage {
        Stage::LocalBranch => match e {
            EventView::Found(name) => (
                finished(s),
                ActionView::Resolved(OutcomeView::LocalBranch(name_or(name, s.spec))),
            ),
            _ => (
                ResolverView { stage: Stage::LocalTag, ..s },
                ActionView::FindReference { name: tag_reference(s.spec) },
            ),
        },
        Stage::LocalTag => match e {
            EventView::Found(name) => (
                finished(s),
                ActionView::Resolved(OutcomeView::LocalTag(name_or(name, s.spec))),
            ),
            _ => (ResolverView { stage: Stage::Remotes, ..s }, ActionView::ListRemotes),
        },
        Stage::Remotes => match e {
            EventView::Remotes(list) => scan_from(ResolverView { remotes: named(list), ..s }, 0),
            _ => (finished(s), ActionView::Abort),
        },
        Stage::Connect { remote } => when_completed(
            s,
            e,
            (
                ResolverView { stage: Stage::Heads { remote }, ..s },
                ActionView::ListHeads { remote: s.remotes[remote as int] },
            ),
        ),
        Stage::Heads { remote } => match e {
            EventView::Heads(heads) => after_heads(s, remote, heads),
            _ => (finished(s), ActionView::Abort),
        },
        Stage::Disconnect { remote } => scan_from(s, remote + 1),
        Stage::BranchFetch { remote } => when_completed(
            s,
            e,
            (
                ResolverView { stage: Stage::BranchCreate { remote }, ..s },
                ActionView::CreateBranch { name: s.spec, target: s.target },
            ),
        ),
        Stage::BranchCreate { remote } => when_completed(
            s,
            e,
            (
                ResolverView { stage: Stage::BranchUpstream { remote }, ..s },
                ActionView::SetUpstream {
                    branch: s.spec,
                    upstream: upstream_name(s.remotes[remote as int], s.spec),
                },
            ),
        ),
        Stage::BranchUpstream { remote } => when_completed(
            s,
            e,
            (
                finished(s),
                ActionView::Resolved(
                    OutcomeView::RemoteBranch(s.remotes[remote as int], s.spec, s.target),
                ),
            ),
        ),
        Stage::TagFetch { remote } => when_completed(
            s,
            e,
            (
                ResolverView { stage: Stage::TagReference { remote }, ..s },
                ActionView::FindReference { name: tag_reference(s.spec) },
            ),
        ),
        Stage::TagReference { remote } => match e {
            EventView::Found(name) => (
                finished(s),
                ActionView::Resolved(
                    OutcomeView::RemoteTag(s.remotes[remote as int], name_or(name, s.spec)),
                ),
            ),
            _ => (finished(s), ActionView::Abort),
        },
        Stage::Revision => match e {
            EventView::Revision(id) => (
                finished(s),
                ActionView::Resolved(OutcomeView::DetachedCommit(id)),
            ),
            _ => (finished(s), ActionView::Unresolved(unresolved_error(s.spec))),
        },
        Stage::Done => (s, ActionView::Idle),
    }
}

/// The remote that a stage is about, if it is about one.
pub open spec fn stage_remote(stage: Stage) -> Option<usize> {
    match stage {
        Stage::Connect { remote } => Some(remote),
        Stage::Heads { remote } => Some(remote),
        Stage::Disconnect { remote } => Some(remote),
        Stage::BranchFetch { remote } => Some(remote),
        Stage::BranchCreate { remote } => Some(remote),
        Stage::BranchUpstream { remote } => Some(remote),
        Stage::TagFetch { remote } => Some(remote),
        Stage::TagReference { remote } => Some(remote),
        _ => None,
    }
}

/// A state that a search can be in: a stage that is about a remote is about
/// one of the list.
pub open spec fn well_formed(s: ResolverView) -> bool {
    stage_remote(s.stage) matches Some(remote) ==> remote < s.remotes.len()
}

/// The state after the machine has taken `events` one by one.
pub open spec fn state_after(s: ResolverView, events: Seq<EventView>) -> ResolverView
    decreases events.len(),
{
    if events.len() == 0 {
        s
    } else {
        state_after(step(s, events[0]).0, events.skip(1))
    }
}

/// What the machine says to each of `events`, taken one by one.
pub open spec fn run(s: ResolverView, events: Seq<EventView>) -> Seq<ActionView>
    decreases events.len(),
{
    if events.len() == 0 {
        Seq::empty()
    } else {
        seq![step(s, events[0]).1] + run(step(s, events[0]).0, events.skip(1))
    }
}

/// Whether an action opens a connection to a remote or reads from one.
pub open spec fn contacts_remote(a: ActionView) -> bool {
    a is Connect || a is ListHeads || a is Fetch
}

/// Whether an action looks for something rather than ending the search or
/// setting up what was found.
pub open spec fn searches(a: ActionView) -> bool {
    a is FindLocalBranch || a is ListRemotes || a is Connect || a is ListHeads || a is Disconnect
        || a is ParseRevision
}

/// The stages behind the fetch of a match, and the end.
pub open spec fn fetched(stage: Stage) -> bool {
    stage is BranchFetch || stage is BranchCreate || stage is BranchUpstream || stage is TagFetch
        || stage is TagReference || stage is Done
}

/// A step keeps the state well formed.
pub proof fn lemma_step_well_formed(s: ResolverView, e: EventView)
    requires
        well_formed(s),
    ensures
        well_formed(step(s, e).0),
        step(s, e).0.spec == s.spec,
{
}

/// The machine answers every event.
pub proof fn lemma_run_len(s: ResolverView, events: Seq<EventView>)
    ensures
        run(s, events).len() == events.len(),
    decreases events.len(),
{
    if events.len() > 0 {
        lemma_run_len(step(s, events[0]).0, events.skip(1));
    }
}

/// What the machine says to an event but the first is what it says to it
/// from the state behind the first.
pub proof fn lemma_run_tail(s: ResolverView, events: Seq<EventView>, j: int)
    requires
        1 <= j < events.len(),
    ensures
        run(s, events)[j] == run(step(s, events[0]).0, events.skip(1))[j - 1],
{
    lemma_run_len(step(s, events[0]).0, events.skip(1));
}

/// Once the search has ended the machine asks nothing more.
pub proof fn lemma_done_stays_idle(s: ResolverView, events: Seq<EventView>, j: int)
    requires
        s.stage is Done,
        0 <= j < events.len(),
    ensures
        run(s, events)[j] == ActionView::Idle,
    decreases events.len(),
{
    if j > 0 {
        lemma_run_tail(s, events, j);
        lemma_done_stays_idle(step(s, events[0]).0, events.skip(1), j - 1);
    } else {
        lemma_run_len(step(s, events[0]).0, events.skip(1));
    }
}

/// A spec that is the name of a local branch is that branch, whatever else
/// it could be read as: the first question is for the local branch, a find
/// ends the search with it, and nothing more is asked, so that the spec is
/// never even tried as a tag, on a remote or as a revision.
pub proof fn lemma_local_branch_wins(
    spec: Seq<char>,
    name: Option<Seq<char>>,
    events: Seq<EventView>,
    j: int,
)
    requires
        0 <= j < events.len(),
        events[0] == EventView::Found(name),
    ensures
        start(spec).1 == (ActionView::FindLocalBranch { name: spec }),
        run(start(spec).0, events)[0] == ActionView::Resolved(
            OutcomeView::LocalBranch(name_or(name, spec)),
        ),
        j > 0 ==> run(start(spec).0, events)[j] == ActionView::Idle,
{
    let s = start(spec).0;
    lemma_run_len(step(s, events[0]).0, events.skip(1));
    if j > 0 {
        lemma_run_tail(s, events, j);
        lemma_done_stays_idle(step(s, events[0]).0, events.skip(1), j - 1);
    }
}

/// A spec that is no local branch but the name of a local tag is that tag:
/// no remote is asked and the spec is not tried as a revision.
pub proof fn lemma_local_tag_wins(
    spec: Seq<char>,
    name: Option<Seq<char>>,
    events: Seq<EventView>,
    j: int,
)
    requires
        1 <= j < events.len(),
        !(events[0] is Found),
        events[1] == EventView::Found(name),
    ensures
        run(start(spec).0, events)[0] == (ActionView::FindReference { name: tag_reference(spec) }),
        run(start(spec).0, events)[1] == ActionView::Resolved(
            OutcomeView::LocalTag(name_or(name, spec)),
        ),
        j > 1 ==> run(start(spec).0, events)[j] == ActionView::Idle,
{
    let s = start(spec).0;
    let s1 = step(s, events[0]).0;
    let rest = events.skip(1);
    lemma_run_len(s1, rest);
    lemma_run_tail(s, events, 1);
    assert(rest[0] == events[1]);
    lemma_run_len(step(s1, rest[0]).0, rest.skip(1));
    if j > 1 {
        lemma_run_tail(s, events, j);
        lemma_run_tail(s1, rest, j - 1);
        lemma_done_stays_idle(step(s1, rest[0]).0, rest.skip(1), j - 2);
    }
}

/// Whether an action sets up what was found on a remote: the actions that
/// change the repository.
pub open spec fn settles(a: ActionView) -> bool {
    a is Fetch || a is CreateBranch || a is SetUpstream
}

/// Whether an action ends the search with something other than what a
/// remote offered.
pub open spec fn ends_elsewhere(a: ActionView) -> bool {
    a is Unresolved || (a matches ActionView::Resolved(outcome) && (outcome is LocalBranch
        || outcome is LocalTag || outcome is DetachedCommit))
}

/// The stages in which a match on a remote is being set up.
pub open spec fn settling(stage: Stage) -> bool {
    stage is BranchFetch || stage is BranchCreate
        || stage is BranchUpstream || stage is TagFetch || stage is TagReference
}

/// Behind the fetch of a match the machine contacts no remote and looks for
/// nothing more, and the search ends with what the remote offered or with
/// the backend's error.
pub proof fn lemma_fetched_is_quiet(s: ResolverView, events: Seq<EventView>, j: int)
    requires
        fetched(s.stage),
        0 <= j < events.len(),
    ensures
        !contacts_remote(run(s, events)[j]),
        !searches(run(s, events)[j]),
        !ends_elsewhere(run(s, events)[j]),
    decreases events.len(),
{
    lemma_run_len(step(s, events[0]).0, events.skip(1));
    if j > 0 {
        lemma_run_tail(s, events, j);
        lemma_fetched_is_quiet(step(s, events[0]).0, events.skip(1), j - 1);
    }
}

/// While a match is being set up, and behind that, the machine looks for
/// nothing more, and the search ends with what the remote offered or with
/// the backend's error.
pub proof fn lemma_settling_stays(s: ResolverView, events: Seq<EventView>, j: int)
    requires
        settling(s.stage) || s.stage is Done,
        0 <= j < events.len(),
    ensures
        !searches(run(s, events)[j]),
        !ends_elsewhere(run(s, events)[j]),
    decreases events.len(),
{
    lemma_run_len(step(s, events[0]).0, events.skip(1));
    if j > 0 {
        lemma_run_tail(s, events, j);
        lemma_settling_stays(step(s, events[0]).0, events.skip(1), j - 1);
    }
}

/// The scan of the remotes stops at the first match: once the machine has
/// asked for a fetch, it connects to no remote and lists no references
/// again, and it asks for no second fetch. So no remote behind the one with
/// the match is ever contacted.
pub proof fn lemma_scan_stops_at_first_match(
    s: ResolverView,
    events: Seq<EventView>,
    i: int,
    j: int,
)
    requires
        0 <= i < j < events.len(),
        run(s, events)[i] is Fetch,
    ensures
        !(run(s, events)[j] is Connect),
        !(run(s, events)[j] is ListHeads),
        !(run(s, events)[j] is Fetch),
        !searches(run(s, events)[j]),
    decreases events.len(),
{
    let s1 = step(s, events[0]).0;
    let rest = events.skip(1);
    lemma_run_len(s1, rest);
    lemma_run_tail(s, events, j);
    if i == 0 {
        lemma_fetched_is_quiet(s1, rest, j - 1);
    } else {
        lemma_run_tail(s, events, i);
        lemma_scan_stops_at_first_match(s1, rest, i - 1, j - 1);
    }
}

/// A search that ends without a find on a remote has changed nothing: where
/// the spec names nothing, or a local branch, a local tag or a commit,
/// nothing was fetched, no branch was created and no upstream was set on
/// the way.
pub proof fn lemma_search_without_remote_find_changes_nothing(
    s: ResolverView,
    events: Seq<EventView>,
    i: int,
    j: int,
)
    requires
        0 <= i < j < events.len(),
        ends_elsewhere(run(s, events)[j]),
    ensures
        !settles(run(s, events)[i]),
    decreases events.len(),
{
    let s1 = step(s, events[0]).0;
    let rest = events.skip(1);
    lemma_run_len(s1, rest);
    lemma_run_tail(s, events, j);
    if i == 0 {
        if settles(run(s, events)[0]) {
            assert(settling(s1.stage) || s1.stage is Done);
            lemma_settling_stays(s1, rest, j - 1);
        }
    } else {
        lemma_run_tail(s, events, i);
        lemma_search_without_remote_find_changes_nothing(s1, rest, i - 1, j - 1);
    }
}

/// A fetch is asked of the remote whose references were listed last: the
/// one that holds the first match. For a branch the fetch comes before
/// anything is looked up or created, and the branch is then created at the
/// commit that the remote gave for it.
pub proof fn lemma_fetch_from_matching_remote(
    s: ResolverView,
    heads: Seq<RemoteHeadView>,
    done: EventView,
)
    requires
        s.stage matches Stage::Heads { remote },
        match_position(heads, s.spec) < heads.len(),
    ensures
        ({
            let remote = s.remotes[stage_remote(s.stage).unwrap() as int];
            let first = step(s, EventView::Heads(heads));
            let hit = heads[match_position(heads, s.spec)];
            if hit.name == branch_reference(s.spec) {
                &&& first.1 == (ActionView::Fetch {
                    remote,
                    refspec: tracking_refspec(remote, s.spec),
                })
                &&& done is Completed ==> step(first.0, done).1 == (ActionView::CreateBranch {
                    name: s.spec,
                    target: hit.id,
                })
            } else {
                first.1 == (ActionView::Fetch { remote, refspec: tag_refspec(s.spec) })
            }
        }),
{
    lemma_match_is_first(heads, s.spec);
}

/// Failing to reach a remote ends the search with the backend's error: the
/// machine does not go on to the next remote.
pub proof fn lemma_failed_connection_aborts(s: ResolverView, events: Seq<EventView>, j: int)
    requires
        s.stage is Connect,
        0 <= j < events.len(),
        !(events[0] is Completed),
    ensures
        run(s, events)[0] == ActionView::Abort,
        j > 0 ==> run(s, events)[j] == ActionView::Idle,
{
    lemma_run_len(step(s, events[0]).0, events.skip(1));
    if j > 0 {
        lemma_run_tail(s, events, j);
        lemma_done_stays_idle(step(s, events[0]).0, events.skip(1), j - 1);
    }
}

/// A spec that nothing answers to names nothing: the search ends with the
/// error that carries the spec.
pub proof fn lemma_nothing_found(s: ResolverView, e: EventView)
    requires
        s.stage is Revision,
        !(e is Revision),
    ensures
        step(s, e).1 == ActionView::Unresolved(unresolved_error(s.spec)),
        step(s, e).0.stage is Done,
{
}

/// The first match stands where nothing before it is one.
pub proof fn lemma_match_position(heads: Seq<RemoteHeadView>, spec: Seq<char>, k: int)
    requires
        0 <= k <= heads.len(),
        forall|j: int| 0 <= j < k ==> !names_spec(heads[j].name, spec),
        k < heads.len() ==> names_spec(heads[k].name, spec),
    ensures
        match_position(heads, spec) == k,
    decreases k,
{
    if k > 0 {
        let rest = heads.skip(1);
        assert forall|j: int| 0 <= j < k - 1 implies !names_spec(rest[j].name, spec) by {
            assert(rest[j] == heads[j + 1]);
        }
        lemma_match_position(rest, spec, k - 1);
    }
}

/// The match that `match_position` gives is the first one: it is the branch
/// or the tag of the spec, and no reference before it is.
pub proof fn lemma_match_is_first(heads: Seq<RemoteHeadView>, spec: Seq<char>)
    ensures
        0 <= match_position(heads, spec) <= heads.len(),
        match_position(heads, spec) < heads.len() ==> names_spec(
            heads[match_position(heads, spec)].name,
            spec,
        ),
        forall|j: int| 0 <= j < match_position(heads, spec) ==> !names_spec(heads[j].name, spec),
    decreases heads.len(),
{
    if heads.len() == 0 || names_spec(heads[0].name, spec) {
    } else {
        let rest = heads.skip(1);
        lemma_match_is_first(rest, spec);
        let k = match_position(heads, spec);
        assert(k == 1 + match_position(rest, spec));
        if k < heads.len() {
            assert(rest[k - 1] == heads[k]);
        }
        assert forall|j: int| 0 <= j < k implies !names_spec(heads[j].name, spec) by {
            if j > 0 {
                assert(rest[j - 1] == heads[j]);
            }
        }
    }
}

/// The position of the first reference that is the branch or the tag of
/// `spec`, or the length of `heads`.
pub fn find_match(heads: &Vec<RemoteHead>, spec: &str) -> (k: usize)
    ensures
        k == match_position(head_views(heads@), spec@),
{
    let branch = branch_reference_of(spec);
    let tag = tag_reference_of(spec);
    let mut i: usize = 0;
    while i < heads.len() && !(heads[i].name == branch || heads[i].name == tag)
        invariant
            i <= heads@.len(),
            branch@ == branch_reference(spec@),
            tag@ == tag_reference(spec@),
            forall|j: int| 0 <= j < i ==> !names_spec(head_views(heads@)[j].name, spec@),
        decreases heads@.len() - i,
    {
        i = i + 1;
    }
    proof {
        lemma_match_position(head_views(heads@), spec@, i as int);
    }
    i
}

/// The remotes of `list` that have a name, in order.
pub fn named_of(list: &Vec<Option<String>>) -> (names: Vec<String>)
    ensures
        texts(names@) == named(optional_texts(list@)),
{
    let mut names: Vec<String> = Vec::new();
    let mut i: usize = 0;
    proof {
        assert(optional_texts(list@).take(0) =~= Seq::empty());
        assert(texts(names@) =~= Seq::empty());
    }
    while i < list.len()
        invariant
            i <= list@.len(),
            texts(names@) == named(optional_texts(list@).take(i as int)),
        decreases list@.len() - i,
    {
        let ghost before = texts(names@);
        match &list[i] {
            Some(name) => {
                names.push(name.clone());
                assert(texts(names@) =~= before.push(name@));
            },
            None => {},
        }
        proof {
            let all = optional_texts(list@);
            assert(all.take(i + 1).drop_last() =~= all.take(i as int));
            assert(all.take(i + 1).last() == all[i as int]);
        }
        i = i + 1;
    }
    proof {
        assert(optional_texts(list@).take(i as int) =~= optional_texts(list@));
    }
    names
}

/// A search in progress.
pub struct Resolver {
    spec: String,
    stage: Stage,
    remotes: Vec<String>,
    target: ObjectId,
}

impl View for Resolver {
    type V = ResolverView;

    closed spec fn view(&self) -> ResolverView {
        ResolverView {
            spec: self.spec@,
            stage: self.stage,
            remotes: texts(self.remotes@),
            target: self.target@,
        }
    }
}

impl Resolver {
    #[verifier::type_invariant]
    spec fn inv(self) -> bool {
        well_formed(self@)
    }

    /// Begins the search for `spec`: the state, and the first question.
    pub fn new(spec: String) -> (r: (Resolver, ResolveAction))
        ensures
            (r.0@, r.1@) == start(spec@),
    {
        let name = spec.clone();
        let resolver = Resolver {
            spec,
            stage: Stage::LocalBranch,
            remotes: Vec::new(),
            target: ObjectId { bytes: Vec::new() },
        };
        assert(resolver@.remotes =~= Seq::empty());
        (resolver, ResolveAction::FindLocalBranch { name })
    }

    /// The spec that is looked for.
    pub fn spec(&self) -> (spec: &str)
        ensures
            spec@ == self@.spec,
    {
        self.spec.as_str()
    }

    /// Whether the search has ended.
    pub fn is_done(&self) -> (done: bool)
        ensures
            done == (self@.stage == Stage::Done),
    {
        match self.stage {
            Stage::Done => true,
            _ => false,
        }
    }

    /// The search that has ended, with the last word on it.
    fn end(self, action: ResolveAction) -> (r: (Resolver, ResolveAction))
        ensures
            r.0@ == finished(self@),
            r.1 == action,
    {
        proof {
            use_type_invariant(&self);
        }
        let Resolver { spec, stage: _, remotes, target } = self;
        (Resolver { spec, stage: Stage::Done, remotes, target }, action)
    }

    /// The search at another stage, with the next question.
    fn at(self, stage: Stage, action: ResolveAction) -> (r: (Resolver, ResolveAction))
        requires
            stage_remote(stage) matches Some(remote) ==> remote < self@.remotes.len(),
        ensures
            r.0@ == (ResolverView { stage, ..self@ }),
            r.1 == action,
    {
        proof {
            use_type_invariant(&self);
        }
        let Resolver { spec, stage: _, remotes, target } = self;
        (Resolver { spec, stage, remotes, target }, action)
    }

    /// Goes on with the remote at `remote`, or with the revision.
    fn scan(self, remote: usize) -> (r: (Resolver, ResolveAction))
        ensures
            (r.0@, r.1@) == scan_from(self@, remote as int),
    {
        if remote < self.remotes.len() {
            let name = self.remotes[remote].clone();
            self.at(Stage::Connect { remote }, ResolveAction::Connect { remote: name })
        } else {
            let spec = self.spec.clone();
            self.at(Stage::Revision, ResolveAction::ParseRevision { spec })
        }
    }

    /// The name of the remote at `remote`.
    fn remote_name(&self, remote: usize) -> (name: String)
        requires
            remote < self@.remotes.len(),
        ensures
            name@ == self@.remotes[remote as int],
    {
        self.remotes[remote].clone()
    }

    /// What follows a remote's list of references.
    fn take_heads(self, remote: usize, heads: Vec<RemoteHead>) -> (r: (Resolver, ResolveAction))
        requires
            remote < self@.remotes.len(),
        ensures
            (r.0@, r.1@) == after_heads(self@, remote, head_views(heads@)),
    {
        proof {
            use_type_invariant(&self);
        }
        let k = find_match(&heads, self.spec.as_str());
        if k < heads.len() {
            let branch = branch_reference_of(self.spec.as_str());
            if heads[k].name == branch {
                let target = heads[k].id.duplicate();
                let name = self.remote_name(remote);
                let refspec = tracking_refspec_of(name.as_str(), self.spec.as_str());
                let Resolver { spec, stage: _, remotes, target: _ } = self;
                (
                    Resolver { spec, stage: Stage::BranchFetch { remote }, remotes, target },
                    ResolveAction::Fetch { remote: name, refspec },
                )
            } else {
                let name = self.remote_name(remote);
                let refspec = tag_refspec_of(self.spec.as_str());
                self.at(Stage::TagFetch { remote }, ResolveAction::Fetch { remote: name, refspec })
            }
        } else {
            let name = self.remote_name(remote);
            self.at(Stage::Disconnect { remote }, ResolveAction::Disconnect { remote: name })
        }
    }

    /// Takes the backend's answer to the last question and gives the next
    /// one, or the end of the search.
    pub fn step(self, event: ResolveEvent) -> (r: (Resolver, ResolveAction))
        ensures
            (r.0@, r.1@) == step(self@, event@),
    {
        proof {
            use_type_invariant(&self);
        }
        match self.stage {
            Stage::LocalBranch => match event {
                ResolveEvent::Found(name) => {
                    let reference = match name {
                        Some(name) => name,
                        None => self.spec.clone(),
                    };
                    self.end(ResolveAction::Resolved(ResolutionOutcome::LocalBranch(reference)))
                },
                _ => {
                    let name = tag_reference_of(self.spec.as_str());
                    self.at(Stage::LocalTag, ResolveAction::FindReference { name })
                },
            },
            Stage::LocalTag => match event {
                ResolveEvent::Found(name) => {
                    let reference = match name {
                        Some(name) => name,
                        None => self.spec.clone(),
                    };
                    self.end(ResolveAction::Resolved(ResolutionOutcome::LocalTag(reference)))
                },
                _ => self.at(Stage::Remotes, ResolveAction::ListRemotes),
            },
            Stage::Remotes => match event {
                ResolveEvent::Remotes(list) => {
                    let names = named_of(&list);
                    let Resolver { spec, stage: _, remotes: _, target } = self;
                    let listed = Resolver { spec, stage: Stage::Remotes, remotes: names, target };
                    listed.scan(0)
                },
                _ => self.end(ResolveAction::Abort),
            },
            Stage::Connect { remote } => match event {
                ResolveEvent::Completed => {
                    let name = self.remote_name(remote);
                    self.at(Stage::Heads { remote }, ResolveAction::ListHeads { remote: name })
                },
                _ => self.end(ResolveAction::Abort),
            },
            Stage::Heads { remote } => match event {
                ResolveEvent::Heads(heads) => self.take_heads(remote, heads),
                _ => self.end(ResolveAction::Abort),
            },
            Stage::Disconnect { remote } => {
                assert(remote < self.remotes.len());
                self.scan(remote + 1)
            },
            Stage::BranchFetch { remote } => match event {
                ResolveEvent::Completed => {
                    let name = self.spec.clone();
                    let target = self.target.duplicate();
                    self.at(
                        Stage::BranchCreate { remote },
                        ResolveAction::CreateBranch { name, target },
                    )
                },
                _ => self.end(ResolveAction::Abort),
            },
            Stage::BranchCreate { remote } => match event {
                ResolveEvent::Completed => {
                    let branch = self.spec.clone();
                    let upstream = upstream_name_of(
                        self.remotes[remote].as_str(),
                        self.spec.as_str(),
                    );
                    self.at(
                        Stage::BranchUpstream { remote },
                        ResolveAction::SetUpstream { branch, upstream },
                    )
                },
                _ => self.end(ResolveAction::Abort),
            },
            Stage::BranchUpstream { remote } => match event {
                ResolveEvent::Completed => {
                    let outcome = ResolutionOutcome::RemoteBranch(
                        self.remote_name(remote),
                        self.spec.clone(),
                        self.target.duplicate(),
                    );
                    self.end(ResolveAction::Resolved(outcome))
                },
                _ => self.end(ResolveAction::Abort),
            },
            Stage::TagFetch { remote } => match event {
                ResolveEvent::Completed => {
                    let name = tag_reference_of(self.spec.as_str());
                    self.at(Stage::TagReference { remote }, ResolveAction::FindReference { name })
                },
                _ => self.end(ResolveAction::Abort),
            },
            Stage::TagReference { remote } => match event {
                ResolveEvent::Found(name) => {
                    let reference = match name {
                        Some(name) => name,
                        None => self.spec.clone(),
                    };
                    let outcome = ResolutionOutcome::RemoteTag(
                        self.remote_name(remote),
                        reference,
                    );
                    self.end(ResolveAction::Resolved(outcome))
                },
                _ => self.end(ResolveAction::Abort),
            },
            Stage::Revision => match event {
                ResolveEvent::Revision(id) => self.end(
                    ResolveAction::Resolved(ResolutionOutcome::DetachedCommit(id)),
                ),
                _ => {
                    let mut message = String::from_str("Failed to resolve spec: ");
                    message.append(self.spec.as_str());
                    self.end(
                        ResolveAction::Unresolved(
                            GitError { kind: ErrorKind::NotFound, message },
                        ),
                    )
                },
            },
            Stage::Done => (self, ResolveAction::Idle),
        }
    }
}

} // verus!
