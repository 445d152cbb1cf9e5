//! `git push`: which remote, which refspecs, and what is set up before.
//!
//! The push is planned by a machine that asks the backend one thing at a
//! time: `PushPlanner::new` gives the first request, `PushPlanner::step`
//! takes the answer and gives the next, until `Finished`, `Fail` or `Abort`.

use vstd::prelude::*;
use vstd::string::*;
use crate::backend::{decode_lossy, utf8_lossy};
use crate::error::{missing_repository, ErrorKind, GitError, GitErrorView};
use crate::refnames::{
    branch_reference,
    branch_reference_of,
    refspec,
    refspec_of,
    upstream_name,
    upstream_name_of,
};
use crate::repository::GitRepository;
use crate::text::{copy_texts, texts};

verus! {

/// Specifies a `git push`: the remote and the branch to push to, either of
/// which may be left to the repository, and the flags.
#[derive(Clone)]
pub struct PushConfig {
    remote: Option<String>,
    branch: Option<String>,
    flags: PushFlagsInternal,
}

#[derive(Clone)]
pub(crate) struct PushFlagsInternal {
    set_upstream: bool,
    all: bool,
}

/// The flags of a `git push`.
#[derive(Clone, Copy, Debug, PartialEq, Eq, Structural)]
pub enum PushFlags {
    /// `--set-upstream`: makes the pushed branch the upstream of the
    /// current one.
    SetUpstream(bool),
    /// `--all`: pushes every local branch to its upstream.
    All(bool),
}

/// A push's configuration as plain values.
pub struct PushConfigView {
    pub remote: Option<Seq<char>>,
    pub branch: Option<Seq<char>>,
    pub set_upstream: bool,
    pub all: bool,
}

/// The text of a name that may be missing.
pub open spec fn name_view(name: Option<String>) -> Option<Seq<char>> {
    match name {
        Some(name) => Some(name@),
        None => None,
    }
}

impl View for PushConfig {
    type V = PushConfigView;

    closed spec fn view(&self) -> PushConfigView {
        PushConfigView {
            remote: name_view(self.remote),
            branch: name_view(self.branch),
            set_upstream: self.flags.set_upstream,
            all: self.flags.all,
        }
    }
}

impl Default for PushConfig {
    fn default() -> (config: Self)
        ensures
            config@ == (PushConfigView {
                remote: None,
                branch: None,
                set_upstream: false,
                all: false,
            }),
    {
        PushConfig::new()
    }
}

impl PushConfig {
    pub fn new() -> (config: Self)
        ensures
            config@ == (PushConfigView {
                remote: None,
                branch: None,
                set_upstream: false,
                all: false,
            }),
    {
        PushConfig {
            remote: None,
            branch: None,
            flags: PushFlagsInternal { set_upstream: false, all: false },
        }
    }

    pub fn with_remote_and_branch(remote: Option<String>, branch: Option<String>) -> (config: Self)
        ensures
            config@ == (PushConfigView {
                remote: name_view(remote),
                branch: name_view(branch),
                set_upstream: false,
                all: false,
            }),
    {
        PushConfig { remote, branch, flags: PushFlagsInternal { set_upstream: false, all: false } }
    }

    pub fn set_remote_and_branch(&mut self, remote: Option<String>, branch: Option<String>)
        ensures
            final(self)@ == (PushConfigView {
                remote: name_view(remote),
                branch: name_view(branch),
                ..old(self)@
            }),
    {
        self.remote = remote;
        self.branch = branch;
    }

    pub fn add_flag(&mut self, flag: PushFlags) -> (config: &Self)
        ensures
            final(self)@ == match flag {
                PushFlags::SetUpstream(set) => PushConfigView { set_upstream: set, ..old(self)@ },
                PushFlags::All(all) => PushConfigView { all, ..old(self)@ },
            },
            config@ == final(self)@,
    {
        match flag {
            PushFlags::SetUpstream(set) => self.flags.set_upstream = set,
            PushFlags::All(all) => self.flags.all = all,
        };
        self
    }
}

/// A local branch and its upstream, each by the bytes of its short name.
#[derive(Clone, Debug, PartialEq, Eq)]
pub struct BranchPair {
    pub local: Vec<u8>,
    pub upstream: Vec<u8>,
}

/// A request to the backend, or the end of the push.
#[derive(Clone, Debug, PartialEq, Eq)]
pub enum PushAction {
    /// Look the remote up; it is the one to push to.
    FindRemote { name: String },
    /// What does HEAD point at?
    ReadHead,
    /// Which remote is the upstream of this branch on?
    UpstreamRemote { branch: String },
    /// Look the local branch up.
    FindLocalBranch { name: String },
    /// Set the upstream of the local branch that was looked up.
    SetUpstream { branch: String, upstream: String },
    /// Which local branches are there, and what is the upstream of each?
    ListLocalBranches,
    /// Push the refspecs to the remote.
    Push { remote: String, refspecs: Vec<String> },
    /// The push is done.
    Finished,
    /// The push is refused with this error.
    Fail(GitError),
    /// The backend's last error is the result.
    Abort,
    /// The push had ended before.
    Idle,
}

/// A request as plain values.
pub enum PushActionView {
    FindRemote { name: Seq<char> },
    ReadHead,
    UpstreamRemote { branch: Seq<char> },
    FindLocalBranch { name: Seq<char> },
    SetUpstream { branch: Seq<char>, upstream: Seq<char> },
    ListLocalBranches,
    Push { remote: Seq<char>, refspecs: Seq<Seq<char>> },
    Finished,
    Fail(GitErrorView),
    Abort,
    Idle,
}

impl View for PushAction {
    type V = PushActionView;

    open spec fn view(&self) -> PushActionView {
        match self {
            PushAction::FindRemote { name } => PushActionView::FindRemote { name: name@ },
            PushAction::ReadHead => PushActionView::ReadHead,
            PushAction::UpstreamRemote { branch } => PushActionView::UpstreamRemote {
                branch: branch@,
            },
            PushAction::FindLocalBranch { name } => PushActionView::FindLocalBranch { name: name@ },
            PushAction::SetUpstream { branch, upstream } => PushActionView::SetUpstream {
                branch: branch@,
                upstream: upstream@,
            },
            PushAction::ListLocalBranches => PushActionView::ListLocalBranches,
            PushAction::Push { remote, refspecs } => PushActionView::Push {
                remote: remote@,
                refspecs: texts(refspecs@),
            },
            PushAction::Finished => PushActionView::Finished,
            PushAction::Fail(error) => PushActionView::Fail(error@),
            PushAction::Abort => PushActionView::Abort,
            PushAction::Idle => PushActionView::Idle,
        }
    }
}

/// What the backend said to the last request.
#[derive(Clone, Debug, PartialEq, Eq)]
pub enum PushEvent {
    /// It was done.
    Completed,
    /// It failed.
    Failed,
    /// What HEAD points at: the reference's full name, where that is valid
    /// UTF-8, and its short name.
    Head { name: Option<String>, shorthand: String },
    /// The name of the upstream's remote, where that is valid UTF-8.
    UpstreamRemote(Option<String>),
    /// The local branches, each with its upstream, in the backend's order.
    Branches(Vec<BranchPair>),
}

/// An answer as plain values.
pub enum PushEventView {
    Completed,
    Failed,
    Head { name: Option<Seq<char>>, shorthand: Seq<char> },
    UpstreamRemote(Option<Seq<char>>),
    Branches(Seq<(Seq<u8>, Seq<u8>)>),
}

/// The pairs of a list as plain values.
pub open spec fn pair_views(list: Seq<BranchPair>) -> Seq<(Seq<u8>, Seq<u8>)> {
    Seq::new(list.len(), |i: int| (list[i].local@, list[i].upstream@))
}

impl View for PushEvent {
    type V = PushEventView;

    open spec fn view(&self) -> PushEventView {
        match self {
            PushEvent::Completed => PushEventView::Completed,
            PushEvent::Failed => PushEventView::Failed,
            PushEvent::Head { name, shorthand } => PushEventView::Head {
                name: name_view(*name),
                shorthand: shorthand@,
            },
            PushEvent::UpstreamRemote(name) => PushEventView::UpstreamRemote(name_view(*name)),
            PushEvent::Branches(list) => PushEventView::Branches(pair_views(list@)),
        }
    }
}

/// Which answer the planner waits for.
#[derive(Clone, Copy, Debug, PartialEq, Eq, Structural)]
pub enum PushStage {
    Remote,
    Head,
    Upstream,
    Branch,
    SetUpstream,
    Branches,
    Push,
    Done,
}

/// The state of a planner as plain values.
pub struct PushPlannerView {
    pub config: PushConfigView,
    pub stage: PushStage,
    /// The short name of what HEAD points at, once it is known.
    pub shorthand: Seq<char>,
    /// The refspecs to push, once they are known.
    pub refspecs: Seq<Seq<char>>,
}

/// The remote that a push goes to: the one of the configuration, else
/// `origin`.
pub open spec fn push_remote(c: PushConfigView) -> Seq<char> {
    match c.remote {
        Some(remote) => remote,
        None => "origin"@,
    }
}

/// The error of a HEAD whose name cannot be read.
pub open spec fn unresolved_head() -> GitErrorView {
    GitErrorView {
        kind: ErrorKind::NotFound,
        message: "Could not resolve the reference pointed by HEAD"@,
    }
}

/// The error of `--set-upstream` without a remote and a branch.
pub open spec fn no_upstream() -> GitErrorView {
    GitErrorView {
        kind: ErrorKind::Invalid,
        message: "The current branch has no upstream branch, please provide remote and branch to PushConfig"@,
    }
}

/// The refspecs of `--all`: each local branch to its upstream, by their
/// short names.
pub open spec fn all_refspecs(pairs: Seq<(Seq<u8>, Seq<u8>)>) -> Seq<Seq<char>> {
    Seq::new(pairs.len(), |i: int| refspec(utf8_lossy(pairs[i].0), utf8_lossy(pairs[i].1)))
}

/// The state and the first request of a push.
pub open spec fn push_start(c: PushConfigView) -> (PushPlannerView, PushActionView) {
    (
        PushPlannerView {
            config: c,
            stage: PushStage::Remote,
            shorthand: Seq::empty(),
            refspecs: Seq::empty(),
        },
        PushActionView::FindRemote { name: push_remote(c) },
    )
}

/// The planner at its end.
pub open spec fn push_ended(s: PushPlannerView) -> PushPlannerView {
    PushPlannerView { stage: PushStage::Done, ..s }
}

/// What follows once the upstream is settled: the list of the branches for
/// `--all`, else the push.
pub open spec fn after_upstream(s: PushPlannerView) -> (PushPlannerView, PushActionView) {
    if s.config.all {
        (PushPlannerView { stage: PushStage::Branches, ..s }, PushActionView::ListLocalBranches)
    } else {
        (
            PushPlannerView { stage: PushStage::Push, ..s },
            PushActionView::Push { remote: push_remote(s.config), refspecs: s.refspecs },
        )
    }
}

/// What follows once the one refspec is known: with `--set-upstream` the
/// branch of HEAD is looked up, which takes a remote and a branch in the
/// configuration.
pub open spec fn after_refspec(s: PushPlannerView) -> (PushPlannerView, PushActionView) {
    if s.config.set_upstream {
        if s.config.remote is Some && s.config.branch is Some {
            (
                PushPlannerView { stage: PushStage::Branch, ..s },
                PushActionView::FindLocalBranch { name: s.shorthand },
            )
        } else {
            (push_ended(s), PushActionView::Fail(no_upstream()))
        }
    } else {
        after_upstream(s)
    }
}

/// One step of the plan: from the state and the backend's answer to the
/// next state and the next request.
///
/// The remote is looked up first, then HEAD. The one refspec goes from HEAD
/// to the branch of the configuration, or, without one, to what the backend
/// names as the remote of HEAD's upstream, or to HEAD's own name where that
/// name is no text. `--set-upstream` then sets the upstream of HEAD's branch
/// to the branch of the remote; `--all` replaces the one refspec by one for
/// each local branch. Any request that fails ends the push with the
/// backend's error.
pub open spec fn push_step(s: PushPlannerView, e: PushEventView) -> (
    PushPlannerView,
    PushActionView,
) {
    match s.stage {
        PushStage::Remote => if e is Completed {
            (PushPlannerView { stage: PushStage::Head, ..s }, PushActionView::ReadHead)
        } else {
            (push_ended(s), PushActionView::Abort)
        },
        PushStage::Head => match e {
            PushEventView::Head { name: Some(name), shorthand } => match s.config.branch {
                Some(branch) => after_refspec(
                    PushPlannerView {
                        shorthand,
                        refspecs: seq![refspec(name, branch_reference(branch))],
                        ..s
                    },
                ),
                None => (
                    PushPlannerView {
                        stage: PushStage::Upstream,
                        shorthand,
                        refspecs: seq![name],
                        ..s
                    },
                    PushActionView::UpstreamRemote { branch: name },
                ),
            },
            PushEventView::Head { name: None, shorthand } => (
                push_ended(s),
                PushActionView::Fail(unresolved_head()),
            ),
            _ => (push_ended(s), PushActionView::Abort),
        },
        PushStage::Upstream => match e {
            PushEventView::UpstreamRemote(remote) => {
                let source = s.refspecs[0];
                let destination = match remote {
                    Some(remote) => remote,
                    None => source,
                };
                after_refspec(PushPlannerView { refspecs: seq![refspec(source, destination)], ..s })
            },
            _ => (push_ended(s), PushActionView::Abort),
        },
        PushStage::Branch => if e is Completed {
            (
                PushPlannerView { stage: PushStage::SetUpstream, ..s },
                PushActionView::SetUpstream {
                    branch: s.shorthand,
                    upstream: upstream_name(s.config.remote.unwrap(), s.config.branch.unwrap()),
                },
            )
        } else {
            (push_ended(s), PushActionView::Abort)
        },
        PushStage::SetUpstream => if e is Completed {
            after_upstream(s)
        } else {
            (push_ended(s), PushActionView::Abort)
        },
        PushStage::Branches => match e {
            PushEventView::Branches(pairs) => (
                PushPlannerView { stage: PushStage::Push, refspecs: all_refspecs(pairs), ..s },
                PushActionView::Push {
                    remote: push_remote(s.config),
                    refspecs: all_refspecs(pairs),
                },
            ),
            _ => (push_ended(s), PushActionView::Abort),
        },
        PushStage::Push => if e is Completed {
            (push_ended(s), PushActionView::Finished)
        } else {
            (push_ended(s), PushActionView::Abort)
        },
        PushStage::Done => (s, PushActionView::Idle),
    }
}

/// A state that a planner can be in: while the upstream's remote is asked
/// for, the one refspec holds HEAD's name; while the upstream is set, the
/// configuration names a remote and a branch.
pub open spec fn push_well_formed(s: PushPlannerView) -> bool {
    &&& s.stage is Upstream ==> s.refspecs.len() == 1
    &&& s.stage is Branch ==> s.config.remote is Some && s.config.branch is Some
}

/// A push in planning.
pub struct PushPlanner {
    config: PushConfig,
    stage: PushStage,
    shorthand: String,
    refspecs: Vec<String>,
}

impl View for PushPlanner {
    type V = PushPlannerView;

    closed spec fn view(&self) -> PushPlannerView {
        PushPlannerView {
            config: self.config@,
            stage: self.stage,
            shorthand: self.shorthand@,
            refspecs: texts(self.refspecs@),
        }
    }
}

/// The refspecs of `--all`.
fn refspecs_of(pairs: &Vec<BranchPair>) -> (specs: Vec<String>)
    ensures
        texts(specs@) == all_refspecs(pair_views(pairs@)),
{
    let mut specs: Vec<String> = Vec::new();
    let mut i: usize = 0;
    while i < pairs.len()
        invariant
            i <= pairs@.len(),
            specs@.len() == i,
            forall|j: int|
                0 <= j < i ==> specs@[j]@ == refspec(
                    utf8_lossy(pairs@[j].local@),
                    utf8_lossy(pairs@[j].upstream@),
                ),
        decreases pairs@.len() - i,
    {
        let local = decode_lossy(pairs[i].local.as_slice());
        let upstream = decode_lossy(pairs[i].upstream.as_slice());
        specs.push(refspec_of(local.as_str(), upstream.as_str()));
        i = i + 1;
    }
    assert(texts(specs@) =~= all_refspecs(pair_views(pairs@)));
    specs
}

impl PushPlanner {
    #[verifier::type_invariant]
    spec fn inv(self) -> bool {
        push_well_formed(self@)
    }

    /// Begins the plan of a push: the state, and the first request.
    pub fn new(config: PushConfig) -> (r: (PushPlanner, PushAction))
        ensures
            (r.0@, r.1@) == push_start(config@),
    {
        let name = match &config.remote {
            Some(remote) => remote.clone(),
            None => String::from_str("origin"),
        };
        let planner = PushPlanner {
            config,
            stage: PushStage::Remote,
            shorthand: String::new(),
            refspecs: Vec::new(),
        };
        assert(planner@.refspecs =~= Seq::empty());
        (planner, PushAction::FindRemote { name })
    }

    /// Whether the plan has ended.
    pub fn is_done(&self) -> (done: bool)
        ensures
            done == (self@.stage == PushStage::Done),
    {
        match self.stage {
            PushStage::Done => true,
            _ => false,
        }
    }

    /// The plan at its end, with the last word on it.
    fn end(self, action: PushAction) -> (r: (PushPlanner, PushAction))
        ensures
            r.0@ == push_ended(self@),
            r.1 == action,
    {
        let PushPlanner { config, stage: _, shorthand, refspecs } = self;
        (PushPlanner { config, stage: PushStage::Done, shorthand, refspecs }, action)
    }

    /// The name of the remote to push to.
    fn remote_name(&self) -> (name: String)
        ensures
            name@ == push_remote(self@.config),
    {
        match &self.config.remote {
            Some(remote) => remote.clone(),
            None => String::from_str("origin"),
        }
    }

    /// What follows once the upstream is settled.
    fn go_on(self) -> (r: (PushPlanner, PushAction))
        ensures
            (r.0@, r.1@) == after_upstream(self@),
    {
        if self.config.flags.all {
            let PushPlanner { config, stage: _, shorthand, refspecs } = self;
            (
                PushPlanner { config, stage: PushStage::Branches, shorthand, refspecs },
                PushAction::ListLocalBranches,
            )
        } else {
            let remote = self.remote_name();
            let specs = copy_texts(&self.refspecs);
            let PushPlanner { config, stage: _, shorthand, refspecs } = self;
            (
                PushPlanner { config, stage: PushStage::Push, shorthand, refspecs },
                PushAction::Push { remote, refspecs: specs },
            )
        }
    }

    /// What follows once the one refspec is known.
    fn with_refspec(config: PushConfig, shorthand: String, spec: String) -> (r: (
        PushPlanner,
        PushAction,
    ))
        ensures
            (r.0@, r.1@) == after_refspec(
                PushPlannerView {
                    config: config@,
                    stage: PushStage::Head,
                    shorthand: shorthand@,
                    refspecs: seq![spec@],
                },
            ),
    {
        let mut refspecs: Vec<String> = Vec::new();
        refspecs.push(spec);
        assert(texts(refspecs@) =~= seq![spec@]);
        if config.flags.set_upstream {
            if config.remote.is_some() && config.branch.is_some() {
                let name = shorthand.clone();
                (
                    PushPlanner { config, stage: PushStage::Branch, shorthand, refspecs },
                    PushAction::FindLocalBranch { name },
                )
            } else {
                (
                    PushPlanner { config, stage: PushStage::Done, shorthand, refspecs },
                    PushAction::Fail(
                        GitError::new(
                            ErrorKind::Invalid,
                            "The current branch has no upstream branch, please provide remote and branch to PushConfig",
                        ),
                    ),
                )
            }
        } else {
            let planner = PushPlanner { config, stage: PushStage::Head, shorthand, refspecs };
            planner.go_on()
        }
    }

    /// Takes the backend's answer to the last request and gives the next
    /// one, or the end of the push.
    pub fn step(self, event: PushEvent) -> (r: (PushPlanner, PushAction))
        ensures
            (r.0@, r.1@) == push_step(self@, event@),
    {
        proof {
            use_type_invariant(&self);
        }
        match self.stage {
            PushStage::Remote => match event {
                PushEvent::Completed => {
                    let PushPlanner { config, stage: _, shorthand, refspecs } = self;
                    (
                        PushPlanner { config, stage: PushStage::Head, shorthand, refspecs },
                        PushAction::ReadHead,
                    )
                },
                _ => self.end(PushAction::Abort),
            },
            PushStage::Head => match event {
                PushEvent::Head { name: Some(name), shorthand } => {
                    let PushPlanner { config, stage: _, shorthand: _, refspecs: _ } = self;
                    match &config.branch {
                        Some(branch) => {
                            let destination = branch_reference_of(branch.as_str());
                            let spec = refspec_of(name.as_str(), destination.as_str());
                            PushPlanner::with_refspec(config, shorthand, spec)
                        },
                        None => {
                            let branch = name.clone();
                            let mut refspecs: Vec<String> = Vec::new();
                            refspecs.push(name);
                            assert(texts(refspecs@) =~= seq![branch@]);
                            (
                                PushPlanner {
                                    config,
                                    stage: PushStage::Upstream,
                                    shorthand,
                                    refspecs,
                                },
                                PushAction::UpstreamRemote { branch },
                            )
                        },
                    }
                },
                PushEvent::Head { name: None, shorthand: _ } => self.end(
                    PushAction::Fail(
                        GitError::new(
                            ErrorKind::NotFound,
                            "Could not resolve the reference pointed by HEAD",
                        ),
                    ),
                ),
                _ => self.end(PushAction::Abort),
            },
            PushStage::Upstream => match event {
                PushEvent::UpstreamRemote(remote) => {
                    let spec = match &remote {
                        Some(remote) => refspec_of(self.refspecs[0].as_str(), remote.as_str()),
                        None => refspec_of(
                            self.refspecs[0].as_str(),
                            self.refspecs[0].as_str(),
                        ),
                    };
                    let ghost before = self@;
                    let PushPlanner { config, stage: _, shorthand, refspecs: _ } = self;
                    let r = PushPlanner::with_refspec(config, shorthand, spec);
                    proof {
                        // The stage does not count for what follows the refspec.
                        assert(after_refspec(
                            PushPlannerView { refspecs: seq![spec@], ..before },
                        ) == after_refspec(
                            PushPlannerView {
                                stage: PushStage::Head,
                                refspecs: seq![spec@],
                                ..before
                            },
                        ));
                    }
                    r
                },
                _ => self.end(PushAction::Abort),
            },
            PushStage::Branch => match event {
                PushEvent::Completed => {
                    let PushPlanner { config, stage: _, shorthand, refspecs } = self;
                    let upstream = match (&config.remote, &config.branch) {
                        (Some(remote), Some(branch)) => upstream_name_of(
                            remote.as_str(),
                            branch.as_str(),
                        ),
                        _ => String::new(),
                    };
                    let branch = shorthand.clone();
                    (
                        PushPlanner { config, stage: PushStage::SetUpstream, shorthand, refspecs },
                        PushAction::SetUpstream { branch, upstream },
                    )
                },
                _ => self.end(PushAction::Abort),
            },
            PushStage::SetUpstream => match event {
                PushEvent::Completed => self.go_on(),
                _ => self.end(PushAction::Abort),
            },
            PushStage::Branches => match event {
                PushEvent::Branches(pairs) => {
                    let specs = refspecs_of(&pairs);
                    let copy = copy_texts(&specs);
                    let remote = self.remote_name();
                    let PushPlanner { config, stage: _, shorthand, refspecs: _ } = self;
                    (
                        PushPlanner { config, stage: PushStage::Push, shorthand, refspecs: specs },
                        PushAction::Push { remote, refspecs: copy },
                    )
                },
                _ => self.end(PushAction::Abort),
            },
            PushStage::Push => match event {
                PushEvent::Completed => self.end(PushAction::Finished),
                _ => self.end(PushAction::Abort),
            },
            PushStage::Done => (self, PushAction::Idle),
        }
    }
}

impl GitRepository {
    /// Begins a push: the plan, with its first request. A handle without a
    /// repository is refused.
    pub fn begin_push(&self, config: PushConfig) -> (r: Result<(PushPlanner, PushAction), GitError>)
        ensures
            r is Ok <==> self.populated(),
            r matches Ok(plan) ==> (plan.0@, plan.1@) == push_start(config@),
            r matches Err(e) ==> e@ == missing_repository(),
    {
        if !self.is_valid() {
            return Err(GitError::missing_repository());
        }
        Ok(PushPlanner::new(config))
    }
}

} // verus!
