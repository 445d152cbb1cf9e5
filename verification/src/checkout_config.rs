//! `git checkout`: what a spec names is found by the resolver; this module
//! says where HEAD goes for what was found.

use vstd::prelude::*;
use vstd::string::*;
use crate::error::{missing_repository, GitError};
use crate::refnames::{branch_reference, branch_reference_of};
use crate::repository::GitRepository;
use crate::resolve::{
    start,
    ObjectId,
    OutcomeView,
    ResolutionOutcome,
    ResolveAction,
    Resolver,
};

verus! {

/// Specifies a `git checkout`: the branch, tag or commit to switch to.
#[derive(Clone)]
pub struct CheckoutConfig {
    pub(crate) spec: String,
    pub(crate) flags: CheckoutFlagsInternal,
}

#[derive(Default, Clone)]
pub(crate) struct CheckoutFlagsInternal {}

/// The flags of a `git checkout`. There are none yet: the one variant
/// holds a value that cannot be made, so that no flag can be either.
pub enum CheckoutFlags {
    Never(core::convert::Infallible),
}

impl CheckoutConfig {
    /// The spec to switch to.
    pub closed spec fn spec_spec(&self) -> Seq<char> {
        self.spec@
    }

    pub fn new(spec: String) -> (config: Self)
        ensures
            config.spec_spec() == spec@,
    {
        CheckoutConfig { spec, flags: CheckoutFlagsInternal {  } }
    }

    pub fn add_flags(&mut self, flag: CheckoutFlags)
        ensures
            *final(self) == *old(self),
    {
        match flag {
            CheckoutFlags::Never(_) => {},
        }
    }

    /// The spec to switch to.
    pub fn get_spec(&self) -> (spec: &str)
        ensures
            spec@ == self.spec_spec(),
    {
        self.spec.as_str()
    }
}

/// Where HEAD points after a checkout.
#[derive(Clone, Debug, PartialEq, Eq)]
pub enum HeadTarget {
    /// At a reference, by its full name.
    Symbolic(String),
    /// At a commit itself: a detached HEAD.
    Detached(ObjectId),
}

/// A head target as plain values.
pub enum HeadTargetView {
    Symbolic(Seq<char>),
    Detached(Seq<u8>),
}

impl View for HeadTarget {
    type V = HeadTargetView;

    open spec fn view(&self) -> HeadTargetView {
        match self {
            HeadTarget::Symbolic(name) => HeadTargetView::Symbolic(name@),
            HeadTarget::Detached(id) => HeadTargetView::Detached(id@),
        }
    }
}

/// What a checkout does once the spec is resolved: HEAD is set to `head`,
/// and the working tree is brought to it. For a reference that is a checkout
/// of HEAD, for a commit a checkout of that commit's tree. With `safe` the
/// backend refuses to overwrite local changes.
#[derive(Clone, Debug, PartialEq, Eq)]
pub struct CheckoutPlan {
    pub head: HeadTarget,
    pub safe: bool,
}

/// Where HEAD goes for an outcome: to the reference for a branch or a tag,
/// to the commit itself for a commit. The branch made for a remote's branch
/// is the local one of its name.
pub open spec fn head_for(outcome: OutcomeView) -> HeadTargetView {
    match outcome {
        OutcomeView::LocalBranch(reference) => HeadTargetView::Symbolic(reference),
        OutcomeView::LocalTag(reference) => HeadTargetView::Symbolic(reference),
        OutcomeView::RemoteBranch(_, name, _) => HeadTargetView::Symbolic(branch_reference(name)),
        OutcomeView::RemoteTag(_, reference) => HeadTargetView::Symbolic(reference),
        OutcomeView::DetachedCommit(id) => HeadTargetView::Detached(id),
    }
}

/// The checkout for what a spec was found to name. It is always a safe one.
pub fn checkout_plan(outcome: &ResolutionOutcome) -> (plan: CheckoutPlan)
    ensures
        plan.head@ == head_for(outcome@),
        plan.safe,
{
    let head = match outcome {
        ResolutionOutcome::LocalBranch(reference) => HeadTarget::Symbolic(reference.clone()),
        ResolutionOutcome::LocalTag(reference) => HeadTarget::Symbolic(reference.clone()),
        ResolutionOutcome::RemoteBranch(_, name, _) => HeadTarget::Symbolic(
            branch_reference_of(name.as_str()),
        ),
        ResolutionOutcome::RemoteTag(_, reference) => HeadTarget::Symbolic(reference.clone()),
        ResolutionOutcome::DetachedCommit(id) => HeadTarget::Detached(id.duplicate()),
    };
    CheckoutPlan { head, safe: true }
}

impl GitRepository {
    /// Begins a checkout: the search for what the spec names, with its first
    /// question. A handle without a repository is refused.
    pub fn begin_checkout(&self, config: CheckoutConfig) -> (r: Result<
        (Resolver, ResolveAction),
        GitError,
    >)
        ensures
            r is Ok <==> self.populated(),
            r matches Ok(search) ==> (search.0@, search.1@) == start(config.spec_spec()),
            r matches Err(e) ==> e@ == missing_repository(),
    {
        if !self.is_valid() {
            return Err(GitError::missing_repository());
        }
        Ok(Resolver::new(config.spec))
    }
}

} // verus!
