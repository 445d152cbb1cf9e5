//! `git add`: which paths go to the index.

use vstd::prelude::*;
use vstd::string::*;
use crate::error::{missing_repository, GitError};
use crate::repository::GitRepository;
use crate::status::{changed_in_worktree, is_changed_in_worktree};
use crate::text::texts;

verus! {

/// Specifies a `git add`: the pathspecs, and the flags.
pub struct AddConfig {
    spec: Vec<String>,
    flags: AddFlagsInternals,
}

#[derive(Clone, Copy)]
pub(crate) struct AddFlagsInternals {
    update: bool,
    dry_run: bool,
}

/// The flags of a `git add`.
#[derive(Clone, Copy, Debug, PartialEq, Eq, Structural)]
pub enum AddFlags {
    /// `--update`: takes only files that the index knows already.
    Update(bool),
    /// `--dry-run`: takes nothing.
    DryRun(bool),
}

/// What a matched path is answered with: it is taken, or passed over.
#[derive(Clone, Copy, Debug, PartialEq, Eq, Structural)]
pub enum PathDecision {
    Take,
    Skip,
}

/// How the paths go to the index.
#[derive(Clone, Copy, Debug, PartialEq, Eq, Structural)]
pub struct AddPlan {
    /// Whether only the files that the index knows are looked at; if not,
    /// every file that the pathspecs match is added.
    pub update: bool,
    /// Whether each matched path is put to `path_decision`; if not, every
    /// matched path is taken.
    pub ask_for_each_path: bool,
}

impl PathDecision {
    /// The number that the backend takes for the decision.
    pub fn code(self) -> (code: i32)
        ensures
            code == match self {
                PathDecision::Take => 0i32,
                PathDecision::Skip => 1i32,
            },
    {
        match self {
            PathDecision::Take => 0,
            PathDecision::Skip => 1,
        }
    }
}

impl AddConfig {
    /// The pathspecs.
    pub closed spec fn spec_specs(&self) -> Seq<Seq<char>> {
        texts(self.spec@)
    }

    /// Whether only files that the index knows are taken.
    pub closed spec fn spec_update(&self) -> bool {
        self.flags.update
    }

    /// Whether nothing is taken.
    pub closed spec fn spec_dry_run(&self) -> bool {
        self.flags.dry_run
    }

    pub fn new(spec: Vec<String>) -> (config: Self)
        ensures
            config.spec_specs() == texts(spec@),
            !config.spec_update(),
            !config.spec_dry_run(),
    {
        AddConfig { spec, flags: AddFlagsInternals { update: false, dry_run: false } }
    }

    pub fn get_specs(&self) -> (specs: &Vec<String>)
        ensures
            texts(specs@) == self.spec_specs(),
    {
        &self.spec
    }

    pub fn add_flag(&mut self, flag: AddFlags) -> (config: &Self)
        ensures
            final(self).spec_specs() == old(self).spec_specs(),
            final(self).spec_update() == match flag {
                AddFlags::Update(update) => update,
                AddFlags::DryRun(_) => old(self).spec_update(),
            },
            final(self).spec_dry_run() == match flag {
                AddFlags::Update(_) => old(self).spec_dry_run(),
                AddFlags::DryRun(dry) => dry,
            },
            config.spec_specs() == final(self).spec_specs(),
            config.spec_update() == final(self).spec_update(),
            config.spec_dry_run() == final(self).spec_dry_run(),
    {
        match flag {
            AddFlags::Update(update) => self.flags.update = update,
            AddFlags::DryRun(dry) => self.flags.dry_run = dry,
        }
        self
    }

    /// How the paths go to the index: each matched path is asked about only
    /// with `--update`.
    pub fn plan(&self) -> (plan: AddPlan)
        ensures
            plan.update == self.spec_update(),
            plan.ask_for_each_path == self.spec_update(),
    {
        AddPlan { update: self.flags.update, ask_for_each_path: self.flags.update }
    }

    /// Whether a matched path is taken, by its status: a dry run takes
    /// nothing; else a path is taken where the working tree holds a change
    /// of it.
    pub fn path_decision(&self, status: u32) -> (decision: PathDecision)
        ensures
            decision == if !self.spec_dry_run() && changed_in_worktree(status) {
                PathDecision::Take
            } else {
                PathDecision::Skip
            },
    {
        if self.flags.dry_run {
            PathDecision::Skip
        } else if is_changed_in_worktree(status) {
            PathDecision::Take
        } else {
            PathDecision::Skip
        }
    }
}

impl GitRepository {
    /// Begins a `git add`: how the paths go to the index. A handle without
    /// a repository is refused.
    pub fn begin_add(&self, config: &AddConfig) -> (r: Result<AddPlan, GitError>)
        ensures
            r is Ok <==> self.populated(),
            r matches Ok(plan) ==> plan.update == config.spec_update() && plan.ask_for_each_path
                == config.spec_update(),
            r matches Err(e) ==> e@ == missing_repository(),
    {
        if !self.is_valid() {
            return Err(GitError::missing_repository());
        }
        Ok(config.plan())
    }
}

} // verus!
