//! `git restore`: which paths to restore. The command itself is not
//! provided yet.

use vstd::prelude::*;
use vstd::string::*;
use crate::error::{missing_repository, GitError};
use crate::repository::GitRepository;
use crate::text::texts;

verus! {

/// Specifies a `git restore`: the pathspecs, and the flags.
#[derive(Clone)]
pub struct RestoreConfig {
    pub(crate) pathspecs: Vec<String>,
    pub(crate) flags: RestoreFlagsInternal,
}

#[derive(Clone)]
pub(crate) struct RestoreFlagsInternal {
    staged: bool,
}

/// The flags of a `git restore`.
#[derive(Clone, Copy, Debug, PartialEq, Eq, Structural)]
pub enum RestoreFlags {
    /// `--staged`: restores the index.
    Staged(bool),
}

impl RestoreConfig {
    /// The pathspecs.
    pub closed spec fn spec_pathspecs(&self) -> Seq<Seq<char>> {
        texts(self.pathspecs@)
    }

    /// Whether the index is restored.
    pub closed spec fn spec_staged(&self) -> bool {
        self.flags.staged
    }

    pub fn new(pathspecs: Vec<String>) -> (config: Self)
        ensures
            config.spec_pathspecs() == texts(pathspecs@),
            !config.spec_staged(),
    {
        RestoreConfig { pathspecs, flags: RestoreFlagsInternal { staged: false } }
    }

    pub fn add_flag(&mut self, flag: RestoreFlags)
        ensures
            final(self).spec_pathspecs() == old(self).spec_pathspecs(),
            flag matches RestoreFlags::Staged(staged) && final(self).spec_staged() == staged,
    {
        match flag {
            RestoreFlags::Staged(staged) => self.flags.staged = staged,
        }
    }
}

impl GitRepository {
    /// Begins a restore. Nothing is restored yet: the command fails as one
    /// without a repository does, whatever the handle holds.
    pub fn begin_restore(&self, config: &RestoreConfig) -> (r: Result<(), GitError>)
        ensures
            r matches Err(e) && e@ == missing_repository(),
    {
        Err(GitError::missing_repository())
    }
}

} // verus!
