//! `git fetch`: which remote to fetch from, and how deep.

use vstd::prelude::*;
use vstd::string::*;
use crate::error::{missing_repository, GitError};
use crate::repository::GitRepository;

verus! {

/// Specifies a `git fetch`: the remote, or none for the one of the current
/// branch, and the flags.
pub struct FetchConfig {
    remote: Option<String>,
    flags: FetchFlagsInternal,
}

pub(crate) struct FetchFlagsInternal {
    unshallow: bool,
}

/// The flags of a `git fetch`.
#[derive(Clone, Copy, Debug, PartialEq, Eq, Structural)]
pub enum FetchFlags {
    /// `--unshallow`: fetches the history that a shallow clone left out.
    Unshallow(bool),
}

/// The depth that stands for the whole history.
pub const UNSHALLOW_DEPTH: i32 = 2147483647;

/// What a fetch does next.
#[derive(Clone, Debug, PartialEq, Eq)]
pub enum FetchStep {
    /// Read the short name of what HEAD points at; failing to read HEAD
    /// ends the fetch with the backend's error.
    ReadHead,
    /// Read the entry `key` of the repository's configuration; failing to
    /// open the configuration ends the fetch with the backend's error.
    ReadConfig { key: String },
    /// Fetch from the remote: look it up, connect, download, to `depth`
    /// where one is set, disconnect, and update the tips. Any of these that
    /// fails ends the fetch with the backend's error.
    Fetch { remote: String, depth: Option<i32> },
}

/// A step as plain values.
pub enum FetchStepView {
    ReadHead,
    ReadConfig { key: Seq<char> },
    Fetch { remote: Seq<char>, depth: Option<i32> },
}

impl View for FetchStep {
    type V = FetchStepView;

    open spec fn view(&self) -> FetchStepView {
        match self {
            FetchStep::ReadHead => FetchStepView::ReadHead,
            FetchStep::ReadConfig { key } => FetchStepView::ReadConfig { key: key@ },
            FetchStep::Fetch { remote, depth } => FetchStepView::Fetch {
                remote: remote@,
                depth: *depth,
            },
        }
    }
}

/// The depth of a fetch: the whole history with `--unshallow`, else the
/// backend's.
pub open spec fn fetch_depth(unshallow: bool) -> Option<i32> {
    if unshallow {
        Some(UNSHALLOW_DEPTH)
    } else {
        None
    }
}

/// The entry of the configuration that names the remote of a branch.
pub open spec fn branch_remote_key(branch: Seq<char>) -> Seq<char> {
    "branch."@ + branch + ".remote"@
}

/// The fetch from `remote`, or from `origin` where none is named.
pub open spec fn fetch_from(remote: Option<Seq<char>>, unshallow: bool) -> FetchStepView {
    FetchStepView::Fetch {
        remote: match remote {
            Some(remote) => remote,
            None => "origin"@,
        },
        depth: fetch_depth(unshallow),
    }
}

impl FetchConfig {
    /// The remote to fetch from, if one is named.
    pub closed spec fn spec_remote(&self) -> Option<Seq<char>> {
        match self.remote {
            Some(remote) => Some(remote@),
            None => None,
        }
    }

    /// Whether the whole history is fetched.
    pub closed spec fn spec_unshallow(&self) -> bool {
        self.flags.unshallow
    }

    pub fn new(remote: Option<String>) -> (config: Self)
        ensures
            config.spec_remote() == match remote {
                Some(remote) => Some(remote@),
                None => None,
            },
            !config.spec_unshallow(),
    {
        FetchConfig { remote, flags: FetchFlagsInternal { unshallow: false } }
    }

    pub fn add_flag(&mut self, flag: FetchFlags)
        ensures
            final(self).spec_remote() == old(self).spec_remote(),
            flag matches FetchFlags::Unshallow(unshallow) && final(self).spec_unshallow()
                == unshallow,
    {
        match flag {
            FetchFlags::Unshallow(unshallow) => self.flags.unshallow = unshallow,
        }
    }

    fn depth(&self) -> (depth: Option<i32>)
        ensures
            depth == fetch_depth(self.spec_unshallow()),
    {
        if self.flags.unshallow {
            Some(UNSHALLOW_DEPTH)
        } else {
            None
        }
    }

    /// The first step: the fetch itself where the remote is named, else the
    /// question for the current branch.
    pub fn first_step(&self) -> (step: FetchStep)
        ensures
            step@ == match self.spec_remote() {
                Some(remote) => fetch_from(Some(remote), self.spec_unshallow()),
                None => FetchStepView::ReadHead,
            },
    {
        match &self.remote {
            Some(remote) => FetchStep::Fetch { remote: remote.clone(), depth: self.depth() },
            None => FetchStep::ReadHead,
        }
    }

    /// The step behind `ReadHead`, given the short name of what HEAD points
    /// at, where that is valid UTF-8: the question for that branch's remote,
    /// or the fetch from `origin` where there is no such name.
    pub fn after_head(&self, shorthand: Option<&str>) -> (step: FetchStep)
        ensures
            step@ == match shorthand {
                Some(branch) => FetchStepView::ReadConfig { key: branch_remote_key(branch@) },
                None => fetch_from(None, self.spec_unshallow()),
            },
    {
        match shorthand {
            Some(branch) => {
                let mut key = String::from_str("branch.");
                key.append(branch);
                key.append(".remote");
                FetchStep::ReadConfig { key }
            },
            None => FetchStep::Fetch { remote: String::from_str("origin"), depth: self.depth() },
        }
    }

    /// The step behind `ReadConfig`, given the entry's value, where there is
    /// one and it is valid UTF-8: the fetch from that remote, or from
    /// `origin`.
    pub fn after_config(&self, value: Option<&str>) -> (step: FetchStep)
        ensures
            step@ == fetch_from(
                match value {
                    Some(value) => Some(value@),
                    None => None,
                },
                self.spec_unshallow(),
            ),
    {
        let remote = match value {
            Some(value) => String::from_str(value),
            None => String::from_str("origin"),
        };
        FetchStep::Fetch { remote, depth: self.depth() }
    }
}

impl GitRepository {
    /// Begins a fetch: its first step. A handle without a repository is
    /// refused.
    pub fn begin_fetch(&self, config: &FetchConfig) -> (r: Result<FetchStep, GitError>)
        ensures
            r is Ok <==> self.populated(),
            r matches Ok(step) ==> step@ == match config.spec_remote() {
                Some(remote) => fetch_from(Some(remote), config.spec_unshallow()),
                None => FetchStepView::ReadHead,
            },
            r matches Err(e) ==> e@ == missing_repository(),
    {
        if !self.is_valid() {
            return Err(GitError::missing_repository());
        }
        Ok(config.first_step())
    }
}

} // verus!
