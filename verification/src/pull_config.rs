//! `git pull`: its configuration. The command itself does nothing yet.

use vstd::prelude::*;

verus! {

/// Specifies a `git pull`.
pub struct PullConfig {
    flags: PullFlagsInternal,
}

pub(crate) struct PullFlagsInternal {
    rebase: Option<PullFlagRebaseOptions>,
}

/// The flags of a `git pull`.
#[derive(Clone, Copy, Debug, PartialEq, Eq, Structural)]
pub enum PullFlags {
    /// `--rebase`.
    Rebase(PullFlagRebaseOptions),
}

/// The values of `--rebase`.
#[derive(Clone, Copy, Debug, PartialEq, Eq, Structural)]
pub enum PullFlagRebaseOptions {
    True,
    False,
    Merges,
}

} // verus!
