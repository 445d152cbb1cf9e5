//! `git commit`: who commits, with which message, and whether there is
//! anything to commit.

use vstd::prelude::*;
use vstd::string::*;
use crate::error::{missing_repository, ErrorKind, GitError, GitErrorView};
use crate::repository::GitRepository;
use crate::status::{has_indexed_files, staged};

verus! {

/// Specifies a `git commit`: the name and the e-mail address of who
/// commits, and the flags.
pub struct CommitConfig {
    name: String,
    email: String,
    flags: CommitFlagsInternals,
}

#[derive(Clone)]
pub(crate) struct CommitFlagsInternals {
    message: String,
    allow_empty_message: bool,
}

/// The flags of a `git commit`.
pub enum CommitFlags {
    /// `-m <message>`: the commit's message.
    Message(String),
    /// `--allow-empty-message`: lets a commit have no message.
    AllowEmptyMessage(bool),
}

/// A commit's configuration as plain values.
pub struct CommitConfigView {
    pub name: Seq<char>,
    pub email: Seq<char>,
    pub message: Seq<char>,
    pub allow_empty_message: bool,
}

impl View for CommitConfig {
    type V = CommitConfigView;

    closed spec fn view(&self) -> CommitConfigView {
        CommitConfigView {
            name: self.name@,
            email: self.email@,
            message: self.flags.message@,
            allow_empty_message: self.flags.allow_empty_message,
        }
    }
}

/// Which files the status of a commit looks at.
#[derive(Clone, Copy, Debug, PartialEq, Eq, Structural)]
pub struct StatusQuery {
    pub include_ignored: bool,
    pub include_untracked: bool,
    pub recurse_untracked_dirs: bool,
    pub exclude_submodules: bool,
}

/// What a commit does once the status is known.
#[derive(Clone, Debug, PartialEq, Eq)]
pub enum CommitStep {
    /// Nothing: the index holds no change.
    Nothing,
    /// Write the index as a tree and commit it on top of what HEAD points
    /// at, or as a first commit where HEAD points at nothing, and move the
    /// reference `update` to it.
    Commit { name: String, email: String, message: String, update: String },
}

/// A step as plain values.
pub enum CommitStepView {
    Nothing,
    Commit { name: Seq<char>, email: Seq<char>, message: Seq<char>, update: Seq<char> },
}

impl View for CommitStep {
    type V = CommitStepView;

    open spec fn view(&self) -> CommitStepView {
        match self {
            CommitStep::Nothing => CommitStepView::Nothing,
            CommitStep::Commit { name, email, message, update } => CommitStepView::Commit {
                name: name@,
                email: email@,
                message: message@,
                update: update@,
            },
        }
    }
}

/// The error of a commit without a message.
pub open spec fn empty_message() -> GitErrorView {
    GitErrorView {
        kind: ErrorKind::Conflict,
        message: "Aborting commit due to empty commit message."@,
    }
}

/// Whether a commit lacks a message that it needs.
pub open spec fn lacks_message(c: CommitConfigView) -> bool {
    !c.allow_empty_message && c.message.len() == 0
}

/// The files that count for a commit: those that are not ignored, the
/// untracked ones too, in every directory, and no submodules.
pub open spec fn commit_status_query() -> StatusQuery {
    StatusQuery {
        include_ignored: false,
        include_untracked: true,
        recurse_untracked_dirs: true,
        exclude_submodules: true,
    }
}

impl CommitConfig {
    pub fn new(name: String, email: String) -> (config: Self)
        ensures
            config@ == (CommitConfigView {
                name: name@,
                email: email@,
                message: Seq::empty(),
                allow_empty_message: false,
            }),
    {
        CommitConfig {
            name,
            email,
            flags: CommitFlagsInternals { message: String::new(), allow_empty_message: false },
        }
    }

    pub fn with_message(name: String, email: String, message: String) -> (config: Self)
        ensures
            config@ == (CommitConfigView {
                name: name@,
                email: email@,
                message: message@,
                allow_empty_message: false,
            }),
    {
        let mut config = CommitConfig::new(name, email);
        config.add_flags(CommitFlags::Message(message));
        config
    }

    pub fn add_flags(&mut self, flag: CommitFlags)
        ensures
            final(self)@ == match flag {
                CommitFlags::Message(message) => CommitConfigView {
                    message: message@,
                    ..old(self)@
                },
                CommitFlags::AllowEmptyMessage(allow) => CommitConfigView {
                    allow_empty_message: allow,
                    ..old(self)@
                },
            },
    {
        match flag {
            CommitFlags::Message(msg) => self.flags.message = msg,
            CommitFlags::AllowEmptyMessage(allow) => self.flags.allow_empty_message = allow,
        }
    }

    /// The name of who commits.
    pub fn get_name(&self) -> (name: &str)
        ensures
            name@ == self@.name,
    {
        self.name.as_str()
    }

    /// The e-mail address of who commits.
    pub fn get_email(&self) -> (email: &str)
        ensures
            email@ == self@.email,
    {
        self.email.as_str()
    }

    /// What the commit does, given the status of each file that counts:
    /// nothing where the index holds no change, else the commit on HEAD.
    pub fn after_status(&self, statuses: &Vec<u32>) -> (step: CommitStep)
        ensures
            step@ == if exists|i: int| 0 <= i < statuses@.len() && staged(#[trigger] statuses@[i]) {
                CommitStepView::Commit {
                    name: self@.name,
                    email: self@.email,
                    message: self@.message,
                    update: "HEAD"@,
                }
            } else {
                CommitStepView::Nothing
            },
    {
        if has_indexed_files(statuses) {
            CommitStep::Commit {
                name: self.name.clone(),
                email: self.email.clone(),
                message: self.flags.message.clone(),
                update: String::from_str("HEAD"),
            }
        } else {
            CommitStep::Nothing
        }
    }
}

impl GitRepository {
    /// Begins a commit: which files' status counts. A handle without a
    /// repository is refused, and so is a commit without a message unless
    /// the configuration allows it.
    pub fn begin_commit(&self, config: &CommitConfig) -> (r: Result<StatusQuery, GitError>)
        ensures
            r is Ok <==> self.populated() && !lacks_message(config@),
            r matches Ok(query) ==> query == commit_status_query(),
            r matches Err(e) ==> e@ == if self.populated() {
                empty_message()
            } else {
                missing_repository()
            },
    {
        if !self.is_valid() {
            return Err(GitError::missing_repository());
        }
        if !config.flags.allow_empty_message && config.flags.message.as_str().is_empty() {
            return Err(
                GitError::new(ErrorKind::Conflict, "Aborting commit due to empty commit message."),
            );
        }
        Ok(
            StatusQuery {
                include_ignored: false,
                include_untracked: true,
                recurse_untracked_dirs: true,
                exclude_submodules: true,
            },
        )
    }
}

} // verus!
