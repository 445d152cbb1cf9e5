//! The errors that the commands raise themselves. What the backend reports
//! is passed on as it is and has no place here.

use vstd::prelude::*;
use vstd::string::*;

verus! {

/// Why a command was refused.
#[derive(Clone, Copy, Debug, PartialEq, Eq, Structural)]
pub enum ErrorKind {
    /// There is no repository behind the handle, or a name does not resolve.
    NotFound,
    /// The command does not go with the state that it found.
    Conflict,
    /// The command cannot be carried out as it is configured.
    Invalid,
    /// The backend refused; the message is the backend's own.
    Backend,
}

/// An error of the library: its kind, and a message that names the input.
#[derive(Clone, Debug, PartialEq, Eq)]
pub struct GitError {
    pub kind: ErrorKind,
    pub message: String,
}

/// An error as plain values.
pub struct GitErrorView {
    pub kind: ErrorKind,
    pub message: Seq<char>,
}

impl View for GitError {
    type V = GitErrorView;

    open spec fn view(&self) -> GitErrorView {
        GitErrorView { kind: self.kind, message: self.message@ }
    }
}

/// The error of every command that needs a repository and finds the handle
/// empty.
pub open spec fn missing_repository() -> GitErrorView {
    GitErrorView {
        kind: ErrorKind::NotFound,
        message: "Repository not found or created, try opening a valid repository or cloning one"@,
    }
}

impl GitError {
    /// An error of `kind` with `message`.
    pub fn new(kind: ErrorKind, message: &str) -> (e: GitError)
        ensures
            e@ == (GitErrorView { kind, message: message@ }),
    {
        GitError { kind, message: String::from_str(message) }
    }

    /// The error for a handle without a repository.
    pub fn missing_repository() -> (e: GitError)
        ensures
            e@ == missing_repository(),
    {
        GitError::new(
            ErrorKind::NotFound,
            "Repository not found or created, try opening a valid repository or cloning one",
        )
    }

    /// The message, as `to_string` would give it.
    pub fn message(&self) -> (m: &str)
        ensures
            m@ == self.message@,
    {
        self.message.as_str()
    }
}

} // verus!
