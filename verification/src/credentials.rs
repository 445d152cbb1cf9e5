//! The credentials that a handle offers to a remote.

use vstd::prelude::*;
use vstd::string::*;
use crate::backend::{cred_default, cred_userpass_plaintext, cred_username, error_message};
use crate::error::{ErrorKind, GitError};

verus! {

/// The types of credential that the backend knows.
#[derive(Clone, Copy, Debug, PartialEq, Eq, Structural)]
pub enum CredType {
    UserPassPlainText,
    SshKey,
    SshCustom,
    Default,
    SshInteractive,
    Username,
    SshMemory,
    Unknown,
}

/// The type that the backend numbers `bits`.
pub open spec fn cred_type_of(bits: u32) -> CredType {
    if bits == 1 {
        CredType::UserPassPlainText
    } else if bits == 2 {
        CredType::SshKey
    } else if bits == 4 {
        CredType::SshCustom
    } else if bits == 8 {
        CredType::Default
    } else if bits == 16 {
        CredType::SshInteractive
    } else if bits == 32 {
        CredType::Username
    } else if bits == 64 {
        CredType::SshMemory
    } else {
        CredType::Unknown
    }
}

impl CredType {
    /// The type that the backend numbers `bits`; `Unknown` for a number that
    /// is none of its types.
    pub fn from_bits(bits: u32) -> (t: CredType)
        ensures
            t == cred_type_of(bits),
    {
        match bits {
            1 => CredType::UserPassPlainText,
            2 => CredType::SshKey,
            4 => CredType::SshCustom,
            8 => CredType::Default,
            16 => CredType::SshInteractive,
            32 => CredType::Username,
            64 => CredType::SshMemory,
            _ => CredType::Unknown,
        }
    }
}

/// What is offered to a remote: nothing of one's own, a user name, or a
/// user name with a password.
#[derive(Clone, Copy, Debug, PartialEq, Eq, Structural)]
pub enum CredentialKind {
    Default,
    Username,
    UserPass,
}

/// A user name and a password for a remote over HTTPS, either of which may
/// be missing.
#[derive(Clone, Debug, PartialEq, Eq)]
pub struct GitHttpsCredentials {
    user: Option<String>,
    pass: Option<String>,
}

/// The characters of a text that may be missing.
pub open spec fn optional_text(text: Option<String>) -> Option<Seq<char>> {
    match text {
        Some(text) => Some(text@),
        None => None,
    }
}

impl View for GitHttpsCredentials {
    type V = (Option<Seq<char>>, Option<Seq<char>>);

    closed spec fn view(&self) -> (Option<Seq<char>>, Option<Seq<char>>) {
        (optional_text(self.user), optional_text(self.pass))
    }
}

/// What a user name and a password amount to: without a user name nothing
/// is offered, whatever the password.
pub open spec fn kind_of(user: Option<Seq<char>>, pass: Option<Seq<char>>) -> CredentialKind {
    if user is Some {
        if pass is Some {
            CredentialKind::UserPass
        } else {
            CredentialKind::Username
        }
    } else {
        CredentialKind::Default
    }
}

/// The type of the credential that is made for a kind.
pub open spec fn type_for(kind: CredentialKind) -> CredType {
    match kind {
        CredentialKind::UserPass => CredType::UserPassPlainText,
        CredentialKind::Username => CredType::Username,
        CredentialKind::Default => CredType::Default,
    }
}

/// Whether the backend refuses the credential for a NUL character in what
/// it is made of.
pub open spec fn holds_nul(user: Option<Seq<char>>, pass: Option<Seq<char>>) -> bool {
    match kind_of(user, pass) {
        CredentialKind::UserPass => user.unwrap().contains('\0') || pass.unwrap().contains('\0'),
        CredentialKind::Username => user.unwrap().contains('\0'),
        CredentialKind::Default => false,
    }
}

/// What the backend is asked to make a credential of.
#[derive(Clone, Debug, PartialEq, Eq)]
pub enum CredentialRequest {
    /// Of nothing: the default credential.
    Default,
    /// Of a user name.
    Username(String),
    /// Of a user name and a password, in this order.
    UserPass(String, String),
}

/// A request as plain values.
pub enum CredentialRequestView {
    Default,
    Username(Seq<char>),
    UserPass(Seq<char>, Seq<char>),
}

impl View for CredentialRequest {
    type V = CredentialRequestView;

    open spec fn view(&self) -> CredentialRequestView {
        match self {
            CredentialRequest::Default => CredentialRequestView::Default,
            CredentialRequest::Username(user) => CredentialRequestView::Username(user@),
            CredentialRequest::UserPass(user, pass) => CredentialRequestView::UserPass(
                user@,
                pass@,
            ),
        }
    }
}

/// What the backend is asked for a user name and a password, either of
/// which may be missing: a credential of both where both are there, of the
/// user name where only it is, and the default one without a user name,
/// whatever the password.
pub open spec fn request_of(user: Option<Seq<char>>, pass: Option<Seq<char>>)
    -> CredentialRequestView {
    match user {
        Some(user) => match pass {
            Some(pass) => CredentialRequestView::UserPass(user, pass),
            None => CredentialRequestView::Username(user),
        },
        None => CredentialRequestView::Default,
    }
}

/// The kind of a request.
pub open spec fn request_kind(request: CredentialRequestView) -> CredentialKind {
    match request {
        CredentialRequestView::Default => CredentialKind::Default,
        CredentialRequestView::Username(_) => CredentialKind::Username,
        CredentialRequestView::UserPass(_, _) => CredentialKind::UserPass,
    }
}

/// Whether a text of the request holds a NUL character, for which the
/// backend refuses it.
pub open spec fn request_holds_nul(request: CredentialRequestView) -> bool {
    match request {
        CredentialRequestView::Default => false,
        CredentialRequestView::Username(user) => user.contains('\0'),
        CredentialRequestView::UserPass(user, pass) => user.contains('\0') || pass.contains(
            '\0',
        ),
    }
}

/// The number that the backend gives the type of the credential that it
/// makes for a request.
pub open spec fn request_type_number(request: CredentialRequestView) -> u32 {
    match request {
        CredentialRequestView::Default => 8,
        CredentialRequestView::Username(_) => 32,
        CredentialRequestView::UserPass(_, _) => 1,
    }
}

impl CredentialRequest {
    /// Puts the request to the backend: the default credential is asked for
    /// without a text, the one of a user name with that name, the one of a
    /// user name and a password with these two. What comes back is the
    /// credential with the number of its type, or the backend's error. A
    /// NUL character in a text of the request makes it fail; otherwise the
    /// backend decides.
    pub fn submit(&self) -> (r: Result<(git2::Cred, u32), git2::Error>)
        ensures
            request_holds_nul(self@) ==> r is Err,
            r matches Ok(made) ==> made.1 == request_type_number(self@),
    {
        match self {
            CredentialRequest::Default => cred_default(),
            CredentialRequest::Username(user) => cred_username(user.as_str()),
            CredentialRequest::UserPass(user, pass) => cred_userpass_plaintext(
                user.as_str(),
                pass.as_str(),
            ),
        }
    }
}

/// The library's error for an error of the backend.
pub fn backend_error(error: &git2::Error) -> (e: GitError)
    ensures
        e.kind == ErrorKind::Backend,
{
    GitError { kind: ErrorKind::Backend, message: error_message(error) }
}

impl GitHttpsCredentials {
    pub fn new(user: Option<String>, pass: Option<String>) -> (c: Self)
        ensures
            c@ == (optional_text(user), optional_text(pass)),
    {
        GitHttpsCredentials { user, pass }
    }

    /// What these credentials amount to.
    pub fn kind(&self) -> (k: CredentialKind)
        ensures
            k == kind_of(self@.0, self@.1),
    {
        match &self.user {
            Some(_) => match &self.pass {
                Some(_) => CredentialKind::UserPass,
                None => CredentialKind::Username,
            },
            None => CredentialKind::Default,
        }
    }

    /// What the backend is asked for these credentials.
    pub fn request(&self) -> (r: CredentialRequest)
        ensures
            r@ == request_of(self@.0, self@.1),
    {
        match &self.user {
            Some(user) => match &self.pass {
                Some(pass) => CredentialRequest::UserPass(user.clone(), pass.clone()),
                None => CredentialRequest::Username(user.clone()),
            },
            None => CredentialRequest::Default,
        }
    }

    /// Has the backend make the credential of `request`, and gives it with
    /// the number of its type.
    fn make(&self) -> (r: Result<(git2::Cred, u32), git2::Error>)
        ensures
            holds_nul(self@.0, self@.1) ==> r is Err,
            r matches Ok(made) ==> made.1 == request_type_number(request_of(self@.0, self@.1))
                && cred_type_of(made.1) == type_for(kind_of(self@.0, self@.1)),
    {
        let request = self.request();
        request.submit()
    }

    /// Has the backend make the credential of `request`: of the user name
    /// and the password where both are there, of the user name alone where
    /// only it is, else the default one. A NUL character in what is used
    /// makes it fail; otherwise the backend decides.
    pub fn get_cred(&self) -> (r: Result<git2::Cred, git2::Error>)
        ensures
            holds_nul(self@.0, self@.1) ==> r is Err,
    {
        match self.make() {
            Ok(made) => Ok(made.0),
            Err(error) => Err(error),
        }
    }

    /// The type of the credential that the backend makes of these: the one
    /// that goes with what they amount to. It fails where the backend makes
    /// no credential, as it does for a NUL character in what is used.
    pub fn get_cred_type(&self) -> (r: Result<CredType, GitError>)
        ensures
            holds_nul(self@.0, self@.1) ==> r is Err,
            r matches Ok(t) ==> t == type_for(kind_of(self@.0, self@.1)),
            r matches Err(e) ==> e.kind == ErrorKind::Backend,
    {
        match self.make() {
            Ok(made) => Ok(CredType::from_bits(made.1)),
            Err(error) => Err(backend_error(&error)),
        }
    }
}

/// The credentials of a handle.
#[derive(Clone, Debug, PartialEq, Eq)]
pub enum GitCredentials {
    Https(GitHttpsCredentials),
    Default,
}

/// Credentials as plain values.
pub enum CredentialsView {
    Https(Option<Seq<char>>, Option<Seq<char>>),
    Default,
}

impl View for GitCredentials {
    type V = CredentialsView;

    open spec fn view(&self) -> CredentialsView {
        match self {
            GitCredentials::Https(c) => CredentialsView::Https(c@.0, c@.1),
            GitCredentials::Default => CredentialsView::Default,
        }
    }
}

impl GitCredentials {
    /// What the backend is asked for these credentials: what the user name
    /// and the password amount to, and the default credential where there
    /// are none.
    pub fn request(&self) -> (r: CredentialRequest)
        ensures
            r@ == match self@ {
                CredentialsView::Https(user, pass) => request_of(user, pass),
                CredentialsView::Default => CredentialRequestView::Default,
            },
    {
        match self {
            GitCredentials::Https(c) => c.request(),
            GitCredentials::Default => CredentialRequest::Default,
        }
    }

    /// Has the backend make the credential of `request`.
    pub fn get_cred(&self) -> (r: Result<git2::Cred, git2::Error>)
        ensures
            self@ matches CredentialsView::Https(user, pass) && holds_nul(user, pass) ==> r is Err,
    {
        let request = self.request();
        match request.submit() {
            Ok(made) => Ok(made.0),
            Err(error) => Err(error),
        }
    }

    /// A copy of the credentials.
    pub fn duplicate(&self) -> (c: GitCredentials)
        ensures
            c@ == self@,
    {
        match self {
            GitCredentials::Https(c) => GitCredentials::Https(
                GitHttpsCredentials { user: c.user.clone(), pass: c.pass.clone() },
            ),
            GitCredentials::Default => GitCredentials::Default,
        }
    }
}

} // verus!
