//! The handle of a repository: the backend's repository once there is one,
//! the credentials for remotes, and two switches.

use vstd::prelude::*;
use vstd::string::*;
use crate::credentials::{
    holds_nul,
    kind_of,
    type_for,
    CredType,
    CredentialsView,
    GitCredentials,
    GitHttpsCredentials,
};
use crate::error::{missing_repository, ErrorKind, GitError, GitErrorView};

verus! {

/// A handle that is empty until a repository is opened, cloned or created
/// through it, and that keeps that repository from then on.
pub struct GitRepository {
    repository: Option<git2::Repository>,
    cred: GitCredentials,
    skip_owner_validation: bool,
    bypass_certificate_check: bool,
}

/// The error of putting a repository behind a handle that has one.
pub open spec fn already_populated() -> GitErrorView {
    GitErrorView {
        kind: ErrorKind::Conflict,
        message: "the handle already holds a repository"@,
    }
}

impl GitRepository {
    /// The repository behind the handle.
    pub closed spec fn spec_repository(&self) -> Option<git2::Repository> {
        self.repository
    }

    /// Whether there is a repository behind the handle.
    pub open spec fn populated(&self) -> bool {
        self.spec_repository() is Some
    }

    /// The credentials that the handle offers.
    pub closed spec fn spec_cred(&self) -> CredentialsView {
        self.cred@
    }

    /// Whether the owner of a repository is left unchecked.
    pub closed spec fn spec_skip_owner_validation(&self) -> bool {
        self.skip_owner_validation
    }

    /// Whether a remote's certificate is accepted unchecked.
    pub closed spec fn spec_bypass_certificate_check(&self) -> bool {
        self.bypass_certificate_check
    }

    /// An empty handle, with the default credentials and both switches off.
    pub fn new() -> (handle: Self)
        ensures
            !handle.populated(),
            handle.spec_cred() == CredentialsView::Default,
            !handle.spec_skip_owner_validation(),
            !handle.spec_bypass_certificate_check(),
    {
        GitRepository {
            cred: GitCredentials::Default,
            repository: None,
            skip_owner_validation: false,
            bypass_certificate_check: false,
        }
    }

    /// A handle of `repository`, with the default credentials and both
    /// switches off.
    pub fn with_repository(repository: git2::Repository) -> (handle: Self)
        ensures
            handle.spec_repository() == Some(repository),
            handle.spec_cred() == CredentialsView::Default,
            !handle.spec_skip_owner_validation(),
            !handle.spec_bypass_certificate_check(),
    {
        GitRepository {
            cred: GitCredentials::Default,
            repository: Some(repository),
            skip_owner_validation: false,
            bypass_certificate_check: false,
        }
    }

    /// Puts `repository` behind a handle that is empty. A handle that has a
    /// repository keeps it and the call fails: a handle goes from empty to
    /// populated once and never changes its repository.
    pub fn install(&mut self, repository: git2::Repository) -> (r: Result<(), GitError>)
        ensures
            old(self).populated() ==> *final(self) == *old(self) && (r matches Err(e) && e@
                == already_populated()),
            !old(self).populated() ==> r is Ok && final(self).spec_repository() == Some(
                repository,
            ),
            final(self).spec_cred() == old(self).spec_cred(),
            final(self).spec_skip_owner_validation() == old(self).spec_skip_owner_validation(),
            final(self).spec_bypass_certificate_check() == old(
                self,
            ).spec_bypass_certificate_check(),
    {
        if self.repository.is_some() {
            return Err(GitError::new(ErrorKind::Conflict, "the handle already holds a repository"));
        }
        self.repository = Some(repository);
        Ok(())
    }

    /// What the backend's check of a repository's owner is set to before a
    /// command that reaches out to a remote or switches the working tree:
    /// off where the handle skips the check, and left as it is where not.
    pub fn owner_check_override(&self) -> (setting: Option<bool>)
        ensures
            setting == if self.spec_skip_owner_validation() {
                Some(false)
            } else {
                None::<bool>
            },
    {
        if self.skip_owner_validation {
            Some(false)
        } else {
            None
        }
    }

    /// What the backend's check of a repository's owner is set to before a
    /// command that works on the index or creates a repository: off where
    /// the handle skips the check, on where not.
    pub fn owner_check(&self) -> (setting: bool)
        ensures
            setting == !self.spec_skip_owner_validation(),
    {
        !self.skip_owner_validation
    }

    /// The repository behind the handle, if there is one.
    pub fn repository(&self) -> (r: Option<&git2::Repository>)
        ensures
            r is Some <==> self.populated(),
            r matches Some(repository) ==> self.spec_repository() == Some(*repository),
    {
        self.repository.as_ref()
    }

    /// The repository behind the handle, or the error of a command that
    /// needs one and finds none.
    pub fn require_repository(&self) -> (r: Result<&git2::Repository, GitError>)
        ensures
            r is Ok <==> self.populated(),
            r matches Ok(repository) ==> self.spec_repository() == Some(*repository),
            r matches Err(e) ==> e@ == missing_repository(),
    {
        match &self.repository {
            Some(repository) => Ok(repository),
            None => Err(GitError::missing_repository()),
        }
    }

    /// The credentials that the handle offers.
    pub fn credentials(&self) -> (c: &GitCredentials)
        ensures
            c@ == self.spec_cred(),
    {
        &self.cred
    }

    /// Returns true if owner validation is to be skipped, false otherwise.
    pub fn get_skip_owner_validation(&self) -> (skip: bool)
        ensures
            skip == self.spec_skip_owner_validation(),
    {
        self.skip_owner_validation
    }

    /// Returns true if certification checks are to be bypassed, false
    /// otherwise.
    pub fn get_bypass_certificate_check(&self) -> (bypass: bool)
        ensures
            bypass == self.spec_bypass_certificate_check(),
    {
        self.bypass_certificate_check
    }

    /// Set true to skip owner validation.
    pub fn skip_owner_validation(&mut self, skip: bool)
        ensures
            final(self).spec_skip_owner_validation() == skip,
            final(self).spec_repository() == old(self).spec_repository(),
            final(self).spec_cred() == old(self).spec_cred(),
            final(self).spec_bypass_certificate_check() == old(
                self,
            ).spec_bypass_certificate_check(),
    {
        self.skip_owner_validation = skip;
    }

    /// Set true to skip certification checks.
    pub fn bypass_certificate_check(&mut self, bypass: bool)
        ensures
            final(self).spec_bypass_certificate_check() == bypass,
            final(self).spec_repository() == old(self).spec_repository(),
            final(self).spec_cred() == old(self).spec_cred(),
            final(self).spec_skip_owner_validation() == old(self).spec_skip_owner_validation(),
    {
        self.bypass_certificate_check = bypass;
    }

    /// The type of the credential that the handle offers: `Default` for the
    /// default credentials, else what the backend makes of the user name and
    /// the password.
    pub fn get_cred_type(&self) -> (r: Result<CredType, GitError>)
        ensures
            self.spec_cred() is Default ==> r == Ok::<CredType, GitError>(CredType::Default),
            self.spec_cred() matches CredentialsView::Https(user, pass) && holds_nul(user, pass)
                ==> r is Err,
            r matches Ok(t) ==> t == match self.spec_cred() {
                CredentialsView::Https(user, pass) => type_for(kind_of(user, pass)),
                CredentialsView::Default => CredType::Default,
            },
            r matches Err(e) ==> e.kind == ErrorKind::Backend,
    {
        match &self.cred {
            GitCredentials::Https(credentials) => credentials.get_cred_type(),
            GitCredentials::Default => Ok(CredType::Default),
        }
    }

    /// Set credentials of the type username and password. Used when
    /// interacting with a remote repository over HTTPS.
    pub fn set_user_pass(&mut self, user: String, pass: String)
        ensures
            final(self).spec_cred() == CredentialsView::Https(Some(user@), Some(pass@)),
            final(self).spec_repository() == old(self).spec_repository(),
            final(self).spec_skip_owner_validation() == old(self).spec_skip_owner_validation(),
            final(self).spec_bypass_certificate_check() == old(
                self,
            ).spec_bypass_certificate_check(),
    {
        let http_cred = GitHttpsCredentials::new(Some(user), Some(pass));
        self.cred = GitCredentials::Https(http_cred);
    }

    /// Set credentials of the type username. Used when interacting with a
    /// remote repository over HTTPS.
    pub fn set_user(&mut self, user: String)
        ensures
            final(self).spec_cred() == CredentialsView::Https(Some(user@), None),
            final(self).spec_repository() == old(self).spec_repository(),
            final(self).spec_skip_owner_validation() == old(self).spec_skip_owner_validation(),
            final(self).spec_bypass_certificate_check() == old(
                self,
            ).spec_bypass_certificate_check(),
    {
        let http_cred = GitHttpsCredentials::new(Some(user), None);
        self.cred = GitCredentials::Https(http_cred);
    }

    /// Returns `true` if the repository is cloned/init-ed and ready for
    /// other git operations. Returns `false` other wise.
    pub fn is_valid(&self) -> (valid: bool)
        ensures
            valid == self.populated(),
    {
        self.repository.is_some()
    }
}

} // verus!
