use gittwo::credentials::{
    CredentialKind, CredentialRequest, GitCredentials, GitHttpsCredentials,
};
use gittwo::error::ErrorKind;
use gittwo::{CredType, GitRepository};

fn text(s: &str) -> Option<String> {
    Some(String::from(s))
}

#[test]
fn kinds_of_credentials() {
    assert_eq!(GitHttpsCredentials::new(text("u"), text("p")).kind(), CredentialKind::UserPass);
    assert_eq!(GitHttpsCredentials::new(text("u"), None).kind(), CredentialKind::Username);
    assert_eq!(GitHttpsCredentials::new(None, None).kind(), CredentialKind::Default);
    // a password alone is not used
    assert_eq!(GitHttpsCredentials::new(None, text("p")).kind(), CredentialKind::Default);
}

#[test]
fn credential_type_numbers() {
    assert_eq!(CredType::from_bits(1), CredType::UserPassPlainText);
    assert_eq!(CredType::from_bits(2), CredType::SshKey);
    assert_eq!(CredType::from_bits(4), CredType::SshCustom);
    assert_eq!(CredType::from_bits(8), CredType::Default);
    assert_eq!(CredType::from_bits(16), CredType::SshInteractive);
    assert_eq!(CredType::from_bits(32), CredType::Username);
    assert_eq!(CredType::from_bits(64), CredType::SshMemory);
    assert_eq!(CredType::from_bits(0), CredType::Unknown);
    assert_eq!(CredType::from_bits(3), CredType::Unknown);
    assert_eq!(CredType::from_bits(128), CredType::Unknown);
    assert_eq!(CredType::from_bits(u32::MAX), CredType::Unknown);
}

#[test]
fn backend_types_the_credentials() {
    assert_eq!(
        GitHttpsCredentials::new(text("user"), text("pass")).get_cred_type(),
        Ok(CredType::UserPassPlainText)
    );
    assert_eq!(
        GitHttpsCredentials::new(text("user"), None).get_cred_type(),
        Ok(CredType::Username)
    );
    assert_eq!(GitHttpsCredentials::new(None, None).get_cred_type(), Ok(CredType::Default));
    assert_eq!(GitHttpsCredentials::new(None, text("pass")).get_cred_type(), Ok(CredType::Default));
}

#[test]
fn backend_makes_the_credential_that_was_asked_for() {
    let cred = GitHttpsCredentials::new(text("user"), text("pass")).get_cred().unwrap();
    assert_eq!(cred.credtype(), git2::CredentialType::USER_PASS_PLAINTEXT.bits());
    assert!(cred.has_username());
    let cred = GitCredentials::Https(GitHttpsCredentials::new(text("user"), None))
        .get_cred()
        .unwrap();
    assert_eq!(cred.credtype(), git2::CredentialType::USERNAME.bits());
    let cred = GitCredentials::Default.get_cred().unwrap();
    assert_eq!(cred.credtype(), git2::CredentialType::DEFAULT.bits());
}

#[test]
fn nul_in_a_user_name_or_password_is_refused() {
    let error = GitHttpsCredentials::new(text("us\0er"), text("pass")).get_cred_type().unwrap_err();
    assert_eq!(error.kind, ErrorKind::Backend);
    assert!(GitHttpsCredentials::new(text("user"), text("pa\0ss")).get_cred_type().is_err());
    assert!(GitHttpsCredentials::new(text("\0"), None).get_cred_type().is_err());
    assert!(GitHttpsCredentials::new(text("\0"), None).get_cred().is_err());
    // a password that is not used does no harm
    assert!(GitHttpsCredentials::new(None, text("pa\0ss")).get_cred_type().is_ok());
}

#[test]
fn duplicate_of_credentials_is_equal() {
    let first = GitCredentials::Https(GitHttpsCredentials::new(text("u"), text("p")));
    assert_eq!(first.duplicate(), first);
    assert_eq!(GitCredentials::Default.duplicate(), GitCredentials::Default);
}

#[test]
fn handle_credentials() {
    let mut handle = GitRepository::new();
    assert_eq!(handle.get_cred_type(), Ok(CredType::Default));
    assert_eq!(handle.credentials(), &GitCredentials::Default);
    handle.set_user(String::from("me"));
    assert_eq!(handle.get_cred_type(), Ok(CredType::Username));
    assert_eq!(
        handle.credentials(),
        &GitCredentials::Https(GitHttpsCredentials::new(text("me"), None))
    );
    handle.set_user_pass(String::from("me"), String::from("secret"));
    assert_eq!(handle.get_cred_type(), Ok(CredType::UserPassPlainText));
    handle.set_user_pass(String::from("m\0e"), String::from("secret"));
    assert_eq!(handle.get_cred_type().unwrap_err().kind, ErrorKind::Backend);
}

#[test]
fn request_of_user_name_and_password() {
    assert_eq!(
        GitHttpsCredentials::new(text("user"), text("pass")).request(),
        CredentialRequest::UserPass(String::from("user"), String::from("pass"))
    );
    assert_eq!(
        GitHttpsCredentials::new(text("user"), None).request(),
        CredentialRequest::Username(String::from("user"))
    );
    assert_eq!(GitHttpsCredentials::new(None, None).request(), CredentialRequest::Default);
    // a password without a user name is not used
    assert_eq!(GitHttpsCredentials::new(None, text("pass")).request(), CredentialRequest::Default);
    assert_eq!(GitCredentials::Default.request(), CredentialRequest::Default);
    assert_eq!(
        GitCredentials::Https(GitHttpsCredentials::new(text("u"), text("p"))).request(),
        CredentialRequest::UserPass(String::from("u"), String::from("p"))
    );
}

#[test]
fn submitted_request_gives_the_credential_with_its_type_number() {
    let (cred, bits) = CredentialRequest::UserPass(String::from("user"), String::from("pass"))
        .submit()
        .unwrap();
    assert_eq!(bits, 1);
    assert_eq!(cred.credtype(), 1);
    assert!(cred.has_username());
    let (cred, bits) = CredentialRequest::Username(String::from("user")).submit().unwrap();
    assert_eq!(bits, 32);
    assert_eq!(cred.credtype(), 32);
    let (cred, bits) = CredentialRequest::Default.submit().unwrap();
    assert_eq!(bits, 8);
    assert_eq!(cred.credtype(), 8);
    assert!(CredentialRequest::Username(String::from("a\0b")).submit().is_err());
    assert!(CredentialRequest::UserPass(String::from("a"), String::from("\0")).submit().is_err());
}
