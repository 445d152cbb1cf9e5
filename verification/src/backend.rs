//! The parts of the backend and of the standard library that the verified
//! code calls: their types, and one function of this crate around each call.
//! What is stated of them here is taken on trust.

use vstd::prelude::*;
use vstd::string::*;
use vstd::utf8::{decode_utf8, valid_utf8};

verus! {

/// `git2::Cred`: a credential as the backend holds it.
#[verifier::external_type_specification]
#[verifier::external_body]
pub struct ExCred(git2::Cred);

/// `git2::Error`: an error as the backend reports it.
#[verifier::external_type_specification]
#[verifier::external_body]
pub struct ExError(git2::Error);

/// `git2::Repository`: an open repository.
#[verifier::external_type_specification]
#[verifier::external_body]
pub struct ExRepository(git2::Repository);

/// `std::path::PathBuf`: a path of the file system.
#[verifier::external_type_specification]
#[verifier::external_body]
pub struct ExPathBuf(std::path::PathBuf);

/// `std::string::FromUtf8Error`: why bytes are no UTF-8.
#[verifier::external_type_specification]
#[verifier::external_body]
pub struct ExFromUtf8Error(std::string::FromUtf8Error);

/// `std::sync::mpsc::Sender`: the sending half of a channel of std.
#[verifier::external_type_specification]
#[verifier::external_body]
#[verifier::reject_recursive_types(T)]
pub struct ExSender<T>(std::sync::mpsc::Sender<T>);

/// `std::sync::mpsc::Receiver`: the receiving half of a channel of std.
#[verifier::external_type_specification]
#[verifier::external_body]
#[verifier::reject_recursive_types(T)]
pub struct ExReceiver<T>(std::sync::mpsc::Receiver<T>);

/// `tokio::sync::mpsc::UnboundedSender`: the sending half of an unbounded
/// channel of tokio.
#[verifier::external_type_specification]
#[verifier::external_body]
#[verifier::reject_recursive_types(T)]
pub struct ExUnboundedSender<T>(tokio::sync::mpsc::UnboundedSender<T>);

/// `tokio::sync::mpsc::UnboundedReceiver`: the receiving half of an
/// unbounded channel of tokio.
#[verifier::external_type_specification]
#[verifier::external_body]
#[verifier::reject_recursive_types(T)]
pub struct ExUnboundedReceiver<T>(tokio::sync::mpsc::UnboundedReceiver<T>);

/// The text that `String::from_utf8_lossy` makes of `bytes`.
pub uninterp spec fn utf8_lossy(bytes: Seq<u8>) -> Seq<char>;

/// Calls `String::from_utf8_lossy` and takes the text as a `String`. The
/// text of bytes that are valid UTF-8 is what they encode; what the call
/// puts in place of other bytes is left to it.
#[verifier::external_body]
pub(crate) fn decode_lossy(bytes: &[u8]) -> (text: String)
    ensures
        text@ == utf8_lossy(bytes@),
        valid_utf8(bytes@) ==> text@ == decode_utf8(bytes@),
{
    String::from_utf8_lossy(bytes).into_owned()
}

/// The text that `{:?}` makes of a string: the string between double quotes,
/// with what cannot stand there as it is written as an escape.
pub uninterp spec fn debug_text(text: Seq<char>) -> Seq<char>;

/// Formats a string with `{:?}`, which calls `<str as Debug>::fmt`.
#[verifier::external_body]
pub(crate) fn debug_quoted(text: &str) -> (quoted: String)
    ensures
        quoted@ == debug_text(text@),
{
    format!("{:?}", text)
}

/// Calls `String::from_utf8`: the text that the bytes encode where they are
/// valid UTF-8, and an error where they are not.
#[verifier::external_body]
pub(crate) fn decode_strict(bytes: Vec<u8>) -> (r: Result<String, std::string::FromUtf8Error>)
    ensures
        r is Ok <==> valid_utf8(bytes@),
        r matches Ok(text) ==> text@ == decode_utf8(bytes@),
{
    String::from_utf8(bytes)
}

/// Calls `git2::Cred::userpass_plaintext` and reads the new credential's
/// type with `git2::Cred::credtype`. A user name or a password that holds a
/// NUL character is refused before the backend is asked. The backend numbers
/// the type of a credential that is made this way 1.
#[verifier::external_body]
pub(crate) fn cred_userpass_plaintext(username: &str, password: &str) -> (r: Result<
    (git2::Cred, u32),
    git2::Error,
>)
    ensures
        username@.contains('\0') || password@.contains('\0') ==> r is Err,
        r matches Ok(made) ==> made.1 == 1,
{
    let cred = git2::Cred::userpass_plaintext(username, password)?;
    let bits = cred.credtype();
    Ok((cred, bits))
}

/// Calls `git2::Cred::username` and reads the new credential's type with
/// `git2::Cred::credtype`. A user name that holds a NUL character is refused
/// before the backend is asked. The backend numbers the type of a
/// credential that is made this way 32.
#[verifier::external_body]
pub(crate) fn cred_username(username: &str) -> (r: Result<(git2::Cred, u32), git2::Error>)
    ensures
        username@.contains('\0') ==> r is Err,
        r matches Ok(made) ==> made.1 == 32,
{
    let cred = git2::Cred::username(username)?;
    let bits = cred.credtype();
    Ok((cred, bits))
}

/// Calls `git2::Cred::default` and reads the new credential's type with
/// `git2::Cred::credtype`. The backend numbers the type of a credential that
/// is made this way 8.
#[verifier::external_body]
pub(crate) fn cred_default() -> (r: Result<(git2::Cred, u32), git2::Error>)
    ensures
        r matches Ok(made) ==> made.1 == 8,
{
    let cred = git2::Cred::default()?;
    let bits = cred.credtype();
    Ok((cred, bits))
}

/// Calls `git2::Error::message` and takes the message as a `String`. Nothing
/// is stated of it.
#[verifier::external_body]
pub(crate) fn error_message(error: &git2::Error) -> String {
    error.message().to_string()
}

/// Calls `std::sync::mpsc::channel`: the two halves of a new channel.
#[verifier::external_body]
pub(crate) fn std_channel() -> (
    std::sync::mpsc::Sender<(usize, String)>,
    std::sync::mpsc::Receiver<(usize, String)>,
) {
    std::sync::mpsc::channel()
}

/// Calls `std::sync::mpsc::Sender::send` and tells whether the message was
/// taken. That depends on whether the receiving half is still there, so
/// nothing is stated of it.
#[verifier::external_body]
pub(crate) fn std_send(
    sender: &std::sync::mpsc::Sender<(usize, String)>,
    message: (usize, String),
) -> bool {
    sender.send(message).is_ok()
}

/// Calls `tokio::sync::mpsc::unbounded_channel`: the two halves of a new
/// channel.
#[verifier::external_body]
pub(crate) fn tokio_channel() -> (
    tokio::sync::mpsc::UnboundedSender<(usize, String)>,
    tokio::sync::mpsc::UnboundedReceiver<(usize, String)>,
) {
    tokio::sync::mpsc::unbounded_channel()
}

/// Calls `tokio::sync::mpsc::UnboundedSender::send` and tells whether the
/// message was taken. That depends on whether the receiving half is still
/// open, so nothing is stated of it.
#[verifier::external_body]
pub(crate) fn tokio_send(
    sender: &tokio::sync::mpsc::UnboundedSender<(usize, String)>,
    message: (usize, String),
) -> bool {
    sender.send(message).is_ok()
}

} // verus!
