//! What becomes of a command once it has run: whether it succeeded, and the
//! text that it printed.
use vstd::prelude::*;
use vstd::utf8::{decode_utf8, valid_utf8};

verus! {

/// `std::io::Error`, the error of a command that could not be started. Its
/// content is not looked into.
#[verifier::external_type_specification]
#[verifier::external_body]
pub struct ExIoError(std::io::Error);

/// `std::string::FromUtf8Error`, the error of output that is no UTF-8. Its
/// content is not looked into.
#[verifier::external_type_specification]
#[verifier::external_body]
pub struct ExFromUtf8Error(std::string::FromUtf8Error);

/// Why a command gave no output to read.
#[derive(Debug)]
#[allow(inconsistent_fields)]
pub enum ExecuteError {
    /// The command could not be started.
    Io { source: std::io::Error },
    /// The command printed bytes that are no UTF-8.
    Parse { source: std::string::FromUtf8Error },
    /// The command ended with this exit code, which reports a failure.
    CommandErrorCode { code: i32 },
    /// The command failed without an exit code.
    CommandError,
}

/// What a command that ran to its end has left: whether it reported success,
/// its exit code if it has one, and the bytes that it printed.
#[derive(Debug)]
pub struct Finished {
    pub success: bool,
    pub code: Option<i32>,
    pub stdout: Vec<u8>,
}

/// Fails unless the command reported success. The error holds the exit code
/// if there is one.
pub fn check_for_success(success: bool, code: Option<i32>) -> (r: Result<(), ExecuteError>)
    ensures
        success ==> r is Ok,
        !success ==> r is Err && match code {
            Some(code) => r->Err_0 == (ExecuteError::CommandErrorCode { code }),
            None => r->Err_0 == ExecuteError::CommandError,
        },
{
    if success {
        return Ok(());
    }
    match code {
        Some(code) => Err(ExecuteError::CommandErrorCode { code }),
        None => Err(ExecuteError::CommandError),
    }
}

/// Calls `String::from_utf8`, which hands the bytes back as a `String` if
/// they are valid UTF-8 and fails if they are not. The text holds the
/// characters that the bytes encode.
#[verifier::external_body]
fn text_from_utf8(bytes: Vec<u8>) -> (r: Result<String, std::string::FromUtf8Error>)
    ensures
        r is Ok <==> valid_utf8(bytes@),
        r is Ok ==> r->Ok_0@ == decode_utf8(bytes@),
{
    String::from_utf8(bytes)
}

/// The text that a command printed. Fails where the command could not be
/// started, where it did not report success, and where what it printed is no
/// UTF-8: in this order.
pub fn output_text(launched: Result<Finished, std::io::Error>) -> (r: Result<String, ExecuteError>)
    ensures
        match launched {
            Err(source) => r is Err && r->Err_0 == (ExecuteError::Io { source }),
            Ok(finished) => if !finished.success {
                r is Err && match finished.code {
                    Some(code) => r->Err_0 == (ExecuteError::CommandErrorCode { code }),
                    None => r->Err_0 == ExecuteError::CommandError,
                }
            } else if valid_utf8(finished.stdout@) {
                r is Ok && r->Ok_0@ == decode_utf8(finished.stdout@)
            } else {
                r is Err && r->Err_0 is Parse
            },
        },
{
    let finished = match launched {
        Ok(finished) => finished,
        Err(source) => {
            return Err(ExecuteError::from(source));
        },
    };
    match check_for_success(finished.success, finished.code) {
        Ok(()) => {},
        Err(error) => {
            return Err(error);
        },
    }
    match text_from_utf8(finished.stdout) {
        Ok(text) => Ok(text),
        Err(source) => Err(ExecuteError::from(source)),
    }
}

impl From<std::io::Error> for ExecuteError {
    fn from(source: std::io::Error) -> (r: Self) {
        ExecuteError::Io { source }
    }
}

impl vstd::std_specs::convert::FromSpecImpl<std::io::Error> for ExecuteError {
    open spec fn obeys_from_spec() -> bool {
        true
    }

    open spec fn from_spec(source: std::io::Error) -> Self {
        ExecuteError::Io { source }
    }
}

impl From<std::string::FromUtf8Error> for ExecuteError {
    fn from(source: std::string::FromUtf8Error) -> (r: Self) {
        ExecuteError::Parse { source }
    }
}

impl vstd::std_specs::convert::FromSpecImpl<std::string::FromUtf8Error> for ExecuteError {
    open spec fn obeys_from_spec() -> bool {
        true
    }

    open spec fn from_spec(source: std::string::FromUtf8Error) -> Self {
        ExecuteError::Parse { source }
    }
}

} // verus!
