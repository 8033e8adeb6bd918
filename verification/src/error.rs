//! The library's error type. Every field is a plain value; the text of an underlying
//! operating-system or decoding failure is carried as a message.
use vstd::prelude::*;

verus! {

#[derive(Debug)]
pub enum HawkError {
    Validation(String),
    StateDirectoryUnavailable,
    Io { operation: String, path: String, message: String },
    InvalidState { record: String, message: String },
    UnsupportedVersion { record: String, found: u32, expected: u32 },
    DaemonAlreadyRunning,
    NetbirdNotFound,
    NetbirdTimeout { operation: String },
    NetbirdCommand { operation: String, exit_code: Option<i32> },
    NetbirdStatus(String),
    Launch(String),
    AcknowledgementTimeout { operation: String, guidance: String },
    Logging(String),
}

/// A `Validation` error carrying `message`.
pub open spec fn is_validation(e: HawkError, message: Seq<char>) -> bool {
    e matches HawkError::Validation(m) && m@ == message
}

pub fn validation_error(message: &str) -> (e: HawkError)
    ensures
        is_validation(e, message@),
{
    HawkError::Validation(String::from_str(message))
}

} // verus!

verus! {

/// `r` failed with a `Validation` error carrying `message`.
pub open spec fn fails_validation<T>(r: Result<T, HawkError>, message: Seq<char>) -> bool {
    match r {
        Err(e) => is_validation(e, message),
        Ok(_) => false,
    }
}

/// `r` failed with the message `message`.
pub open spec fn fails_with_text<T>(r: Result<T, String>, message: Seq<char>) -> bool {
    match r {
        Err(m) => m@ == message,
        Ok(_) => false,
    }
}

/// `r` failed as an unsupported schema version of `record`, found `found`.
pub open spec fn fails_version<T>(r: Result<T, HawkError>, record: Seq<char>, found: u32) -> bool {
    match r {
        Err(HawkError::UnsupportedVersion { record: rec, found: f, expected }) => rec@ == record
            && f == found && expected == 1,
        _ => false,
    }
}

} // verus!
