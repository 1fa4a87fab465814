//! The daemon's error type, its numeric codes and its messages.
//!
//! Errors that come from other subsystems carry the text of the underlying
//! error, which is also what they print.

use crate::protocol::ErrorPayload;
use crate::text::{chars_of, push_str, string_of};
use vstd::prelude::*;

verus! {

broadcast use vstd::string::group_string_axioms;

/// An error of the daemon.
#[derive(Debug, Clone)]
pub enum Error {
    /// An I/O error, with its text.
    Io(String),
    /// Setting up tracing failed.
    Tracing(String),
    /// Setting up logging failed.
    Logging(String),
    /// Any other failure, with its text.
    Generic(String),
    /// A command needed a payload and none came.
    ExpectedPayload,
    /// The payload of a command could not be decoded.
    FailedToGetPayload,
    /// Reading the configuration failed.
    Config(String),
    /// The socket configuration does not fit the platform.
    InvalidSocket { message: String, got: String, expected: String },
    /// A one-shot channel was closed before the send.
    OneShotSend(String),
    /// A task could not be joined.
    JoinHandle(String),
    /// Taking a lock would have deadlocked.
    LockError,
    /// Loading an environment file failed.
    Dotenv(String),
}

/// The numeric code of an error: 4 for I/O, 5 tracing, 6 logging, 8
/// generic, 9 missing payload, 10 undecodable payload, 11 configuration, 13
/// channel send, and `0xFFFF` for the rest.
pub open spec fn error_code(e: Error) -> u32 {
    match e {
        Error::Io(_) => 4,
        Error::Tracing(_) => 5,
        Error::Logging(_) => 6,
        Error::Generic(_) => 8,
        Error::ExpectedPayload => 9,
        Error::FailedToGetPayload => 10,
        Error::Config(_) => 11,
        Error::OneShotSend(_) => 13,
        _ => 0xFFFF,
    }
}

/// The message of an error: the wrapped text, or the fixed message of the
/// variant.
pub open spec fn error_text(e: Error) -> Seq<char> {
    match e {
        Error::Io(m) => m@,
        Error::Tracing(m) => m@,
        Error::Logging(m) => m@,
        Error::Generic(m) => m@,
        Error::ExpectedPayload => "Expected a payload to be present"@,
        Error::FailedToGetPayload => "Failed to parse payload"@,
        Error::Config(m) => m@,
        Error::InvalidSocket { message, got, expected } => "Invalid Socket configuration, "@
            + message@ + ". Found `"@ + got@ + "` but expected `"@ + expected@ + "`"@,
        Error::OneShotSend(m) => m@,
        Error::JoinHandle(m) => m@,
        Error::LockError => "Would deadlock"@,
        Error::Dotenv(m) => m@,
    }
}

impl Error {
    /// The numeric code of the error, for clients and logs.
    pub fn kind(&self) -> (r: u32)
        ensures
            r == error_code(*self),
    {
        match self {
            Error::Io(_) => 4,
            Error::Tracing(_) => 5,
            Error::Logging(_) => 6,
            Error::Generic(_) => 8,
            Error::ExpectedPayload => 9,
            Error::FailedToGetPayload => 10,
            Error::Config(_) => 11,
            Error::OneShotSend(_) => 13,
            _ => 0xFFFF,
        }
    }

    /// The message of the error.
    pub fn message(&self) -> (r: String)
        ensures
            r@ == error_text(*self),
    {
        match self {
            Error::Io(m) => copy_of(m),
            Error::Tracing(m) => copy_of(m),
            Error::Logging(m) => copy_of(m),
            Error::Generic(m) => copy_of(m),
            Error::ExpectedPayload => copy_of_str("Expected a payload to be present"),
            Error::FailedToGetPayload => copy_of_str("Failed to parse payload"),
            Error::Config(m) => copy_of(m),
            Error::InvalidSocket { message, got, expected } => {
                let mut v: Vec<char> = Vec::new();
                push_str(&mut v, "Invalid Socket configuration, ");
                push_str(&mut v, message.as_str());
                push_str(&mut v, ". Found `");
                push_str(&mut v, got.as_str());
                push_str(&mut v, "` but expected `");
                push_str(&mut v, expected.as_str());
                push_str(&mut v, "`");
                string_of(v.as_slice())
            },
            Error::OneShotSend(m) => copy_of(m),
            Error::JoinHandle(m) => copy_of(m),
            Error::LockError => copy_of_str("Would deadlock"),
            Error::Dotenv(m) => copy_of(m),
        }
    }

    /// The payload that reports the error to a client: its code and its
    /// message, with no details.
    pub fn to_payload(&self) -> (r: ErrorPayload)
        ensures
            r.code == error_code(*self),
            r.message@ == error_text(*self),
            r.details is None,
    {
        ErrorPayload { code: self.kind(), message: self.message(), details: None }
    }
}

/// A generic error with the given text.
pub fn generic(text: &str) -> (r: Error)
    ensures
        r matches Error::Generic(m) && m@ == text@,
{
    Error::Generic(copy_of_str(text))
}

fn copy_of(s: &String) -> (r: String)
    ensures
        r@ == s@,
{
    copy_of_str(s.as_str())
}

fn copy_of_str(s: &str) -> (r: String)
    ensures
        r@ == s@,
{
    string_of(chars_of(s).as_slice())
}

/// The position of an error's variant in the declaration.
pub open spec fn variant_index(e: Error) -> int {
    match e {
        Error::Io(_) => 0,
        Error::Tracing(_) => 1,
        Error::Logging(_) => 2,
        Error::Generic(_) => 3,
        Error::ExpectedPayload => 4,
        Error::FailedToGetPayload => 5,
        Error::Config(_) => 6,
        Error::InvalidSocket { .. } => 7,
        Error::OneShotSend(_) => 8,
        Error::JoinHandle(_) => 9,
        Error::LockError => 10,
        Error::Dotenv(_) => 11,
    }
}

/// Each numbered error code belongs to one variant only: two errors with the
/// same code other than `0xFFFF` are of the same variant.
pub proof fn law_error_codes_identify_variant(a: Error, b: Error)
    ensures
        error_code(a) != 0xFFFF && error_code(a) == error_code(b) ==> variant_index(a)
            == variant_index(b),
{
}

} // verus!
