//! Failures at startup.
//!
//! These arise once, before any request is served, and are fatal. They are
//! no part of the decision made for a request.

use vstd::prelude::*;
use vstd::string::StringExecFns;

verus! {

/// The HTTP status under which every startup failure is reported:
/// 500 Internal Server Error.
pub const INTERNAL_SERVER_ERROR: u16 = 500;

/// A failure at startup. Each variant holds the cause in words.
#[derive(Debug, PartialEq, Eq)]
pub enum Error {
    /// An environment variable is missing or is not valid.
    EnvVar(String),
    /// The listening address could not be bound.
    Io(String),
}

impl Error {
    /// The message of the failure: what went wrong, a colon, and the cause.
    pub open spec fn text(self) -> Seq<char> {
        match self {
            Error::EnvVar(cause) => "Missing or invalid environment variable: "@ + cause@,
            Error::Io(cause) => "Failed to bind to address: "@ + cause@,
        }
    }

    /// The HTTP status under which the failure is reported.
    pub fn status(&self) -> (status: u16)
        ensures
            status == INTERNAL_SERVER_ERROR,
    {
        match self {
            Error::EnvVar(_) | Error::Io(_) => INTERNAL_SERVER_ERROR,
        }
    }

    /// The message of the failure as a string.
    pub fn message(&self) -> (message: String)
        ensures
            message@ == self.text(),
    {
        match self {
            Error::EnvVar(cause) => {
                let mut message: String = "Missing or invalid environment variable: ".to_string();
                message.append(cause.as_str());
                message
            },
            Error::Io(cause) => {
                let mut message: String = "Failed to bind to address: ".to_string();
                message.append(cause.as_str());
                message
            },
        }
    }
}

} // verus!
