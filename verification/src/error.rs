//! The failures that end an invocation, and their one-line diagnostics.

use vstd::prelude::*;
use vstd::string::StringExecFns;

verus! {

/// A terminal failure: the remote call failed, the response could not be
/// rendered, or the message body could not be read. Each variant carries the
/// underlying diagnostic text.
#[derive(Debug)]
pub enum Error {
    RequestError(String),
    SerdeError(String),
    IoError(String),
}

/// The one-line diagnostic an error is reported with.
pub open spec fn error_message_view(e: Error) -> Seq<char> {
    match e {
        Error::RequestError(s) => "request error: "@ + s@,
        Error::SerdeError(s) => "serde error: "@ + s@,
        Error::IoError(s) => "io error: "@ + s@,
    }
}

impl Error {
    /// Renders the diagnostic line for this error: a fixed kind prefix
    /// followed by the underlying text.
    pub fn message(&self) -> (r: String)
        ensures
            r@ == error_message_view(*self),
    {
        match self {
            Error::RequestError(s) => {
                let mut m = String::from_str("request error: ");
                m.append(s.as_str());
                m
            },
            Error::SerdeError(s) => {
                let mut m = String::from_str("serde error: ");
                m.append(s.as_str());
                m
            },
            Error::IoError(s) => {
                let mut m = String::from_str("io error: ");
                m.append(s.as_str());
                m
            },
        }
    }
}

} // verus!
