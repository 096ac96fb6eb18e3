//! Where the message text comes from: a command-line argument or standard
//! input. Exactly one mode is picked per invocation, while the arguments
//! are parsed.

use vstd::prelude::*;
use crate::error::Error;

verus! {

/// The source of the message body: text handed over on the command line,
/// or the whole of standard input read to its end.
#[derive(Debug, Clone)]
pub enum MessageSource {
    Argument(String),
    Stdin,
}

impl MessageSource {
    /// Whether resolving this source requires reading standard input.
    pub fn needs_stdin(&self) -> (r: bool)
        ensures
            r == (*self is Stdin),
    {
        match self {
            MessageSource::Argument(_) => false,
            MessageSource::Stdin => true,
        }
    }
}

/// Picks the message source from the optional positional argument: text
/// given on the command line wins, and standard input is read when no text
/// was given.
pub fn select_source(message: Option<String>) -> (r: MessageSource)
    ensures
        message matches Some(t) ==> (r matches MessageSource::Argument(u) && u@ == t@),
        message is None ==> r is Stdin,
{
    match message {
        Some(t) => MessageSource::Argument(t),
        None => MessageSource::Stdin,
    }
}

/// Resolves the message text from the chosen source.
///
/// An argument passes through verbatim, whatever the stdin read did; the
/// stdin source yields exactly the text that was read, or an input-read
/// error carrying the reader's diagnostic.
pub fn resolve_message(source: MessageSource, stdin_read: Result<String, String>) -> (r: Result<
    String,
    Error,
>)
    ensures
        source matches MessageSource::Argument(t) ==> (r matches Ok(u) && u@ == t@),
        source is Stdin ==> ((stdin_read matches Ok(t) ==> (r matches Ok(u) && u@ == t@)) && (
        stdin_read matches Err(e) ==> (r matches Err(err) && err matches Error::IoError(m) && m@
            == e@))),
{
    match source {
        MessageSource::Argument(t) => Ok(t),
        MessageSource::Stdin => match stdin_read {
            Ok(t) => Ok(t),
            Err(e) => Err(Error::IoError(e)),
        },
    }
}

} // verus!
