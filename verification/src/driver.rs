//! The top-level decision: what the process prints and how it exits, given
//! the outcome of the send-and-render pipeline and the silent flag.

use vstd::prelude::*;
use crate::error::{error_message_view, Error};

verus! {

/// What the process does on its way out: at most one line on one stream,
/// and an exit status.
#[derive(Debug)]
pub struct Action {
    pub stdout: Option<String>,
    pub stderr: Option<String>,
    pub exit_code: i32,
}

/// Decides the process's final action from the pipeline's outcome.
///
/// Success puts the rendered message on standard output and exits with 0;
/// failure puts the error's diagnostic line on standard error and exits
/// with 1. The silent flag suppresses both streams and nothing else: the
/// exit status still tells the outcomes apart.
pub fn decide(outcome: Result<String, Error>, silent: bool) -> (r: Action)
    ensures
        r.exit_code == if outcome is Ok {
            0int
        } else {
            1int
        },
        silent ==> r.stdout is None && r.stderr is None,
        outcome matches Ok(m) ==> r.stderr is None && (!silent ==> (r.stdout matches Some(t)
            && t@ == m@)),
        outcome matches Err(e) ==> r.stdout is None && (!silent ==> (r.stderr matches Some(t)
            && t@ == error_message_view(e))),
{
    match outcome {
        Ok(m) => {
            if silent {
                Action { stdout: None, stderr: None, exit_code: 0 }
            } else {
                Action { stdout: Some(m), stderr: None, exit_code: 0 }
            }
        },
        Err(e) => {
            if silent {
                Action { stdout: None, stderr: None, exit_code: 1 }
            } else {
                Action { stdout: None, stderr: Some(e.message()), exit_code: 1 }
            }
        },
    }
}

} // verus!
