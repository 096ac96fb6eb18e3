//! The configuration a single invocation runs with.

use vstd::prelude::*;
use crate::chat_id::ChatId;
use crate::message_type::MessageType;

verus! {

/// One invocation's configuration: where to send, how to format, and whether
/// the tool's own output is suppressed. Built once from the arguments and
/// immutable afterwards.
#[derive(Debug, Clone, Copy, PartialEq, Eq, Structural)]
pub struct Options {
    pub chat_id: ChatId,
    pub message_type: MessageType,
    pub silent: bool,
}

} // verus!
