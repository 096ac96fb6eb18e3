//! The single outbound send request, derived from the configuration.

use vstd::prelude::*;
use crate::message_type::{spec_parse_mode, ParseModeTag};
use crate::options::Options;

verus! {

/// Exactly what the one send operation carries to the remote service:
/// the destination chat, the message text, and the optional formatting
/// annotation.
#[derive(Debug)]
pub struct OutboundRequest {
    pub chat_id: i64,
    pub text: String,
    pub parse_mode: Option<ParseModeTag>,
}

/// Derives the outbound request from the configuration and the message text.
///
/// The chat identifier and the text are carried over unchanged — the text
/// byte for byte, whether it came from an argument or from standard input —
/// and the annotation is the one the configured format mode selects.
pub fn build_request(options: &Options, text: String) -> (r: OutboundRequest)
    ensures
        r.chat_id == options.chat_id.0,
        r.text@ == text@,
        r.parse_mode == spec_parse_mode(options.message_type),
{
    OutboundRequest {
        chat_id: options.chat_id.0,
        text,
        parse_mode: options.message_type.parse_mode(),
    }
}

} // verus!
