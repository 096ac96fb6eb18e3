//! Verified core of a small notifier tool: it parses a chat identifier and a
//! format-mode token into a configuration, picks the message source (a
//! command-line argument or standard input) and resolves the text from it,
//! derives the single outbound send request, renders the response payload,
//! and decides what the process prints and with which status it exits.

pub mod chat_id;
pub mod driver;
pub mod error;
pub mod message_source;
pub mod message_type;
pub mod options;
pub mod render;
pub mod request;
pub mod strutil;
