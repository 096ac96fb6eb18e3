//! The format mode of an outbound message and its mapping to the wire-level
//! formatting annotation.

use vstd::prelude::*;
use crate::strutil::str_eq;

verus! {

broadcast use vstd::string::group_string_axioms;

/// How the remote service is to interpret the message text.
#[derive(Debug, Clone, Copy, PartialEq, Eq, Structural)]
pub enum MessageType {
    PlainText,
    Markdown,
    Html,
}

/// The wire-level formatting annotation attached to a send request.
#[derive(Debug, Clone, Copy, PartialEq, Eq, Structural)]
pub enum ParseModeTag {
    MarkdownV2,
    Html,
}

/// The command-line token that selects a format mode.
pub open spec fn token_view(m: MessageType) -> Seq<char> {
    match m {
        MessageType::PlainText => "plain-text"@,
        MessageType::Markdown => "markdown"@,
        MessageType::Html => "html"@,
    }
}

/// Which format mode, if any, a command-line token selects.
pub open spec fn spec_from_token(s: Seq<char>) -> Option<MessageType> {
    if s == "plain-text"@ {
        Some(MessageType::PlainText)
    } else if s == "markdown"@ {
        Some(MessageType::Markdown)
    } else if s == "html"@ {
        Some(MessageType::Html)
    } else {
        None
    }
}

/// The annotation a format mode puts on the outbound request: none for plain
/// text, the Markdown-V2 marker for Markdown, the HTML marker for HTML.
pub open spec fn spec_parse_mode(m: MessageType) -> Option<ParseModeTag> {
    match m {
        MessageType::PlainText => None,
        MessageType::Markdown => Some(ParseModeTag::MarkdownV2),
        MessageType::Html => Some(ParseModeTag::Html),
    }
}

/// The exact text of a wire-level formatting annotation.
pub open spec fn parse_mode_view(t: ParseModeTag) -> Seq<char> {
    match t {
        ParseModeTag::MarkdownV2 => "MarkdownV2"@,
        ParseModeTag::Html => "HTML"@,
    }
}

impl MessageType {
    /// Reads a format mode from its command-line token; exactly the three
    /// lowercase-hyphenated spellings are accepted.
    pub fn from_token(s: &str) -> (r: Option<MessageType>)
        ensures
            r == spec_from_token(s@),
    {
        if str_eq(s, "plain-text") {
            Some(MessageType::PlainText)
        } else if str_eq(s, "markdown") {
            Some(MessageType::Markdown)
        } else if str_eq(s, "html") {
            Some(MessageType::Html)
        } else {
            None
        }
    }

    /// The command-line token for this format mode.
    pub fn token(&self) -> (r: &'static str)
        ensures
            r@ == token_view(*self),
    {
        match self {
            MessageType::PlainText => "plain-text",
            MessageType::Markdown => "markdown",
            MessageType::Html => "html",
        }
    }

    /// The formatting annotation this mode attaches to the outbound request.
    pub fn parse_mode(&self) -> (r: Option<ParseModeTag>)
        ensures
            r == spec_parse_mode(*self),
    {
        match self {
            MessageType::PlainText => None,
            MessageType::Markdown => Some(ParseModeTag::MarkdownV2),
            MessageType::Html => Some(ParseModeTag::Html),
        }
    }
}

impl ParseModeTag {
    /// The exact text the remote service expects for this annotation.
    pub fn as_str(&self) -> (r: &'static str)
        ensures
            r@ == parse_mode_view(*self),
    {
        match self {
            ParseModeTag::MarkdownV2 => "MarkdownV2",
            ParseModeTag::Html => "HTML",
        }
    }
}

/// Each format mode's token reads back as that mode: the token set and the
/// parser agree.
pub proof fn lemma_token_round_trip(m: MessageType)
    ensures
        spec_from_token(token_view(m)) == Some(m),
{
    reveal_strlit("plain-text");
    reveal_strlit("markdown");
    reveal_strlit("html");
    assert("plain-text"@.len() == 10);
    assert("markdown"@.len() == 8);
    assert("html"@.len() == 4);
}

} // verus!
