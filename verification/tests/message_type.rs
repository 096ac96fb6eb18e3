use tg_notify::message_type::{MessageType, ParseModeTag};

#[test]
fn accepts_the_three_tokens() {
    assert_eq!(
        MessageType::from_token("plain-text"),
        Some(MessageType::PlainText)
    );
    assert_eq!(
        MessageType::from_token("markdown"),
        Some(MessageType::Markdown)
    );
    assert_eq!(MessageType::from_token("html"), Some(MessageType::Html));
}

#[test]
fn rejects_other_tokens() {
    for s in [
        "", "Plain-Text", "PLAIN-TEXT", "plain_text", "plaintext", "markdownv2",
        "MarkdownV2", "Markdown", "HTML", "htm", "html ", " html", "text",
    ] {
        assert_eq!(MessageType::from_token(s), None, "on {s:?}");
    }
}

#[test]
fn token_round_trips() {
    for m in [
        MessageType::PlainText,
        MessageType::Markdown,
        MessageType::Html,
    ] {
        assert_eq!(MessageType::from_token(m.token()), Some(m));
    }
}

#[test]
fn tokens_are_lowercase_hyphenated() {
    assert_eq!(MessageType::PlainText.token(), "plain-text");
    assert_eq!(MessageType::Markdown.token(), "markdown");
    assert_eq!(MessageType::Html.token(), "html");
}

#[test]
fn parse_mode_annotation() {
    assert_eq!(MessageType::PlainText.parse_mode(), None);
    assert_eq!(
        MessageType::Markdown.parse_mode(),
        Some(ParseModeTag::MarkdownV2)
    );
    assert_eq!(MessageType::Html.parse_mode(), Some(ParseModeTag::Html));
}

#[test]
fn annotation_text() {
    assert_eq!(ParseModeTag::MarkdownV2.as_str(), "MarkdownV2");
    assert_eq!(ParseModeTag::Html.as_str(), "HTML");
}
