use tg_notify::chat_id::ChatId;
use tg_notify::driver::decide;
use tg_notify::error::Error;
use tg_notify::message_type::{MessageType, ParseModeTag};
use tg_notify::options::Options;
use tg_notify::render::format_msg;
use tg_notify::request::build_request;

#[test]
fn markdown_request_carries_annotation_and_text() {
    let options = Options {
        chat_id: ChatId(12345),
        message_type: MessageType::Markdown,
        silent: false,
    };
    let req = build_request(&options, "hello *world*".to_string());
    assert_eq!(req.chat_id, 12345);
    assert_eq!(req.text, "hello *world*");
    assert_eq!(req.parse_mode, Some(ParseModeTag::MarkdownV2));
}

#[test]
fn plain_request_has_no_annotation() {
    let options = Options {
        chat_id: ChatId(1),
        message_type: MessageType::PlainText,
        silent: false,
    };
    let req = build_request(&options, "hello".to_string());
    assert_eq!(req.parse_mode, None);
}

#[test]
fn piped_text_is_sent_verbatim() {
    let options = Options {
        chat_id: ChatId(1),
        message_type: MessageType::PlainText,
        silent: false,
    };
    let req = build_request(&options, "hi there\n".to_string());
    assert_eq!(req.chat_id, 1);
    assert_eq!(req.text, "hi there\n");
}

#[test]
fn error_messages_name_their_kind() {
    assert_eq!(
        Error::RequestError("boom".to_string()).message(),
        "request error: boom"
    );
    assert_eq!(
        Error::SerdeError("bad value".to_string()).message(),
        "serde error: bad value"
    );
    assert_eq!(
        Error::IoError("closed".to_string()).message(),
        "io error: closed"
    );
}

#[test]
fn silent_failure_prints_nothing_and_exits_nonzero() {
    let action = decide(
        Err(Error::RequestError("connection refused".to_string())),
        true,
    );
    assert_eq!(action.stdout, None);
    assert_eq!(action.stderr, None);
    assert_eq!(action.exit_code, 1);
}

#[test]
fn silent_success_prints_nothing_and_exits_zero() {
    let action = decide(Ok("rendered".to_string()), true);
    assert_eq!(action.stdout, None);
    assert_eq!(action.stderr, None);
    assert_eq!(action.exit_code, 0);
}

#[test]
fn success_goes_to_stdout_only() {
    let action = decide(Ok("rendered".to_string()), false);
    assert_eq!(action.stdout, Some("rendered".to_string()));
    assert_eq!(action.stderr, None);
    assert_eq!(action.exit_code, 0);
}

#[test]
fn failure_goes_to_stderr_only() {
    let action = decide(
        Err(Error::RequestError("connection refused".to_string())),
        false,
    );
    assert_eq!(action.stdout, None);
    assert_eq!(
        action.stderr,
        Some("request error: connection refused".to_string())
    );
    assert_eq!(action.exit_code, 1);
}

#[test]
fn rendered_response_is_pretty_and_parseable() {
    let mut chat = serde_json::Map::new();
    chat.insert(
        "id".to_string(),
        serde_json::Value::Number(serde_json::Number::from(12345i64)),
    );
    let mut obj = serde_json::Map::new();
    obj.insert("chat".to_string(), serde_json::Value::Object(chat));
    obj.insert(
        "text".to_string(),
        serde_json::Value::String("hello *world*".to_string()),
    );
    let payload = serde_json::Value::Object(obj);

    let out = format_msg(&payload).unwrap();
    assert!(out.contains("\"text\": \"hello *world*\""));
    assert!(out.contains("12345"));
    assert!(out.contains('\n'), "output is pretty-printed");
    let back: serde_json::Value = serde_json::from_str(&out).unwrap();
    assert_eq!(back, payload);
}
