use tg_notify::message_source::{resolve_message, select_source, MessageSource};

#[test]
fn argument_text_wins_and_passes_verbatim() {
    let source = select_source(Some("hello *world*".to_string()));
    assert!(matches!(source, MessageSource::Argument(_)));
    assert!(!source.needs_stdin());
    let r = resolve_message(source, Ok("ignored".to_string()));
    assert_eq!(r.unwrap(), "hello *world*");
}

#[test]
fn omitted_argument_selects_stdin() {
    let source = select_source(None);
    assert!(matches!(source, MessageSource::Stdin));
    assert!(source.needs_stdin());
}

#[test]
fn stdin_text_passes_verbatim() {
    let r = resolve_message(select_source(None), Ok("hi there\n".to_string()));
    assert_eq!(r.unwrap(), "hi there\n");
}

#[test]
fn stdin_failure_becomes_io_error() {
    let r = resolve_message(select_source(None), Err("closed".to_string()));
    match r {
        Err(e) => assert_eq!(e.message(), "io error: closed"),
        Ok(_) => panic!("expected an input-read error"),
    }
}

#[test]
fn argument_ignores_stdin_failure() {
    let source = select_source(Some("hi".to_string()));
    let r = resolve_message(source, Err("closed".to_string()));
    assert_eq!(r.unwrap(), "hi");
}
