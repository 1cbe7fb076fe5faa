use authcore::session::{get_session_message, set_message, FlashMessage, SessionState};

#[test]
fn test_plain_flash_round_trip() {
    let mut session = SessionState::new();
    set_message(&mut session, FlashMessage::PlainText("x".to_string()));

    let first = get_session_message(&mut session, false);
    assert_eq!(first, ("success".to_string(), "x".to_string()));

    // The message is consumed exactly once.
    let second = get_session_message(&mut session, false);
    assert_eq!(second, ("success".to_string(), "".to_string()));
}

#[test]
fn test_structured_flash_error() {
    let mut session = SessionState::new();
    set_message(&mut session, FlashMessage::Structured {
        error: "bad".to_string(),
        success: "".to_string(),
    });

    let first = get_session_message(&mut session, true);
    assert_eq!(first, ("error".to_string(), "bad".to_string()));

    let second = get_session_message(&mut session, true);
    assert_eq!(second, ("success".to_string(), "".to_string()));
}

#[test]
fn test_structured_flash_null() {
    let mut session = SessionState::new();
    set_message(&mut session, FlashMessage::Null);

    let read = get_session_message(&mut session, true);
    assert_eq!(read, ("success".to_string(), "".to_string()));
}

#[test]
fn test_structured_flash_success_field_keeps_error_tag() {
    // A pair whose success field alone is non-empty is still reported under
    // the "error" tag with the (empty) error text.
    let mut session = SessionState::new();
    set_message(&mut session, FlashMessage::Structured {
        error: "".to_string(),
        success: "it worked".to_string(),
    });

    let read = get_session_message(&mut session, true);
    assert_eq!(read, ("error".to_string(), "".to_string()));
}

#[test]
fn test_plain_read_of_structured_message_is_empty() {
    let mut session = SessionState::new();
    set_message(&mut session, FlashMessage::Structured {
        error: "bad".to_string(),
        success: "".to_string(),
    });

    let read = get_session_message(&mut session, false);
    assert_eq!(read, ("success".to_string(), "".to_string()));

    // The read was destructive all the same.
    let second = get_session_message(&mut session, true);
    assert_eq!(second, ("success".to_string(), "".to_string()));
}

#[test]
fn test_structured_read_of_plain_message_is_empty() {
    let mut session = SessionState::new();
    set_message(&mut session, FlashMessage::PlainText("hello".to_string()));

    let read = get_session_message(&mut session, true);
    assert_eq!(read, ("success".to_string(), "".to_string()));
}

#[test]
fn test_last_write_wins() {
    let mut session = SessionState::new();
    set_message(&mut session, FlashMessage::PlainText("first".to_string()));
    set_message(&mut session, FlashMessage::PlainText("second".to_string()));

    let read = get_session_message(&mut session, false);
    assert_eq!(read, ("success".to_string(), "second".to_string()));
}
