//! The per-request session and the one-shot flash message channel.
//!
//! The hosting framework keeps the session in a signed cookie; of its keys
//! exactly two matter here, so the session is modelled as a pair: the signed
//! in user's id, and the pending flash message. Reading the message is
//! destructive in every mode: at most one pending message exists, and it is
//! delivered at most once.

use crate::user::{User, UserStore};
use vstd::prelude::*;

verus! {

/// A one-shot message pending in the session: a bare text, a structured
/// error/success pair, or an explicit null value.
#[derive(Debug)]
pub enum FlashMessage {
    PlainText(String),
    Structured { error: String, success: String },
    Null,
}

/// What this crate reads of a request's session.
#[derive(Debug)]
pub struct SessionState {
    pub user_id: Option<i32>,
    pub message: Option<FlashMessage>,
}

impl SessionState {
    /// A fresh, anonymous session with no pending message.
    pub fn new() -> (r: SessionState)
        ensures
            r.user_id is None,
            r.message is None,
    {
        SessionState { user_id: None, message: None }
    }
}

/// The id of the signed-in user; 0 when the session carries none.
pub open spec fn spec_current_user_id(s: SessionState) -> i32 {
    match s.user_id {
        Some(id) => id,
        None => 0,
    }
}

/// The session after a message was written: the write overwrites any
/// pending message unconditionally.
pub open spec fn spec_set_message(s: SessionState, m: FlashMessage) -> SessionState {
    SessionState { user_id: s.user_id, message: Some(m) }
}

/// The text a plain-text read delivers: the pending bare text, or the empty
/// string when none is pending or the pending value is not a bare text.
pub open spec fn spec_plain_read(m: Option<FlashMessage>) -> Seq<char> {
    match m {
        Some(FlashMessage::PlainText(t)) => t@,
        _ => Seq::<char>::empty(),
    }
}

/// The status tag and text a structured read delivers.
///
/// A pending pair whose error field is non-empty is delivered as that error.
/// A pair whose success field alone is non-empty is still delivered under
/// the "error" tag with the (empty) error text — a deliberate quirk that
/// clients of this channel rely on, preserved here rather than silently
/// corrected. Everything else reads as success with empty text.
pub open spec fn spec_structured_read(m: Option<FlashMessage>) -> (Seq<char>, Seq<char>) {
    match m {
        Some(FlashMessage::Structured { error, success }) => {
            if error@.len() > 0 {
                ("error"@, error@)
            } else if success@.len() > 0 {
                ("error"@, error@)
            } else {
                ("success"@, Seq::<char>::empty())
            }
        },
        _ => ("success"@, Seq::<char>::empty()),
    }
}

/// A full plain-text read: the session afterwards, the status, the text.
pub open spec fn spec_read_plain(s: SessionState) -> (SessionState, Seq<char>, Seq<char>) {
    (
        SessionState { user_id: s.user_id, message: None },
        "success"@,
        spec_plain_read(s.message),
    )
}

/// A full structured read: the session afterwards, the status, the text.
pub open spec fn spec_read_structured(s: SessionState) -> (SessionState, Seq<char>, Seq<char>) {
    (
        SessionState { user_id: s.user_id, message: None },
        spec_structured_read(s.message).0,
        spec_structured_read(s.message).1,
    )
}

/// The id of the signed-in user, 0 when the session carries none.
pub fn current_user_id(session: &SessionState) -> (r: i32)
    ensures
        r == spec_current_user_id(*session),
{
    match session.user_id {
        Some(id) => id,
        None => 0,
    }
}

/// Reads and consumes the pending flash message, in plain-text mode
/// (`is_json` false) or structured mode (`is_json` true). The read is
/// destructive in both modes, whatever was pending.
pub fn get_session_message(session: &mut SessionState, is_json: bool) -> (r: (String, String))
    ensures
        ({
            let (after, status, text) = if is_json {
                spec_read_structured(*old(session))
            } else {
                spec_read_plain(*old(session))
            };
            *final(session) == after && r.0@ == status && r.1@ == text
        }),
{
    let r: (String, String) = if !is_json {
        let text: String = match &session.message {
            Some(FlashMessage::PlainText(t)) => t.clone(),
            _ => String::new(),
        };
        ("success".to_owned(), text)
    } else {
        match &session.message {
            Some(FlashMessage::Structured { error, success }) => {
                if !error.as_str().is_empty() {
                    ("error".to_owned(), error.clone())
                } else if !success.as_str().is_empty() {
                    ("error".to_owned(), error.clone())
                } else {
                    ("success".to_owned(), String::new())
                }
            },
            _ => ("success".to_owned(), String::new()),
        }
    };
    session.message = None;
    r
}

/// Writes a flash message, overwriting any pending one.
pub fn set_message(session: &mut SessionState, message: FlashMessage)
    ensures
        *final(session) == spec_set_message(*old(session), message),
{
    session.message = Some(message);
}

/// Marks the session as signed in as `user_id`.
pub fn set_authenticated(session: &mut SessionState, user_id: i32)
    ensures
        final(session).user_id == Some(user_id),
        final(session).message == old(session).message,
{
    session.user_id = Some(user_id);
}

/// Signs the session out and leaves a signed-out notice as the flash
/// message.
pub fn clear_authenticated(session: &mut SessionState)
    ensures
        final(session).user_id is None,
        final(session).message matches Some(FlashMessage::PlainText(t)) && t@
            == "You have been signed out"@,
{
    session.user_id = None;
    session.message = Some(FlashMessage::PlainText("You have been signed out".to_owned()));
}

/// Whether the session's user id resolves to an existing record.
pub fn is_authenticated(session: &SessionState, store: &UserStore) -> (r: bool)
    ensures
        r == (store.spec_find_by_id(spec_current_user_id(*session)) is Some),
{
    let uid = current_user_id(session);
    match store.find_by_id(uid) {
        Some(_) => true,
        None => false,
    }
}

/// The record the session's user id resolves to, if any: `None` both for an
/// anonymous session and for a stale id.
pub fn get_session_user(session: &SessionState, store: &UserStore) -> (r: Option<User>)
    ensures
        r == store.spec_find_by_id(spec_current_user_id(*session)),
{
    let uid = current_user_id(session);
    store.find_by_id(uid)
}

/// Law: a plain-text flash message round-trips — written, it is delivered
/// once with status "success" and its own text, and a second read delivers
/// the empty text; the signed-in user is untouched throughout.
pub proof fn lemma_plain_flash_round_trip(s: SessionState, x: String)
    ensures
        ({
            let s1 = spec_set_message(s, FlashMessage::PlainText(x));
            let (s2, status1, text1) = spec_read_plain(s1);
            let (s3, status2, text2) = spec_read_plain(s2);
            &&& status1 == "success"@ && text1 == x@
            &&& status2 == "success"@ && text2 == Seq::<char>::empty()
            &&& s3.user_id == s.user_id && s3.message is None
        }),
{
}

/// Law: a structured flash message with a non-empty error field round-trips
/// — written, it is delivered once with status "error" and the error text,
/// and a second read delivers success with the empty text.
pub proof fn lemma_structured_flash_round_trip(s: SessionState, error: String, success: String)
    requires
        error@.len() > 0,
    ensures
        ({
            let s1 = spec_set_message(s, FlashMessage::Structured { error, success });
            let (s2, status1, text1) = spec_read_structured(s1);
            let (s3, status2, text2) = spec_read_structured(s2);
            &&& status1 == "error"@ && text1 == error@
            &&& status2 == "success"@ && text2 == Seq::<char>::empty()
            &&& s3.user_id == s.user_id && s3.message is None
        }),
{
}

/// Law: a written null message reads as success with the empty text.
pub proof fn lemma_null_flash(s: SessionState)
    ensures
        ({
            let (s2, status, text) = spec_read_structured(spec_set_message(s, FlashMessage::Null));
            status == "success"@ && text == Seq::<char>::empty() && s2.message is None
        }),
{
}

} // verus!
