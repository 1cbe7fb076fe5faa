//! The public home page: shows whether the visitor is signed in and the
//! pending plain-text flash message, if any.

use crate::session::{
    get_session_message, is_authenticated, spec_current_user_id, spec_read_plain, SessionState,
};
use crate::user::UserStore;
use vstd::prelude::*;

verus! {

/// What the home page needs from one request.
#[derive(Debug)]
pub struct HomePage {
    pub authenticated: bool,
    pub message: String,
}

/// Decides the home page for one request: reports whether the session
/// resolves to a user and consumes one plain-text flash message.
pub fn home(session: &mut SessionState, store: &UserStore) -> (r: HomePage)
    ensures
        r.authenticated == (store.spec_find_by_id(spec_current_user_id(*old(session))) is Some),
        ({
            let (after, status, text) = spec_read_plain(*old(session));
            *final(session) == after && r.message@ == text
        }),
{
    let authenticated = is_authenticated(session, store);
    let session_message = get_session_message(session, false);
    HomePage { authenticated, message: session_message.1 }
}

} // verus!
