//! The auth interceptor: it decides, before a protected handler
//! runs, whether the request's session belongs to an existing user.
//!
//! The decision is a tagged outcome — forward to the wrapped handler as the
//! resolved user, or short-circuit with a redirect to the sign-in route —
//! so the surrounding request pipeline can wrap handlers of any response
//! shape around it.

use crate::session::{current_user_id, spec_current_user_id, SessionState};
use crate::user::{lemma_find_id_absent, User, UserStore};
use vstd::prelude::*;

verus! {

/// What the interceptor decided for one request.
#[derive(Debug)]
pub enum GateOutcome {
    Allowed { user: User },
    Denied { location: String },
}

/// The interceptor component. One instance serves any number of requests; each
/// call decides one request.
pub struct AuthCheck;

impl AuthCheck {
    /// Decides one request: resolves the session's user id against the
    /// store — exactly one lookup — and forwards exactly when a record
    /// exists. The session is read, never written; a stale or absent id
    /// denies with a redirect to the sign-in route.
    pub fn call(session: &SessionState, store: &UserStore) -> (r: GateOutcome)
        ensures
            match r {
                GateOutcome::Allowed { user } => store.spec_find_by_id(
                    spec_current_user_id(*session),
                ) == Some(user),
                GateOutcome::Denied { location } => store.spec_find_by_id(
                    spec_current_user_id(*session),
                ) is None && location@ == "/signin"@,
            },
    {
        let uid = current_user_id(session);
        match store.find_by_id(uid) {
            Some(user) => GateOutcome::Allowed { user },
            None => GateOutcome::Denied { location: "/signin".to_owned() },
        }
    }
}

/// Law: a request whose session carries no user id is always turned away —
/// in a well-formed store the anonymous id 0 resolves to no record.
pub proof fn lemma_gate_denies_anonymous(session: SessionState, store: UserStore)
    requires
        store.wf(),
        session.user_id is None,
    ensures
        store.spec_find_by_id(spec_current_user_id(session)) is None,
{
    store.lemma_wf_ids_positive();
    lemma_find_id_absent(store@, 0);
}

} // verus!
