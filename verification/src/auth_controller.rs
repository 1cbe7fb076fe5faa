//! Sign-in and sign-out: the use-case that ties credential validation, the
//! session identity and the flash channel together.
//!
//! Each handler here is the framework-free decision for one request; the
//! surrounding application extracts the form body and session, calls the
//! handler, and turns the returned [`Response`] into an HTTP response.

use crate::form::{get_from_form_body, spec_form_field};
use crate::response::Response;
use crate::session::{
    get_session_message, is_authenticated, set_authenticated, set_message, spec_current_user_id,
    spec_read_structured, FlashMessage, SessionState,
};
use crate::user::UserStore;
use crate::user_service::{validate_user_credentials, spec_validate, UserValidationResult};
use vstd::pervasive::unreached;
use vstd::prelude::*;

verus! {

/// Renders the sign-in page, or sends a signed-in visitor on to the
/// protected area. An anonymous visitor consumes one structured flash
/// message, whose text the page shows.
pub fn signin(session: &mut SessionState, store: &UserStore) -> (r: Response)
    ensures
        store.spec_find_by_id(spec_current_user_id(*old(session))) is Some ==> ({
            &&& r matches Response::Redirect { location } && location@ == "/admin"@
            &&& *final(session) == *old(session)
        }),
        store.spec_find_by_id(spec_current_user_id(*old(session))) is None ==> ({
            let (after, status, text) = spec_read_structured(*old(session));
            &&& *final(session) == after
            &&& r matches Response::Page { message } && message@ == text
        }),
{
    if is_authenticated(session, store) {
        return Response::Redirect { location: "/admin".to_owned() };
    }
    let session_message = get_session_message(session, true);
    Response::Page { message: session_message.1 }
}

/// Signs the session out: clears the user id, leaves a signed-out notice
/// as the flash message, and redirects to the home route.
pub fn signout(session: &mut SessionState) -> (r: Response)
    ensures
        final(session).user_id is None,
        final(session).message matches Some(FlashMessage::PlainText(t)) && t@
            == "You have been signed out"@,
        r matches Response::Redirect { location } && location@ == "/"@,
{
    crate::session::clear_authenticated(session);
    Response::Redirect { location: "/".to_owned() }
}

/// Handles a submitted sign-in form.
///
/// An empty email or password leaves a "required" flash message and returns
/// to the sign-in page. A credential pair that validates signs the session
/// in as the matched user and redirects to the protected area; every other
/// outcome leaves one uniform "Invalid credentials" flash message — which
/// of the credentials was wrong is never revealed — and returns to the
/// sign-in page.
pub fn signin_post(req_body: String, session: &mut SessionState, store: &UserStore) -> (r:
    Response)
    ensures
        ({
            let email = spec_form_field(req_body@, "email"@);
            let password = spec_form_field(req_body@, "password"@);
            if email.len() == 0 || password.len() == 0 {
                &&& r matches Response::Redirect { location } && location@ == "/signin"@
                &&& final(session).user_id == old(session).user_id
                &&& final(session).message matches Some(FlashMessage::Structured {
                    error,
                    success,
                }) && error@ == "Email and password are required"@ && success@.len() == 0
            } else if spec_validate(*store, email, password) == UserValidationResult::Valid {
                &&& r matches Response::Redirect { location } && location@ == "/admin"@
                &&& store.spec_find_by_email(email) matches Some(u) && final(session).user_id
                    == Some(u.id)
                &&& final(session).message == old(session).message
            } else {
                &&& r matches Response::Redirect { location } && location@ == "/signin"@
                &&& final(session).user_id == old(session).user_id
                &&& final(session).message matches Some(FlashMessage::Structured {
                    error,
                    success,
                }) && error@ == "Invalid credentials"@ && success@.len() == 0
            }
        }),
{
    let email_param = get_from_form_body("email".to_owned(), req_body.clone());
    let password_param = get_from_form_body("password".to_owned(), req_body);

    if email_param.as_str().is_empty() || password_param.as_str().is_empty() {
        set_message(
            session,
            FlashMessage::Structured {
                error: "Email and password are required".to_owned(),
                success: String::new(),
            },
        );
        return Response::Redirect { location: "/signin".to_owned() };
    }

    match validate_user_credentials(store, email_param.as_str(), password_param.as_str()) {
        UserValidationResult::Valid => {
            match store.find_by_email(email_param.as_str()) {
                Some(user) => {
                    set_authenticated(session, user.id);
                    Response::Redirect { location: "/admin".to_owned() }
                },
                None => unreached(),
            }
        },
        _ => {
            set_message(
                session,
                FlashMessage::Structured {
                    error: "Invalid credentials".to_owned(),
                    success: String::new(),
                },
            );
            Response::Redirect { location: "/signin".to_owned() }
        },
    }
}

} // verus!
