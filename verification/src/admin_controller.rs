//! The protected admin handlers: the dashboard and settings pages, the
//! profile page, and the two profile update actions.
//!
//! Every handler here runs behind the auth interceptor, so each requires that the
//! request's session resolves to an existing user.

use crate::password::{hash_matches, hash_parses, prepare_password};
use crate::session::{get_session_user, spec_current_user_id, SessionState};
use crate::user::{password_updated, profile_updated, UserStore};
use crate::user_service::{spec_validate, validate_user_credentials, UserValidationResult};
use vstd::pervasive::unreached;
use vstd::prelude::*;

verus! {

/// The editable profile fields, as the profile form submits them.
#[derive(Debug)]
pub struct UserForm {
    pub name: String,
    pub email: String,
}

/// The password change form.
#[derive(Debug)]
pub struct PasswordForm {
    pub current_email: String,
    pub old_password: String,
    pub new_password: String,
}

/// What a successful profile update reports back.
#[derive(Debug)]
pub struct ProfileResponse {
    pub data: UserForm,
}

/// Why an admin action was refused.
#[derive(PartialEq, Eq, Structural, Debug, Clone, Copy)]
pub enum AdminError {
    InvalidCredentials,
    UpdateFailed,
}

impl AdminError {
    /// The text shown for this error.
    pub fn message(&self) -> (r: String)
        ensures
            *self == AdminError::InvalidCredentials ==> r@ == "Invalid credentials"@,
            *self == AdminError::UpdateFailed ==> r@ == "Failed to update user"@,
    {
        match self {
            AdminError::InvalidCredentials => "Invalid credentials".to_owned(),
            AdminError::UpdateFailed => "Failed to update user".to_owned(),
        }
    }
}

/// Decides the dashboard page: the signed-in user's name for the template.
pub fn dashboard(session: &SessionState, store: &UserStore) -> (r: String)
    requires
        store.spec_find_by_id(spec_current_user_id(*session)) is Some,
    ensures
        r@ == store.spec_find_by_id(spec_current_user_id(*session)).unwrap().name@,
{
    match get_session_user(session, store) {
        Some(user) => user.name,
        None => unreached(),
    }
}

/// Decides the settings page: the signed-in user's name for the template.
pub fn settings(session: &SessionState, store: &UserStore) -> (r: String)
    requires
        store.spec_find_by_id(spec_current_user_id(*session)) is Some,
    ensures
        r@ == store.spec_find_by_id(spec_current_user_id(*session)).unwrap().name@,
{
    match get_session_user(session, store) {
        Some(user) => user.name,
        None => unreached(),
    }
}

/// Decides the profile page: the signed-in user's name and email.
pub fn profile(session: &SessionState, store: &UserStore) -> (r: (String, String))
    requires
        store.spec_find_by_id(spec_current_user_id(*session)) is Some,
    ensures
        r.0@ == store.spec_find_by_id(spec_current_user_id(*session)).unwrap().name@,
        r.1@ == store.spec_find_by_id(spec_current_user_id(*session)).unwrap().email@,
{
    match get_session_user(session, store) {
        Some(user) => (user.name, user.email),
        None => unreached(),
    }
}

/// Applies a submitted profile form to the signed-in user's record.
///
/// The update is refused — and the store left unchanged — when the new
/// email already belongs to another user; that surfaces as a server error,
/// never as a panic.
pub fn profile_post(form: UserForm, session: &SessionState, store: &mut UserStore) -> (r: Result<
    ProfileResponse,
    AdminError,
>)
    requires
        old(store).wf(),
        old(store).spec_find_by_id(spec_current_user_id(*session)) is Some,
    ensures
        final(store).wf(),
        ({
            let uid = spec_current_user_id(*session);
            let target = old(store).spec_find_by_id(uid).unwrap();
            if old(store).email_conflicts(target.id, form.email@) {
                &&& r matches Err(e) && e == AdminError::UpdateFailed
                &&& *final(store) == *old(store)
            } else {
                &&& r matches Ok(p) && p.data.name@ == form.name@ && p.data.email@ == form.email@
                &&& final(store)@.len() == old(store)@.len()
                &&& forall|i: int|
                    0 <= i < old(store)@.len() ==> if old(store)@[i].id == target.id {
                        profile_updated(
                            old(store)@[i],
                            #[trigger] final(store)@[i],
                            form.name@,
                            form.email@,
                        )
                    } else {
                        final(store)@[i] == old(store)@[i]
                    }
                &&& (final(store).spec_find_by_id(uid) matches Some(u2) && profile_updated(
                    target,
                    u2,
                    form.name@,
                    form.email@,
                ))
            }
        }),
{
    let user = match get_session_user(session, store) {
        Some(u) => u,
        None => unreached(),
    };
    proof {
        crate::user::lemma_find_id_mem(store@, spec_current_user_id(*session), user);
    }
    let updated = store.update(user.id, form.name.as_str(), form.email.as_str());
    if updated == 0 {
        return Err(AdminError::UpdateFailed);
    }
    Ok(ProfileResponse { data: UserForm { name: form.name, email: form.email } })
}

/// Applies a submitted password change to the signed-in user's record.
///
/// The presented current email and old password must validate; the new
/// password is then hashed with a fresh salt and stored for the signed-in
/// user. Any non-valid outcome is answered with one uniform error.
pub fn profile_password_post(form: PasswordForm, session: &SessionState, store: &mut UserStore) -> (
    r: Result<(), AdminError>)
    requires
        old(store).wf(),
        old(store).spec_find_by_id(spec_current_user_id(*session)) is Some,
        form.new_password@.len() <= 0x3fff_ffff,
    ensures
        final(store).wf(),
        ({
            let uid = spec_current_user_id(*session);
            let target = old(store).spec_find_by_id(uid).unwrap();
            if spec_validate(*old(store), form.current_email@, form.old_password@)
                != UserValidationResult::Valid {
                &&& r matches Err(e) && e == AdminError::InvalidCredentials
                &&& *final(store) == *old(store)
            } else {
                &&& r is Ok
                &&& final(store)@.len() == old(store)@.len()
                &&& forall|i: int|
                    0 <= i < old(store)@.len() && (#[trigger] old(store)@[i]).id != uid
                        ==> final(store)@[i] == old(store)@[i]
                &&& (final(store).spec_find_by_id(uid) matches Some(u2) && password_updated(
                    target,
                    u2,
                    u2.password@,
                ) && hash_parses(u2.password@) && hash_matches(form.new_password@, u2.password@))
            }
        }),
{
    let user = match get_session_user(session, store) {
        Some(u) => u,
        None => unreached(),
    };
    proof {
        crate::user::lemma_find_id_mem(store@, spec_current_user_id(*session), user);
    }

    let outcome = validate_user_credentials(
        store,
        form.current_email.as_str(),
        form.old_password.as_str(),
    );
    if outcome != UserValidationResult::Valid {
        return Err(AdminError::InvalidCredentials);
    }

    let hashed = prepare_password(form.new_password.as_str());
    let updated = store.update_password(user.id, hashed.as_str());
    if updated == 0 {
        return Err(AdminError::UpdateFailed);
    }
    Ok(())
}

} // verus!
