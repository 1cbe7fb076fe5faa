use authcore::admin_controller::{
    dashboard, profile, profile_password_post, profile_post, settings, PasswordForm, UserForm,
};
use authcore::auth_controller::{signin, signin_post, signout};
use authcore::gate::{AuthCheck, GateOutcome};
use authcore::home_controller::home;
use authcore::response::Response;
use authcore::seeder::UserSeeder;
use authcore::session::{is_authenticated, SessionState};
use authcore::user::UserStore;
use authcore::user_service::{validate_user_credentials, UserValidationResult};

fn seeded_store() -> UserStore {
    let mut store = UserStore::new();
    UserSeeder::execute(&mut store).expect("seeding failed");
    store
}

fn signed_in_session(store: &UserStore) -> SessionState {
    let mut session = SessionState::new();
    let response = signin_post(
        "email=jekyll%40example.com&password=password".to_string(),
        &mut session,
        store,
    );
    match response {
        Response::Redirect { location } => assert_eq!(location, "/admin"),
        Response::Page { .. } => panic!("sign-in with seeded credentials must redirect"),
    }
    session
}

#[test]
fn test_signin_route() {
    let store = seeded_store();
    let user_id = store.find_by_email("jekyll@example.com").unwrap().id;

    // An anonymous visitor gets the sign-in page.
    let mut session = SessionState::new();
    match signin(&mut session, &store) {
        Response::Page { message } => assert_eq!(message, ""),
        Response::Redirect { .. } => panic!("anonymous visitor must see the page"),
    }

    // Signing in with the seeded credentials redirects to the admin area.
    let mut session = signed_in_session(&store);

    // The session is now let through, carrying the seeded user's id.
    match AuthCheck::call(&session, &store) {
        GateOutcome::Allowed { user } => assert_eq!(user.id, user_id),
        GateOutcome::Denied { .. } => panic!("signed-in session must be let through"),
    }

    // Signing out redirects home and destroys the identity.
    match signout(&mut session) {
        Response::Redirect { location } => assert_eq!(location, "/"),
        Response::Page { .. } => panic!("sign-out must redirect"),
    }

    // The same session replayed against a protected route is denied.
    match AuthCheck::call(&session, &store) {
        GateOutcome::Denied { location } => assert_eq!(location, "/signin"),
        GateOutcome::Allowed { .. } => panic!("signed-out session must be denied"),
    }
}

#[test]
fn test_signin_post_rejects_bad_credentials() {
    let store = seeded_store();
    let mut session = SessionState::new();

    let response = signin_post(
        "email=jekyll%40example.com&password=wrong".to_string(),
        &mut session,
        &store,
    );
    match response {
        Response::Redirect { location } => assert_eq!(location, "/signin"),
        Response::Page { .. } => panic!("failed sign-in must redirect"),
    }
    assert!(!is_authenticated(&session, &store));

    // The failure left one structured flash message for the sign-in page.
    match signin(&mut session, &store) {
        Response::Page { message } => assert_eq!(message, "Invalid credentials"),
        Response::Redirect { .. } => panic!("anonymous visitor must see the page"),
    }
}

#[test]
fn test_signin_post_requires_both_fields() {
    let store = seeded_store();
    let mut session = SessionState::new();

    let response = signin_post(
        "email=jekyll%40example.com&password=".to_string(),
        &mut session,
        &store,
    );
    match response {
        Response::Redirect { location } => assert_eq!(location, "/signin"),
        Response::Page { .. } => panic!("incomplete sign-in must redirect"),
    }

    match signin(&mut session, &store) {
        Response::Page { message } => assert_eq!(message, "Email and password are required"),
        Response::Redirect { .. } => panic!("anonymous visitor must see the page"),
    }
}

#[test]
fn test_signin_redirects_when_already_authenticated() {
    let store = seeded_store();
    let mut session = signed_in_session(&store);

    match signin(&mut session, &store) {
        Response::Redirect { location } => assert_eq!(location, "/admin"),
        Response::Page { .. } => panic!("signed-in visitor must be redirected"),
    }
}

#[test]
fn test_dashboard() {
    let store = seeded_store();

    // An anonymous request is sent away from the dashboard.
    let session = SessionState::new();
    match AuthCheck::call(&session, &store) {
        GateOutcome::Denied { location } => assert_eq!(location, "/signin"),
        GateOutcome::Allowed { .. } => panic!("anonymous request must be denied"),
    }

    let session = signed_in_session(&store);
    match AuthCheck::call(&session, &store) {
        GateOutcome::Allowed { .. } => {},
        GateOutcome::Denied { .. } => panic!("signed-in request must be allowed"),
    }
    assert_eq!(dashboard(&session, &store), "Jekyll");
}

#[test]
fn test_settings() {
    let store = seeded_store();
    let session = signed_in_session(&store);
    assert_eq!(settings(&session, &store), "Jekyll");
}

#[test]
fn test_profile_data() {
    let mut store = seeded_store();
    let session = signed_in_session(&store);

    let (name, email) = profile(&session, &store);
    assert_eq!(name, "Jekyll");
    assert_eq!(email, "jekyll@example.com");

    let new_email = "hyde@example.com";
    let response = profile_post(
        UserForm { name: "Hyde".to_string(), email: new_email.to_string() },
        &session,
        &mut store,
    )
    .expect("profile update must succeed");
    assert_eq!(response.data.name, "Hyde");

    let user = store.find_by_email(new_email);
    assert!(user.is_some());
    assert_eq!(user.unwrap().name, "Hyde");
}

#[test]
fn test_profile_password() {
    let mut store = seeded_store();
    let user_email = "jekyll@example.com";
    let session = signed_in_session(&store);

    let result = profile_password_post(
        PasswordForm {
            current_email: user_email.to_string(),
            old_password: "password".to_string(),
            new_password: "new-password".to_string(),
        },
        &session,
        &mut store,
    );
    assert!(result.is_ok());
    assert_eq!(
        validate_user_credentials(&store, user_email, "new-password"),
        UserValidationResult::Valid
    );
    assert_eq!(
        validate_user_credentials(&store, user_email, "password"),
        UserValidationResult::Invalid
    );
}

#[test]
fn test_profile_password_rejects_wrong_old_password() {
    let mut store = seeded_store();
    let session = signed_in_session(&store);

    let result = profile_password_post(
        PasswordForm {
            current_email: "jekyll@example.com".to_string(),
            old_password: "wrong".to_string(),
            new_password: "new-password".to_string(),
        },
        &session,
        &mut store,
    );
    assert!(result.is_err());
    assert_eq!(result.unwrap_err().message(), "Invalid credentials");
    assert_eq!(
        validate_user_credentials(&store, "jekyll@example.com", "password"),
        UserValidationResult::Valid
    );
}

#[test]
fn test_home() {
    let store = seeded_store();

    let mut session = SessionState::new();
    let page = home(&mut session, &store);
    assert!(!page.authenticated);
    assert_eq!(page.message, "");

    let mut session = signed_in_session(&store);
    let page = home(&mut session, &store);
    assert!(page.authenticated);
}

#[test]
fn test_signed_out_notice_shows_on_home() {
    let store = seeded_store();
    let mut session = signed_in_session(&store);

    signout(&mut session);

    let page = home(&mut session, &store);
    assert!(!page.authenticated);
    assert_eq!(page.message, "You have been signed out");
}

#[test]
fn test_signin_post_without_form_fields() {
    let store = seeded_store();
    let mut session = SessionState::new();

    // A body with no email parameter yields the placeholder text, which is
    // non-empty and so runs through validation — and fails it.
    let response = signin_post("password=password".to_string(), &mut session, &store);
    match response {
        Response::Redirect { location } => assert_eq!(location, "/signin"),
        Response::Page { .. } => panic!("failed sign-in must redirect"),
    }
    assert!(!is_authenticated(&session, &store));

    match signin(&mut session, &store) {
        Response::Page { message } => assert_eq!(message, "Invalid credentials"),
        Response::Redirect { .. } => panic!("anonymous visitor must see the page"),
    }
}
