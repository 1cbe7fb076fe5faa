use authcore::gate::{AuthCheck, GateOutcome};
use authcore::seeder::UserSeeder;
use authcore::session::{set_authenticated, SessionState};
use authcore::user::UserStore;

fn seeded_store() -> UserStore {
    let mut store = UserStore::new();
    UserSeeder::execute(&mut store).expect("seeding failed");
    store
}

#[test]
fn test_auth_middleware() {
    let store = seeded_store();
    let user_id = store.find_by_email("jekyll@example.com").unwrap().id;
    let mut session = SessionState::new();

    // Before the session is forced onto a user, the request is turned away.
    match AuthCheck::call(&session, &store) {
        GateOutcome::Denied { location } => assert_eq!(location, "/signin"),
        GateOutcome::Allowed { .. } => panic!("anonymous request must be denied"),
    }

    set_authenticated(&mut session, user_id);

    match AuthCheck::call(&session, &store) {
        GateOutcome::Allowed { user } => assert_eq!(user.id, user_id),
        GateOutcome::Denied { .. } => panic!("authenticated request must be allowed"),
    }
}

#[test]
fn test_gate_denies_stale_user_id() {
    let mut store = seeded_store();
    let user_id = store.find_by_email("jekyll@example.com").unwrap().id;
    let mut session = SessionState::new();
    set_authenticated(&mut session, user_id);

    // Deleting the user makes the session's id stale: anonymous, not an error.
    store.delete_by_email("jekyll@example.com");

    match AuthCheck::call(&session, &store) {
        GateOutcome::Denied { location } => assert_eq!(location, "/signin"),
        GateOutcome::Allowed { .. } => panic!("stale id must be denied"),
    }
}

#[test]
fn test_gate_denies_zero_user_id() {
    let store = seeded_store();
    let mut session = SessionState::new();
    set_authenticated(&mut session, 0);

    match AuthCheck::call(&session, &store) {
        GateOutcome::Denied { location } => assert_eq!(location, "/signin"),
        GateOutcome::Allowed { .. } => panic!("the anonymous id must be denied"),
    }
}
