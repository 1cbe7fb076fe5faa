use authcore::seeder::UserSeeder;
use authcore::user::{NewUser, StoreError, UserStore};

fn seeded_store() -> UserStore {
    let mut store = UserStore::new();
    UserSeeder::execute(&mut store).expect("seeding failed");
    store
}

#[test]
fn test_can_create_user() {
    let mut store = UserStore::new();
    let expected_email = "john@email.com".to_string();

    store
        .insert(NewUser { name: "John Doe", email: &expected_email, password: "password" })
        .unwrap();

    let results = store.find_by_email(&expected_email);
    assert!(results.is_some());
}

#[test]
fn test_can_delete_user() {
    let mut store = seeded_store();
    let expected_email = "jekyll@example.com";

    let results = store.find_by_email(expected_email);
    assert!(results.is_some());

    store.delete_by_email(expected_email);

    let results2 = store.find_by_email(expected_email);
    assert!(results2.is_none());
}

#[test]
fn test_can_retrieve_user_by_id() {
    let store = seeded_store();
    let user_id = store.find_by_email("jekyll@example.com").unwrap().id;

    let user = store.find_by_id(user_id);
    let user2 = store.find_by_id(99);

    assert!(user.is_some());
    assert!(user2.is_none());
}

#[test]
fn test_can_update_user() {
    let mut store = seeded_store();
    let user_id = store.find_by_email("jekyll@example.com").unwrap().id;

    let user = store.find_by_id(user_id);
    assert!(user.is_some());

    let new_email = "newemail@example.com";

    let result = store.update(user_id, "Jekyll", new_email);
    assert_eq!(result, 1);

    let user = store.find_by_email(new_email);
    assert!(user.is_some());
    assert_eq!(user.unwrap().email, new_email);
}

#[test]
fn test_insert_duplicate_email_is_refused() {
    let mut store = seeded_store();
    let before = store.len();

    let result = store.insert(NewUser {
        name: "Imposter",
        email: "jekyll@example.com",
        password: "irrelevant",
    });

    assert_eq!(result, Err(StoreError::DuplicateEmail));
    assert_eq!(store.len(), before);
}

#[test]
fn test_update_to_taken_email_is_refused() {
    let mut store = seeded_store();
    let hyde_id = store
        .insert(NewUser { name: "Hyde", email: "hyde@example.com", password: "password" })
        .unwrap();

    let result = store.update(hyde_id, "Hyde", "jekyll@example.com");

    assert_eq!(result, 0);
    assert_eq!(store.find_by_id(hyde_id).unwrap().email, "hyde@example.com");
}
