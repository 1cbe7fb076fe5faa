use authcore::password::{prepare_password, verify};

#[test]
fn test_hash_verify_round_trip() {
    let hash = prepare_password("hunter42");
    assert!(verify("hunter42", &hash));
}

#[test]
fn test_wrong_password_does_not_verify() {
    let hash = prepare_password("hunter42");
    assert!(!verify("hunter43", &hash));
    assert!(!verify("", &hash));
}

#[test]
fn test_verify_fails_closed_on_garbage_hash() {
    assert!(!verify("hunter42", "not a phc string"));
    assert!(!verify("hunter42", ""));
}

#[test]
fn test_hash_is_encoded_and_salted() {
    let first = prepare_password("hunter42");
    let second = prepare_password("hunter42");

    // The hash is a self-describing PHC string, never the plaintext.
    assert!(first.starts_with("$argon2"));
    assert_ne!(first, "hunter42");

    // A fresh salt is drawn for every call, yet both hashes verify.
    assert_ne!(first, second);
    assert!(verify("hunter42", &second));
}
