use authcore::form::get_from_form_body;

#[test]
fn test_reads_a_field() {
    let body = "email=jekyll%40example.com&password=password".to_string();
    let value = get_from_form_body("email".to_string(), body);
    assert_eq!(value, "jekyll@example.com");
}

#[test]
fn test_reads_a_later_field() {
    let body = "email=jekyll%40example.com&password=password".to_string();
    let value = get_from_form_body("password".to_string(), body);
    assert_eq!(value, "password");
}

#[test]
fn test_missing_field() {
    let body = "email=a".to_string();
    let value = get_from_form_body("name".to_string(), body);
    assert_eq!(value, "No name provided");
}

#[test]
fn test_undecodable_value() {
    // %FF does not decode to valid UTF-8.
    let body = "email=%FF".to_string();
    let value = get_from_form_body("email".to_string(), body);
    assert_eq!(value, "Invalid email");
}

#[test]
fn test_value_stops_at_second_equals_sign() {
    let body = "email=a=b".to_string();
    let value = get_from_form_body("email".to_string(), body);
    assert_eq!(value, "a");
}

#[test]
fn test_empty_value() {
    let body = "email=&password=x".to_string();
    let value = get_from_form_body("email".to_string(), body);
    assert_eq!(value, "");
}

#[test]
fn test_first_matching_parameter_wins() {
    let body = "email=first%21&email=second".to_string();
    let value = get_from_form_body("email".to_string(), body);
    assert_eq!(value, "first!");
}

#[test]
fn test_field_name_must_match_as_prefix() {
    let body = "useremail=a&email=b".to_string();
    let value = get_from_form_body("email".to_string(), body);
    assert_eq!(value, "b");
}
