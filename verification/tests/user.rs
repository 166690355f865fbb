use restaurant_service::user::{accept_unless_verified, Credentials};

#[test]
fn lookup_key_is_credentials_as_given() {
    let c = Credentials::new("alice".to_string(), "secret".to_string());
    assert_eq!(c.lookup_key(), ("alice".to_string(), "secret".to_string()));
}

#[test]
fn row_accepted_when_name_does_not_verify() {
    let c = Credentials::new("alice".to_string(), "secret".to_string());
    assert_eq!(c.accept_found_user("alice", 42), Some(42));
}

#[test]
fn row_refused_when_name_verifies() {
    let c = Credentials::new("alice".to_string(), "secret".to_string());
    let hash = password_auth::generate_hash("alice");
    assert_eq!(c.accept_found_user(&hash, 42), None);
    let other = password_auth::generate_hash("bob");
    assert_eq!(c.accept_found_user(&other, 42), Some(42));
}

#[test]
fn decision_on_verification() {
    assert_eq!(accept_unless_verified(false, "row"), Some("row"));
    assert_eq!(accept_unless_verified(true, "row"), None);
}
