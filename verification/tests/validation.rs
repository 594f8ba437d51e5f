use blog_api::error::{AuthError, ErrorKind, InvalidFields};
use blog_api::models::{LoginRequest, RegisterRequest};
use blog_api::validation::{
    check_email, check_login_password, check_new_password, check_username, PASSWORD_MIN_CHARS,
    USERNAME_MAX_CHARS, USERNAME_MIN_CHARS,
};

fn request(username: &str, email: &str, password: &str) -> RegisterRequest {
    RegisterRequest {
        username: username.to_string(),
        email: email.to_string(),
        password: password.to_string(),
        display_name: None,
    }
}

fn faults(username: bool, email: bool, password: bool) -> AuthError {
    AuthError::Validation(InvalidFields { username, email, password })
}

#[test]
fn limits_are_as_documented() {
    assert_eq!(USERNAME_MIN_CHARS, 3);
    assert_eq!(USERNAME_MAX_CHARS, 50);
    assert_eq!(PASSWORD_MIN_CHARS, 8);
}

#[test]
fn valid_registration_passes() {
    assert_eq!(request("alice", "Alice@Example.com", "longenough").validate(), Ok(()));
}

#[test]
fn password_of_seven_characters_fails_registration() {
    let checked = request("alice", "alice@example.com", "1234567").validate();
    assert_eq!(checked, Err(faults(false, false, true)));
    assert_eq!(checked.unwrap_err().kind(), ErrorKind::Validation);
}

#[test]
fn password_of_eight_characters_passes_registration() {
    assert_eq!(request("alice", "alice@example.com", "12345678").validate(), Ok(()));
}

#[test]
fn password_length_counts_characters_not_bytes() {
    assert!(!check_new_password("ééééééé"));
    assert!(check_new_password("éééééééé"));
    assert_eq!(request("alice", "alice@example.com", "ééééééé").validate(), Err(faults(false, false, true)));
}

#[test]
fn username_bounds() {
    assert!(!check_username(""));
    assert!(!check_username("ab"));
    assert!(check_username("abc"));
    assert!(check_username(&"a".repeat(50)));
    assert!(!check_username(&"a".repeat(51)));
}

#[test]
fn username_length_counts_characters_not_bytes() {
    assert!(!check_username("éé"));
    assert!(check_username("ééé"));
    assert!(check_username(&"é".repeat(50)));
    assert!(!check_username(&"é".repeat(51)));
}

#[test]
fn username_of_two_characters_fails_registration() {
    assert_eq!(request("al", "alice@example.com", "longenough").validate(), Err(faults(true, false, false)));
}

#[test]
fn username_of_fifty_one_characters_fails_registration() {
    let name = "a".repeat(51);
    assert_eq!(request(&name, "alice@example.com", "longenough").validate(), Err(faults(true, false, false)));
    let name = "a".repeat(50);
    assert_eq!(request(&name, "alice@example.com", "longenough").validate(), Ok(()));
}

#[test]
fn email_syntax() {
    assert!(check_email("alice@example.com"));
    assert!(check_email("Alice@Example.com"));
    assert!(check_email("weirder-email@here.and.there.com"));
    assert!(check_email("email@[127.0.0.1]"));
    assert!(!check_email(""));
    assert!(!check_email("alice"));
    assert!(!check_email("alice@"));
    assert!(!check_email("@example.com"));
    assert!(!check_email("alice@exam ple.com"));
    assert!(!check_email("alice@@example.com"));
}

#[test]
fn malformed_email_fails_registration() {
    assert_eq!(request("alice", "not-an-email", "longenough").validate(), Err(faults(false, true, false)));
}

#[test]
fn every_broken_field_is_reported() {
    assert_eq!(request("al", "nope", "short").validate(), Err(faults(true, true, true)));
    assert_eq!(request("al", "alice@example.com", "short").validate(), Err(faults(true, false, true)));
}

#[test]
fn login_needs_a_valid_email_and_a_password() {
    let ok = LoginRequest { email: "alice@example.com".to_string(), password: "x".to_string() };
    assert_eq!(ok.validate(), Ok(()));
    let empty = LoginRequest { email: "alice@example.com".to_string(), password: String::new() };
    assert_eq!(empty.validate(), Err(faults(false, false, true)));
    let bad = LoginRequest { email: "alice".to_string(), password: "x".to_string() };
    assert_eq!(bad.validate(), Err(faults(false, true, false)));
    let both = LoginRequest { email: "".to_string(), password: "".to_string() };
    assert_eq!(both.validate(), Err(faults(false, true, true)));
}

#[test]
fn login_password_needs_one_character() {
    assert!(!check_login_password(""));
    assert!(check_login_password("x"));
    assert!(check_login_password("short"));
}
