use zero2prod::domain::{FormData, NewSubscriber, SubscriberEmail, SubscriberName, ValidationError};

#[test]
fn accepts_an_ordinary_name_verbatim() {
    let name = SubscriberName::parse(String::from("Alice")).unwrap();
    assert_eq!(name.as_str(), "Alice");
}

#[test]
fn accepts_a_name_with_inner_spaces_untrimmed() {
    let name = SubscriberName::parse(String::from("  Ursula Le Guin  ")).unwrap();
    assert_eq!(name.as_str(), "  Ursula Le Guin  ");
}

#[test]
fn rejects_an_empty_name() {
    assert_eq!(
        SubscriberName::parse(String::new()).unwrap_err(),
        ValidationError::InvalidName
    );
}

#[test]
fn rejects_a_whitespace_only_name() {
    assert_eq!(
        SubscriberName::parse(String::from(" \t\n ")).unwrap_err(),
        ValidationError::InvalidName
    );
}

#[test]
fn accepts_a_256_character_name() {
    let name = "a".repeat(256);
    assert!(SubscriberName::parse(name).is_ok());
}

#[test]
fn rejects_a_257_character_name() {
    let name = "a".repeat(257);
    assert_eq!(
        SubscriberName::parse(name).unwrap_err(),
        ValidationError::InvalidName
    );
}

#[test]
fn rejects_each_forbidden_character() {
    for c in ['/', '(', ')', '{', '}', '"', '<', '>', '\\'] {
        let name = format!("Alice{}", c);
        assert_eq!(
            SubscriberName::parse(name).unwrap_err(),
            ValidationError::InvalidName,
            "character {:?} should be rejected",
            c
        );
    }
}

#[test]
fn rejects_control_characters_in_a_name() {
    assert!(SubscriberName::parse(String::from("Ali\u{7}ce")).is_err());
    assert!(SubscriberName::parse(String::from("Ali\u{9B}ce")).is_err());
}

#[test]
fn accepts_a_valid_email_with_its_casing() {
    let email = SubscriberEmail::parse(String::from("Alice@Example.COM")).unwrap();
    assert_eq!(email.as_str(), "Alice@Example.COM");
}

#[test]
fn rejects_an_email_without_an_at_sign() {
    assert_eq!(
        SubscriberEmail::parse(String::from("not-an-email")).unwrap_err(),
        ValidationError::InvalidEmail
    );
}

#[test]
fn rejects_an_email_with_two_at_signs() {
    assert!(SubscriberEmail::parse(String::from("a@b@example.com")).is_err());
}

#[test]
fn rejects_an_email_with_an_empty_local_part() {
    assert!(SubscriberEmail::parse(String::from("@example.com")).is_err());
}

#[test]
fn rejects_an_email_with_an_empty_domain() {
    assert!(SubscriberEmail::parse(String::from("alice@")).is_err());
}

#[test]
fn rejects_an_email_whose_domain_has_no_dot() {
    assert!(SubscriberEmail::parse(String::from("alice@examplecom")).is_err());
}

#[test]
fn try_from_reports_the_name_before_the_email() {
    let err = NewSubscriber::try_from(FormData {
        name: String::new(),
        email: String::from("not-an-email"),
    })
    .unwrap_err();
    assert_eq!(err, ValidationError::InvalidName);
}

#[test]
fn try_from_accepts_a_valid_form() {
    let sub = NewSubscriber::try_from(FormData {
        name: String::from("Alice"),
        email: String::from("alice@example.com"),
    })
    .unwrap();
    assert_eq!(sub.name.as_str(), "Alice");
    assert_eq!(sub.email.as_str(), "alice@example.com");
}
