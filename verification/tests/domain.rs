use zero2prod::domain::EmailAddress;
use zero2prod::domain::NewSubscriber;
use zero2prod::domain::SubscriberName;

#[test]
fn subscriber_email_empty_string_is_rejected() {
    let email = String::new();
    assert!(EmailAddress::parse(email).is_err());
}

#[test]
fn email_missing_at_symbol_is_rejected() {
    let email = "ursuladomain.com".to_string();
    assert!(EmailAddress::parse(email).is_err());
}

#[test]
fn email_missing_subject_is_rejected() {
    let email = "@domain.com".to_string();
    assert!(EmailAddress::parse(email).is_err());
}

#[test]
fn a_valid_email_is_parsed_successfully() {
    let email = "ursula_le_guin@gmail.com".to_string();
    let parsed = EmailAddress::parse(email).unwrap();
    assert_eq!(parsed.as_str(), "ursula_le_guin@gmail.com");
}

#[test]
fn email_parse_error_carries_the_address() {
    let e = EmailAddress::parse("not-an-email".to_string()).unwrap_err();
    assert_eq!(e, "not-an-email is not a valid subscriber email");
}

#[test]
fn a_256_grapheme_long_name_is_valid() {
    let name = "a".repeat(256);
    assert!(SubscriberName::parse(name).is_ok());
}

#[test]
fn a_name_longer_than_256_graphemes_is_rejected() {
    let name = "a".repeat(257);
    assert!(SubscriberName::parse(name).is_err());
}

#[test]
fn whitespace_only_names_are_rejected() {
    let name = " ".to_string();
    assert!(SubscriberName::parse(name).is_err());
}

#[test]
fn subscriber_name_empty_string_is_rejected() {
    let name = String::new();
    assert!(SubscriberName::parse(name).is_err());
}

#[test]
fn names_containing_an_invalid_character_are_rejected() {
    for name in &['/', '(', ')', '"', '<', '>', '\\', '{', '}'] {
        let name = name.to_string();
        assert!(SubscriberName::parse(name).is_err());
    }
}

#[test]
fn a_valid_name_is_parsed_successfully() {
    let name = "Ursula Le Guin".to_string();
    assert!(SubscriberName::parse(name).is_ok());
}

#[test]
fn new_subscriber_requires_both_fields_valid() {
    assert!(NewSubscriber::try_from("ursula@domain.com".to_string(), "Ursula".to_string()).is_ok());
    assert!(NewSubscriber::try_from("not-an-email".to_string(), "Ursula".to_string()).is_err());
    assert!(NewSubscriber::try_from("ursula@domain.com".to_string(), "/".to_string()).is_err());
}
