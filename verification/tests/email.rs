use std::collections::HashSet;

use auth_service::domain::email::check_address_shape;
use auth_service::domain::email::Email;
use auth_service::domain::email::EmailError;

#[test]
fn email_empty_string_is_rejected() {
    let email = "".to_string();
    assert!(Email::parse(email).is_err());
}

#[test]
fn email_missing_at_symbol_is_rejected() {
    let email = "ursuladomain.com".to_string();
    assert!(Email::parse(email).is_err());
}

#[test]
fn email_missing_subject_is_rejected() {
    let email = "@domain.com".to_string();
    assert!(Email::parse(email).is_err());
}

#[test]
fn valid_emails_are_parsed_successfully() {
    for text in ["user@example.com", "email@here.com", "weirder-email@here.and.there.com"] {
        let email = Email::parse(text.to_string());
        assert!(email.is_ok());
        assert_eq!(email.ok().unwrap().as_ref(), text);
    }
}

#[test]
fn email_without_domain_is_rejected() {
    assert!(Email::parse("nodomain".to_string()) == Err(EmailError::InvalidFormat));
    assert!(Email::parse("abc@".to_string()) == Err(EmailError::InvalidFormat));
}

#[test]
fn email_with_dotless_domain_is_rejected() {
    assert!(Email::parse("abc@bar".to_string()) == Err(EmailError::InvalidFormat));
}

#[test]
fn email_that_only_the_validator_refuses_is_rejected() {
    assert!(check_address_shape("a @x.cz"));
    assert!(Email::parse("a @x.cz".to_string()).is_err());
    assert!(check_address_shape("something@@somewhere.com"));
    assert!(Email::parse("something@@somewhere.com".to_string()).is_err());
}

#[test]
fn from_verdict_follows_shape_and_verdict() {
    assert!(Email::from_verdict("user@example.com".to_string(), true).is_ok());
    assert!(Email::from_verdict("a @x.cz".to_string(), false).is_err());
    assert!(Email::from_verdict("nodomain".to_string(), false).is_err());
    assert!(Email::from_verdict("abc@bar".to_string(), true).is_err());
}

#[test]
fn address_shape_examples() {
    assert!(check_address_shape("user@example.com"));
    assert!(!check_address_shape(""));
    assert!(!check_address_shape("nodomain"));
    assert!(!check_address_shape("@domain.com"));
    assert!(!check_address_shape("user@domain"));
    assert!(!check_address_shape("us.er@domain"));
    assert!(!check_address_shape("user@"));
    assert!(check_address_shape("a@b@c.d"));
    assert!(!check_address_shape("a@b.c@d"));
}

#[test]
fn emails_compare_by_value() {
    let a = Email::parse("user@example.com".to_string()).ok().unwrap();
    let b = Email::parse("user@example.com".to_string()).ok().unwrap();
    let c = Email::parse("other@example.com".to_string()).ok().unwrap();
    assert!(a == b);
    assert!(a != c);
    assert!(a.clone() == a);
}

#[test]
fn equal_emails_hash_alike() {
    let mut seen = HashSet::new();
    assert!(seen.insert(Email::parse("user@example.com".to_string()).ok().unwrap()));
    assert!(!seen.insert(Email::parse("user@example.com".to_string()).ok().unwrap()));
    assert!(seen.insert(Email::parse("other@example.com".to_string()).ok().unwrap()));
    assert_eq!(seen.len(), 2);
}
