use auth_service::domain::password::Password;
use auth_service::domain::password::PasswordError;

#[test]
fn password_empty_string_is_rejected() {
    let password = "".to_owned();
    assert!(Password::parse(password).is_err());
}

#[test]
fn string_less_than_8_characters_is_rejected() {
    let password = "1234567".to_owned();
    assert!(Password::parse(password).is_err());
}

#[test]
fn valid_passwords_are_parsed_successfully() {
    for text in ["12345678", "password123", "a much longer password with spaces in it"] {
        let password = Password::parse(text.to_owned());
        assert!(password.is_ok());
        assert_eq!(password.ok().unwrap().as_ref(), text);
    }
}

#[test]
fn password_length_boundary() {
    assert!(Password::parse("1234567".to_owned()) == Err(PasswordError::TooShort));
    assert!(Password::parse("12345678".to_owned()).is_ok());
}

#[test]
fn password_length_counts_characters() {
    assert!(Password::parse("ééééééé".to_owned()).is_err());
    assert!(Password::parse("éééééééé".to_owned()).is_ok());
}

#[test]
fn passwords_compare_by_value() {
    let a = Password::parse("password123".to_owned()).ok().unwrap();
    let b = Password::parse("password123".to_owned()).ok().unwrap();
    let c = Password::parse("password124".to_owned()).ok().unwrap();
    assert!(a == b);
    assert!(a != c);
    assert!(a.clone() == a);
}
