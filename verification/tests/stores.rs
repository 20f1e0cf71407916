use auth_service::domain::data_stores::BannedTokenStore;
use auth_service::domain::data_stores::BannedTokenStoreError;
use auth_service::domain::data_stores::LoginAttemptId;
use auth_service::domain::data_stores::TwoFACode;
use auth_service::domain::data_stores::TwoFACodeStore;
use auth_service::domain::data_stores::TwoFACodeStoreError;
use auth_service::domain::data_stores::UserStore;
use auth_service::domain::data_stores::UserStoreError;
use auth_service::domain::email::Email;
use auth_service::domain::password::Password;
use auth_service::domain::user::User;
use auth_service::services::hashmap_two_fa_code_store::HashmapTwoFACodeStore;
use auth_service::services::hashmap_two_fa_code_store::CHALLENGE_TTL_SECONDS;
use auth_service::services::hashmap_user_store::HashmapUserStore;
use auth_service::services::hashset_banned_token_store::HashSetBannedTokenStore;

#[test]
fn test_add_user() {
    let mut user_store = HashmapUserStore::default();
    let email = Email::parse("email@example.com".to_owned()).ok().unwrap();
    let password = Password::parse("password".to_owned()).ok().unwrap();
    let user = User::new(email, password, false);
    assert!(user_store.add_user(user.clone()).is_ok());
    let get_user = user_store.get_user(&user.email);

    assert!(get_user == Ok(user.clone()));

    assert_eq!(user_store.add_user(user), Err(UserStoreError::UserAlreadyExists));
}

#[test]
fn test_get_user() {
    let mut user_store = HashmapUserStore::default();
    let email = Email::parse("email@example.com".to_owned()).ok().unwrap();
    let password = Password::parse("password".to_owned()).ok().unwrap();
    let user = User::new(email, password, false);
    assert!(user_store.add_user(user.clone()).is_ok());
    let get_user = user_store.get_user(&user.email);

    assert!(get_user.ok().unwrap().email == user.email);
}

#[test]
fn test_validate_user() {
    let mut user_store = HashmapUserStore::default();
    let email = Email::parse("example@email.com".to_owned()).ok().unwrap();
    let password = Password::parse("password".to_owned()).ok().unwrap();
    let user = User::new(email.clone(), password.clone(), false);

    assert!(user_store.add_user(user.clone()).is_ok());
    let result = user_store.validate_user(&email, &password);
    assert_eq!(result, Ok(()));

    let wrong_password = Password::parse("wrongpassword".to_owned()).ok().unwrap();
    let result = user_store.validate_user(&email, &wrong_password);
    assert_eq!(result, Err(UserStoreError::InvalidCredentials));

    let result = user_store.validate_user(
        &Email::parse("nonexistent@example.com".to_string()).ok().unwrap(),
        &password,
    );

    assert_eq!(result, Err(UserStoreError::UserNotFound));
}

#[test]
fn get_user_of_unknown_address_is_not_found() {
    let user_store = HashmapUserStore::new();
    let email = Email::parse("email@example.com".to_owned()).ok().unwrap();
    assert!(user_store.get_user(&email) == Err(UserStoreError::UserNotFound));
}

#[test]
fn users_are_kept_apart_by_address() {
    let mut user_store = HashmapUserStore::new();
    let first = User::new(
        Email::parse("first@example.com".to_owned()).ok().unwrap(),
        Password::parse("password-one".to_owned()).ok().unwrap(),
        false,
    );
    let second = User::new(
        Email::parse("second@example.com".to_owned()).ok().unwrap(),
        Password::parse("password-two".to_owned()).ok().unwrap(),
        true,
    );
    assert!(user_store.add_user(first.clone()).is_ok());
    assert!(user_store.add_user(second.clone()).is_ok());
    assert!(user_store.get_user(&first.email) == Ok(first.clone()));
    assert!(user_store.get_user(&second.email) == Ok(second.clone()));
    assert!(user_store.get_user(&second.email).ok().unwrap().requires_2fa);
    assert_eq!(
        user_store.validate_user(&first.email, &second.password),
        Err(UserStoreError::InvalidCredentials)
    );
}

#[test]
fn test_store_banned_token() {
    let mut store = HashSetBannedTokenStore::default();
    let token = "token".to_string();
    assert_eq!(store.store_banned_token(token.clone()), Ok(()));
    assert_eq!(
        store.store_banned_token(token.clone()),
        Err(BannedTokenStoreError::UnexpectedError)
    );
}

#[test]
fn test_check_for_banned() {
    let mut store = HashSetBannedTokenStore::default();
    let token = "token".to_string();

    assert_eq!(store.store_banned_token(token.clone()), Ok(()));
    assert_eq!(store.check_for_banned(&token), Ok(true));
    assert_eq!(store.check_for_banned("other_token"), Ok(false));
}

#[test]
fn empty_ledger_bans_nothing() {
    let store = HashSetBannedTokenStore::new();
    assert_eq!(store.check_for_banned("token"), Ok(false));
}

fn challenge(id: &str, code: &str) -> (LoginAttemptId, TwoFACode) {
    (
        LoginAttemptId::parse(id.to_owned()).ok().unwrap(),
        TwoFACode::parse(code.to_owned()).ok().unwrap(),
    )
}

#[test]
fn two_fa_store_keeps_one_challenge_per_address() {
    let mut store = HashmapTwoFACodeStore::default();
    let email = Email::parse("user@example.com".to_owned()).ok().unwrap();
    assert!(store.get_code(&email) == Err(TwoFACodeStoreError::LoginAttemptIdNotFound));

    let (first_id, first_code) = challenge("550e8400-e29b-41d4-a716-446655440000", "123456");
    let (second_id, second_code) = challenge("67e55044-10b1-426f-9247-bb680e5fe0c8", "654321");
    assert!(store.add_code(email.clone(), first_id.clone(), first_code.clone()).is_ok());
    assert!(store.get_code(&email) == Ok((first_id, first_code)));
    assert!(store.add_code(email.clone(), second_id.clone(), second_code.clone()).is_ok());
    assert!(store.get_code(&email) == Ok((second_id, second_code)));

    assert!(store.remove_code(&email).is_ok());
    assert!(store.get_code(&email) == Err(TwoFACodeStoreError::LoginAttemptIdNotFound));
    assert!(store.remove_code(&email).is_ok());
}

#[test]
fn two_fa_store_forgets_a_challenge_after_its_lifetime() {
    let mut store = HashmapTwoFACodeStore::new();
    let email = Email::parse("user@example.com".to_owned()).ok().unwrap();
    let (id, code) = challenge("550e8400-e29b-41d4-a716-446655440000", "123456");
    store.advance(1_000);
    assert!(store.add_code(email.clone(), id.clone(), code.clone()).is_ok());
    store.advance(1_000 + CHALLENGE_TTL_SECONDS - 1);
    assert!(store.get_code(&email) == Ok((id.clone(), code.clone())));
    store.advance(1_000 + CHALLENGE_TTL_SECONDS);
    assert!(store.get_code(&email) == Err(TwoFACodeStoreError::LoginAttemptIdNotFound));
    store.advance(500);
    assert!(store.get_code(&email) == Err(TwoFACodeStoreError::LoginAttemptIdNotFound));
    assert!(store.add_code(email.clone(), id.clone(), code.clone()).is_ok());
    assert!(store.get_code(&email) == Ok((id, code)));
}

#[test]
fn challenge_lifetime_is_ten_minutes() {
    assert_eq!(CHALLENGE_TTL_SECONDS, 600);
}

#[test]
fn last_of_many_challenges_for_one_address_stays() {
    let mut store = HashmapTwoFACodeStore::new();
    let email = Email::parse("user@example.com".to_owned()).ok().unwrap();
    let other = Email::parse("other@example.com".to_owned()).ok().unwrap();
    let (other_id, other_code) = challenge("67e55044-10b1-426f-9247-bb680e5fe0c8", "000000");
    assert!(store.add_code(other.clone(), other_id.clone(), other_code.clone()).is_ok());
    let mut last = None;
    for n in 0..25u32 {
        let id = LoginAttemptId::default();
        let code = TwoFACode::from_number(n * 7);
        assert!(store.add_code(email.clone(), id.clone(), code.clone()).is_ok());
        last = Some((id, code));
    }
    assert!(store.get_code(&email).ok() == last);
    assert!(store.get_code(&other) == Ok((other_id, other_code)));
}

#[test]
fn advance_to_present_sets_the_clock_to_the_time_read() {
    let mut store = HashmapTwoFACodeStore::new();
    let email = Email::parse("user@example.com".to_owned()).ok().unwrap();
    let (id, code) = challenge("550e8400-e29b-41d4-a716-446655440000", "123456");
    assert!(store.add_code(email.clone(), id.clone(), code.clone()).is_ok());
    let now = store.advance_to_present();
    assert!(now > 1_700_000_000);
    assert!(store.get_code(&email) == Err(TwoFACodeStoreError::LoginAttemptIdNotFound));
    assert!(store.add_code(email.clone(), id.clone(), code.clone()).is_ok());
    store.advance(now + CHALLENGE_TTL_SECONDS - 1);
    assert!(store.get_code(&email) == Ok((id.clone(), code.clone())));
    store.advance(now + CHALLENGE_TTL_SECONDS);
    assert!(store.get_code(&email) == Err(TwoFACodeStoreError::LoginAttemptIdNotFound));
}
