use auth_service::domain::data_stores::BannedTokenStore;
use auth_service::domain::data_stores::BannedTokenStoreError;
use auth_service::domain::data_stores::LoginAttemptId;
use auth_service::domain::data_stores::TwoFACode;
use auth_service::domain::data_stores::TwoFACodeStore;
use auth_service::domain::data_stores::UserStore;
use auth_service::domain::data_stores::UserStoreError;
use auth_service::domain::email::Email;
use auth_service::domain::error::AuthAPIError;
use auth_service::domain::password::Password;
use auth_service::domain::user::User;
use auth_service::routes::login::login;
use auth_service::routes::login::login_at;
use auth_service::routes::login::LoginRequest;
use auth_service::routes::login::LoginSuccess;
use auth_service::routes::logout::logout;
use auth_service::routes::logout::logout_at;
use auth_service::routes::signup::signup;
use auth_service::routes::signup::SignupRequest;
use auth_service::routes::verify_2fa::verify_2fa;
use auth_service::routes::verify_2fa::verify_2fa_at;
use auth_service::routes::verify_2fa::Verify2FARequest;
use auth_service::routes::verify_token::verify_token;
use auth_service::routes::verify_token::verify_token_at;
use auth_service::routes::verify_token::VerifyTokenRequest;
use auth_service::services::hashmap_two_fa_code_store::HashmapTwoFACodeStore;
use auth_service::services::hashmap_user_store::HashmapUserStore;
use auth_service::services::hashset_banned_token_store::HashSetBannedTokenStore;
use auth_service::utils::auth::AuthConfig;

struct TestApp {
    users: HashmapUserStore,
    banned: HashSetBannedTokenStore,
    codes: HashmapTwoFACodeStore,
    config: AuthConfig,
}

impl TestApp {
    fn new() -> TestApp {
        TestApp {
            users: HashmapUserStore::default(),
            banned: HashSetBannedTokenStore::default(),
            codes: HashmapTwoFACodeStore::default(),
            config: AuthConfig { jwt_secret: "secret".to_owned() },
        }
    }

    fn post_signup(&mut self, email: &str, password: &str, requires_2fa: bool) -> Result<String, AuthAPIError> {
        let request = SignupRequest {
            email: email.to_owned(),
            password: password.to_owned(),
            requires_2fa,
        };
        signup(&mut self.users, request).map(|response| response.message)
    }

    fn post_login(&mut self, email: &str, password: &str) -> Result<LoginSuccess, AuthAPIError> {
        let request = LoginRequest { email: email.to_owned(), password: password.to_owned() };
        login(&self.users, &mut self.codes, &self.config, request)
    }

    fn post_verify_2fa(&mut self, email: &str, id: &str, code: &str) -> Result<String, AuthAPIError> {
        let request = Verify2FARequest {
            email: email.to_owned(),
            login_attempt_id: id.to_owned(),
            two_fa_code: code.to_owned(),
        };
        verify_2fa(&mut self.codes, &self.config, request)
    }

    fn post_verify_token(&self, token: &str) -> Result<(), AuthAPIError> {
        verify_token(&self.banned, &self.config, VerifyTokenRequest { token: token.to_owned() })
    }

    fn post_logout(&mut self, token: Option<&str>) -> Result<(), AuthAPIError> {
        logout(&mut self.banned, &self.config, token.map(|t| t.to_owned()))
    }
}

fn token_of(success: Result<LoginSuccess, AuthAPIError>) -> String {
    match success {
        Ok(LoginSuccess::RegularAuth { token }) => token,
        _ => panic!("No auth cookie found"),
    }
}

fn challenge_of(success: Result<LoginSuccess, AuthAPIError>) -> (LoginAttemptId, TwoFACode) {
    match success {
        Ok(LoginSuccess::TwoFactorAuth { response, login_attempt_id, code }) => {
            assert_eq!(response.message, "2FA required");
            (login_attempt_id, code)
        }
        _ => panic!("Could not deserialize response body to TwoFactorAuthResponse"),
    }
}

#[test]
fn should_return_201_if_valid_input() {
    let mut app = TestApp::new();
    let response = app.post_signup("user@example.com", "password123", true);
    assert_eq!(response, Ok("User created successfully!".to_owned()));
}

#[test]
fn signup_should_return_400_if_invalid_input() {
    let mut app = TestApp::new();
    for (email, password) in
        [("invalid-email", "password123"), (" ", "password123"), ("user@example.com", "1234567")]
    {
        let response = app.post_signup(email, password, true);
        assert_eq!(response, Err(AuthAPIError::InvalidCredentials), "Failed for input: {:?}", email);
        let (status, body) = AuthAPIError::InvalidCredentials.into_response();
        assert_eq!(status, 400);
        assert_eq!(body.error, "Invalid credentials".to_owned());
    }
}

#[test]
fn should_return_409_if_email_already_exists() {
    let mut app = TestApp::new();
    let emails = ["first@example.com", "second@example.com"];
    for email in emails {
        assert!(app.post_signup(email, "password123", true).is_ok());
    }
    for email in emails {
        let response = app.post_signup(email, "password123", true);
        assert_eq!(response, Err(AuthAPIError::UserAlreadyExists), "Test case failed: {:?}", email);
    }
    let (status, body) = AuthAPIError::UserAlreadyExists.into_response();
    assert_eq!(status, 409);
    assert_eq!(body.error, "User already exists".to_owned());
}

#[test]
fn second_signup_is_refused_whatever_the_password() {
    let mut app = TestApp::new();
    assert!(app.post_signup("user@example.com", "password123", false).is_ok());
    assert_eq!(
        app.post_signup("user@example.com", "another password", true),
        Err(AuthAPIError::UserAlreadyExists)
    );
    assert!(matches!(
        app.post_login("user@example.com", "password123"),
        Ok(LoginSuccess::RegularAuth { .. })
    ));
    assert_eq!(
        app.post_login("user@example.com", "another password").err(),
        Some(AuthAPIError::IncorrectCredentials)
    );
}

#[test]
fn login_should_return_400_if_invalid_input() {
    let mut app = TestApp::new();
    let random_email = "user@example.com";
    assert!(app.post_signup(random_email, "password123", false).is_ok());

    let test_cases = vec![
        ("invalid_email", "password123"),
        (random_email, "invalid"),
        ("", "password123"),
        (random_email, ""),
        ("", ""),
    ];
    for (email, password) in test_cases {
        let response = app.post_login(email, password);
        assert_eq!(response.as_ref().err(), Some(&AuthAPIError::InvalidCredentials));
        let (status, body) = response.err().unwrap().into_response();
        assert_eq!(status, 400, "Failed for input: {:?}", email);
        assert_eq!(body.error, "Invalid credentials".to_owned());
    }
}

#[test]
fn should_return_401_if_invalid_credentials() {
    let mut app = TestApp::new();
    let random_email = "user@example.com";
    assert!(app.post_signup(random_email, "password123", false).is_ok());

    let test_cases = vec![
        (random_email, "wrong-password"),
        ("wrong@email.com", "password123"),
        ("wrong@email.com", "wrong-password"),
    ];
    for (email, password) in test_cases {
        let response = app.post_login(email, password);
        assert_eq!(response.err(), Some(AuthAPIError::IncorrectCredentials));
    }
    let (status, body) = AuthAPIError::IncorrectCredentials.into_response();
    assert_eq!(status, 401);
    assert_eq!(body.error, "Incorrect Credentials".to_owned());
}

#[test]
fn should_return_200_if_valid_credentials_and_2fa_disabled() {
    let mut app = TestApp::new();
    assert!(app.post_signup("user@example.com", "password123", false).is_ok());
    let token = token_of(app.post_login("user@example.com", "password123"));
    assert!(!token.is_empty());
    assert!(app.codes.get_code(&Email::parse("user@example.com".to_owned()).ok().unwrap()).is_err());
}

#[test]
fn should_return_206_if_valid_credentials_and_2fa_enabled() {
    let mut app = TestApp::new();
    assert!(app.post_signup("user@example.com", "password123", true).is_ok());
    let (id, code) = challenge_of(app.post_login("user@example.com", "password123"));
    let email = Email::parse("user@example.com".to_owned()).ok().unwrap();
    assert!(app.codes.get_code(&email) == Ok((id, code)));
}

#[test]
fn login_at_a_given_second_issues_the_token_of_that_second() {
    let mut app = TestApp::new();
    assert!(app.post_signup("user@example.com", "password123", false).is_ok());
    let request =
        LoginRequest { email: "user@example.com".to_owned(), password: "password123".to_owned() };
    let token = token_of(login_at(&app.users, &mut app.codes, &app.config, request, 1_000));
    let expected = [
        "eyJ0eXAiOiJKV1QiLCJhbGciOiJIUzI1NiJ9",
        "eyJleHAiOjE2MDAsInN1YiI6InVzZXJAZXhhbXBsZS5jb20ifQ",
        "r4ORLCd8nwxkelJ-s_-5eq7tNzN27CPBQ6mL058Yolo",
    ]
    .join(".");
    assert_eq!(token, expected);
    let request =
        LoginRequest { email: "user@example.com".to_owned(), password: "password123".to_owned() };
    assert_eq!(
        login_at(&app.users, &mut app.codes, &app.config, request, u64::MAX).err(),
        Some(AuthAPIError::UnexpectedError)
    );
}

#[test]
fn verify_2fa_should_return_400_if_invalid_input() {
    let mut app = TestApp::new();
    let random_email = "user@example.com";
    let login_attempt_id = LoginAttemptId::default().as_ref().to_owned();
    let two_fa_code = TwoFACode::default().as_ref().to_owned();

    let test_cases = [
        (random_email, login_attempt_id.as_str(), "bad 2fa code"),
        (random_email, "bad login attempt", two_fa_code.as_str()),
        (random_email, "bad login attempt", "bad 2fa code"),
        ("bad email", login_attempt_id.as_str(), two_fa_code.as_str()),
    ];
    for (email, id, code) in test_cases {
        let response = app.post_verify_2fa(email, id, code);
        assert_eq!(response, Err(AuthAPIError::InvalidCredentials));
        let (status, body) = response.err().unwrap().into_response();
        assert_eq!(status, 400, "Failed for input: {:?}", email);
        assert_eq!(body.error, "Invalid credentials".to_owned());
    }
}

#[test]
fn should_return_401_if_incorrect_credentials() {
    let mut app = TestApp::new();
    assert!(app.post_signup("user@example.com", "password123", true).is_ok());

    let wrong_login_attempt_id = LoginAttemptId::default().as_ref().to_owned();
    let wrong_two_fa_code = TwoFACode::default().as_ref().to_owned();
    let response =
        app.post_verify_2fa("wrong@example.com", &wrong_login_attempt_id, &wrong_two_fa_code);
    assert_eq!(response, Err(AuthAPIError::IncorrectCredentials));

    let (id, code) = challenge_of(app.post_login("user@example.com", "password123"));
    let other_code = if code.as_ref() == "123456" { "654321" } else { "123456" };
    assert_eq!(
        app.post_verify_2fa("user@example.com", id.as_ref(), other_code),
        Err(AuthAPIError::IncorrectCredentials)
    );
    assert_eq!(
        app.post_verify_2fa("user@example.com", &wrong_login_attempt_id, code.as_ref()),
        Err(AuthAPIError::IncorrectCredentials)
    );
    assert!(app.post_verify_2fa("user@example.com", id.as_ref(), code.as_ref()).is_ok());
}

#[test]
fn should_return_401_if_old_code() {
    let mut app = TestApp::new();
    assert!(app.post_signup("user@example.com", "password123", true).is_ok());
    let (first_id, first_code) = challenge_of(app.post_login("user@example.com", "password123"));
    let (second_id, second_code) = challenge_of(app.post_login("user@example.com", "password123"));
    assert!(first_id != second_id);

    let response = app.post_verify_2fa("user@example.com", first_id.as_ref(), first_code.as_ref());
    assert_eq!(response, Err(AuthAPIError::IncorrectCredentials));
    assert!(app
        .post_verify_2fa("user@example.com", second_id.as_ref(), second_code.as_ref())
        .is_ok());
}

#[test]
fn should_return_200_if_correct_code() {
    let mut app = TestApp::new();
    assert!(app.post_signup("user@example.com", "password123", true).is_ok());
    let (id, code) = challenge_of(app.post_login("user@example.com", "password123"));
    let token = app.post_verify_2fa("user@example.com", id.as_ref(), code.as_ref());
    assert!(token.is_ok(), "No auth cookie found");
    let token = token.ok().unwrap();
    assert!(!token.is_empty());
    assert_eq!(app.post_verify_token(&token), Ok(()));
}

#[test]
fn should_return_401_if_same_code_twice() {
    let mut app = TestApp::new();
    assert!(app.post_signup("user@example.com", "password123", true).is_ok());
    let (id, code) = challenge_of(app.post_login("user@example.com", "password123"));
    assert!(app.post_verify_2fa("user@example.com", id.as_ref(), code.as_ref()).is_ok());
    assert_eq!(
        app.post_verify_2fa("user@example.com", id.as_ref(), code.as_ref()),
        Err(AuthAPIError::IncorrectCredentials)
    );
}

#[test]
fn verify_2fa_at_a_given_second() {
    let mut app = TestApp::new();
    let email = Email::parse("user@example.com".to_owned()).ok().unwrap();
    let id = LoginAttemptId::parse("550e8400-e29b-41d4-a716-446655440000".to_owned()).ok().unwrap();
    let code = TwoFACode::parse("123456".to_owned()).ok().unwrap();
    assert!(app.codes.add_code(email.clone(), id, code).is_ok());
    let request = Verify2FARequest {
        email: "user@example.com".to_owned(),
        login_attempt_id: "550e8400-e29b-41d4-a716-446655440000".to_owned(),
        two_fa_code: "123456".to_owned(),
    };
    let token = verify_2fa_at(&mut app.codes, &app.config, request, 1_000).ok().unwrap();
    assert!(token.ends_with("r4ORLCd8nwxkelJ-s_-5eq7tNzN27CPBQ6mL058Yolo"));
    assert!(app.codes.get_code(&email).is_err());
}

#[test]
fn should_return_200_valid_token() {
    let mut app = TestApp::new();
    assert!(app.post_signup("user@example.com", "password123", false).is_ok());
    let token = token_of(app.post_login("user@example.com", "password123"));
    assert!(!token.is_empty());
    assert_eq!(app.post_verify_token(&token), Ok(()));
}

#[test]
fn should_return_401_if_invalid_token() {
    let app = TestApp::new();
    let response = app.post_verify_token("invalid_token");
    assert_eq!(response, Err(AuthAPIError::InvalidToken));
    assert_eq!(AuthAPIError::InvalidToken.into_response().0, 401);
}

#[test]
fn logout_without_token_is_refused() {
    let mut app = TestApp::new();
    assert_eq!(app.post_logout(None), Err(AuthAPIError::MissingToken));
    assert_eq!(AuthAPIError::MissingToken.into_response().0, 400);
}

#[test]
fn logout_with_invalid_token_is_refused() {
    let mut app = TestApp::new();
    assert_eq!(app.post_logout(Some("invalid_token")), Err(AuthAPIError::InvalidToken));
    assert_eq!(app.banned.check_for_banned("invalid_token"), Ok(false));
}

#[test]
fn token_is_revoked_after_logout() {
    let mut app = TestApp::new();
    assert!(app.post_signup("user@example.com", "password123", false).is_ok());
    let token = token_of(app.post_login("user@example.com", "password123"));
    assert_eq!(app.post_verify_token(&token), Ok(()));
    assert_eq!(app.post_logout(Some(&token)), Ok(()));
    assert_eq!(app.post_verify_token(&token), Err(AuthAPIError::RevokedToken));
    assert_eq!(app.post_logout(Some(&token)), Err(AuthAPIError::InvalidToken));
}

#[test]
fn expired_token_is_reported_as_expired() {
    let mut app = TestApp::new();
    assert!(app.post_signup("user@example.com", "password123", false).is_ok());
    let request =
        LoginRequest { email: "user@example.com".to_owned(), password: "password123".to_owned() };
    let token = token_of(login_at(&app.users, &mut app.codes, &app.config, request, 1_000));
    let verify = |app: &TestApp, now: u64| {
        verify_token_at(&app.banned, &app.config, VerifyTokenRequest { token: token.clone() }, now)
    };
    assert_eq!(verify(&app, 1_600), Ok(()));
    assert_eq!(verify(&app, 1_601), Err(AuthAPIError::ExpiredToken));
    assert_eq!(
        logout_at(&mut app.banned, &app.config, Some(token.clone()), 1_601),
        Err(AuthAPIError::InvalidToken)
    );
    assert_eq!(logout_at(&mut app.banned, &app.config, Some(token.clone()), 1_500), Ok(()));
    assert_eq!(verify(&app, 1_500), Err(AuthAPIError::RevokedToken));
    assert_eq!(verify(&app, 1_601), Err(AuthAPIError::ExpiredToken));
}

#[test]
fn signup_keeps_the_identity_in_the_directory() {
    let mut app = TestApp::new();
    assert!(app.post_signup("user@example.com", "password123", true).is_ok());
    let email = Email::parse("user@example.com".to_owned()).ok().unwrap();
    let user = app.users.get_user(&email).ok().unwrap();
    assert!(user.email == email);
    assert_eq!(user.password.as_ref(), "password123");
    assert!(user.requires_2fa);
}

/// A directory whose lookups fail and which holds one address already.
struct FailingLookupDirectory {
    taken: String,
}

impl UserStore for FailingLookupDirectory {
    fn add_user(&mut self, user: User) -> Result<(), UserStoreError> {
        if user.email.as_ref() == &self.taken {
            Err(UserStoreError::UserAlreadyExists)
        } else {
            Err(UserStoreError::UnexpectedError)
        }
    }

    fn get_user(&self, _email: &Email) -> Result<User, UserStoreError> {
        Err(UserStoreError::UnexpectedError)
    }

    fn validate_user(&self, _email: &Email, _password: &Password) -> Result<(), UserStoreError> {
        Err(UserStoreError::UnexpectedError)
    }
}

#[test]
fn signup_reports_a_taken_address_that_only_the_insert_finds() {
    let mut directory = FailingLookupDirectory { taken: "user@example.com".to_owned() };
    let taken = SignupRequest {
        email: "user@example.com".to_owned(),
        password: "password123".to_owned(),
        requires_2fa: false,
    };
    assert_eq!(
        signup(&mut directory, taken).map(|response| response.message),
        Err(AuthAPIError::UserAlreadyExists)
    );
    let other = SignupRequest {
        email: "other@example.com".to_owned(),
        password: "password123".to_owned(),
        requires_2fa: false,
    };
    assert_eq!(
        signup(&mut directory, other).map(|response| response.message),
        Err(AuthAPIError::UnexpectedError)
    );
}

/// A ledger that never answers.
struct SilentLedger;

impl BannedTokenStore for SilentLedger {
    fn store_banned_token(&mut self, _token: String) -> Result<(), BannedTokenStoreError> {
        Err(BannedTokenStoreError::UnexpectedError)
    }

    fn check_for_banned(&self, _token: &str) -> Result<bool, BannedTokenStoreError> {
        Err(BannedTokenStoreError::UnexpectedError)
    }
}

#[test]
fn bad_token_is_invalid_even_when_the_ledger_is_silent() {
    let mut app = TestApp::new();
    assert!(app.post_signup("user@example.com", "password123", false).is_ok());
    let request =
        LoginRequest { email: "user@example.com".to_owned(), password: "password123".to_owned() };
    let token = token_of(login_at(&app.users, &mut app.codes, &app.config, request, 1_000));

    let mut ledger = SilentLedger;
    assert_eq!(
        logout_at(&mut ledger, &app.config, Some("invalid_token".to_owned()), 1_000),
        Err(AuthAPIError::InvalidToken)
    );
    assert_eq!(
        logout_at(&mut ledger, &app.config, Some(token.clone()), 1_601),
        Err(AuthAPIError::InvalidToken)
    );
    assert_eq!(
        logout_at(&mut ledger, &app.config, Some(token.clone()), 1_000),
        Err(AuthAPIError::UnexpectedError)
    );
    assert_eq!(
        verify_token_at(&ledger, &app.config, VerifyTokenRequest { token: token.clone() }, 1_601),
        Err(AuthAPIError::ExpiredToken)
    );
    assert_eq!(
        verify_token_at(&ledger, &app.config, VerifyTokenRequest { token }, 1_000),
        Err(AuthAPIError::UnexpectedError)
    );
}

#[test]
fn challenge_expires_once_the_store_clock_is_brought_forward() {
    let mut app = TestApp::new();
    let email = Email::parse("user@example.com".to_owned()).ok().unwrap();
    let id = LoginAttemptId::parse("550e8400-e29b-41d4-a716-446655440000".to_owned()).ok().unwrap();
    let code = TwoFACode::parse("123456".to_owned()).ok().unwrap();
    let answer = || Verify2FARequest {
        email: "user@example.com".to_owned(),
        login_attempt_id: "550e8400-e29b-41d4-a716-446655440000".to_owned(),
        two_fa_code: "123456".to_owned(),
    };

    app.codes.advance(1_000);
    assert!(app.codes.add_code(email.clone(), id.clone(), code.clone()).is_ok());
    app.codes.advance(1_600);
    assert_eq!(
        verify_2fa_at(&mut app.codes, &app.config, answer(), 1_600),
        Err(AuthAPIError::IncorrectCredentials)
    );

    assert!(app.codes.add_code(email.clone(), id.clone(), code.clone()).is_ok());
    assert!(verify_2fa_at(&mut app.codes, &app.config, answer(), 5_000).is_ok());

    assert!(app.codes.add_code(email.clone(), id, code).is_ok());
    app.codes.advance(2_199);
    assert!(verify_2fa_at(&mut app.codes, &app.config, answer(), 2_199).is_ok());
}
