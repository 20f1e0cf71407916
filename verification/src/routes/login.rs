use crate::domain::data_stores::LoginAttemptId;
use crate::domain::data_stores::TwoFACode;
use crate::domain::data_stores::TwoFACodeStore;
use crate::domain::data_stores::UserStore;
use crate::domain::email::is_valid_email;
use crate::domain::email::Email;
use crate::domain::error::AuthAPIError;
use crate::domain::password::is_valid_password;
use crate::domain::password::Password;
use crate::domain::user::UserView;
use crate::utils::auth::current_time;
use crate::utils::auth::expiry_at;
use crate::utils::auth::generate_auth_token_at;
use crate::utils::auth::jwt_opened;
use crate::utils::auth::jwt_signed;
use crate::utils::auth::AuthConfig;
use crate::utils::challenge::issue_challenge;
use vstd::prelude::*;

verus! {

pub struct LoginRequest {
    pub email: String,
    pub password: String,
}

pub struct LoginResponse {
    pub message: String,
}

/// What a login was asked for, as contracts see it.
pub struct LoginView {
    pub email: Seq<char>,
    pub password: Seq<char>,
}

impl View for LoginRequest {
    type V = LoginView;

    open spec fn view(&self) -> LoginView {
        LoginView { email: self.email@, password: self.password@ }
    }
}

/// A login that passed the check of the credentials.
pub enum LoginSuccess {
    /// The identity needs no second factor: here is its session token.
    RegularAuth { token: String },
    /// A challenge was issued. The login attempt goes back to the client;
    /// the code goes to the identity's address and to nobody else.
    TwoFactorAuth { response: LoginResponse, login_attempt_id: LoginAttemptId, code: TwoFACode },
}

/// Whether the directory holds the address with a credential that admits
/// the password.
pub open spec fn credentials_pass<U: UserStore>(
    users: Map<Seq<char>, UserView>,
    request: LoginView,
) -> bool {
    users.contains_key(request.email) && U::admits(users[request.email].password, request.password)
}

/// Whether `token` is the session token for the address issued at `now`:
/// the signer wrote it for the address and the expiry, and the decoder
/// reads both from it.
pub open spec fn is_token_issued_at(
    token: Seq<char>,
    email: Seq<char>,
    secret: Seq<char>,
    now: u64,
) -> bool {
    &&& expiry_at(now) <= u64::MAX
    &&& token.len() > 0
    &&& jwt_signed(email, expiry_at(now) as u64, secret) == Some(token)
    &&& jwt_opened(token, secret) == Some((email, expiry_at(now) as u64))
}

/// Whether no session token can be issued at `now`: its expiry would lie
/// beyond the last second that can be written.
pub open spec fn no_token_at(now: u64) -> bool {
    expiry_at(now) > u64::MAX
}

/// How a login at `now` relates the stores to its answer. Malformed input
/// gives `InvalidCredentials`; an unknown address and a wrong password
/// both give `IncorrectCredentials`; neither changes anything. With good
/// credentials an identity without second factor gets a session token,
/// and one with second factor gets a challenge that takes the place of
/// any pending one.
pub open spec fn logged_in<U: UserStore, C: TwoFACodeStore>(
    users: Map<Seq<char>, UserView>,
    codes_before: Map<Seq<char>, (Seq<char>, Seq<char>)>,
    codes_after: Map<Seq<char>, (Seq<char>, Seq<char>)>,
    secret: Seq<char>,
    request: LoginView,
    now: u64,
    r: Result<LoginSuccess, AuthAPIError>,
) -> bool {
    if !(is_valid_email(request.email) && is_valid_password(request.password)) {
        codes_after == codes_before && r == Err::<LoginSuccess, AuthAPIError>(
            AuthAPIError::InvalidCredentials,
        )
    } else if !credentials_pass::<U>(users, request) {
        codes_after == codes_before && r == Err::<LoginSuccess, AuthAPIError>(
            AuthAPIError::IncorrectCredentials,
        )
    } else {
        match r {
            Ok(LoginSuccess::RegularAuth { token }) => {
                &&& codes_after == codes_before
                &&& !users[request.email].requires_2fa
                &&& is_token_issued_at(token@, request.email, secret, now)
            },
            Ok(LoginSuccess::TwoFactorAuth { response, login_attempt_id, code }) => {
                &&& users[request.email].requires_2fa
                &&& response.message@ == "2FA required"@
                &&& codes_after == codes_before.insert(request.email, (login_attempt_id@, code@))
            },
            Err(AuthAPIError::IncorrectCredentials) => codes_after == codes_before
                && !U::dependable(),
            Err(AuthAPIError::UnexpectedError) => {
                &&& codes_after == codes_before
                &&& if users[request.email].requires_2fa {
                    !C::dependable()
                } else {
                    no_token_at(now)
                }
            },
            Err(_) => false,
        }
    }
}

/// Logs an identity in at `now`.
pub fn login_at<U: UserStore, C: TwoFACodeStore>(
    user_store: &U,
    two_fa_code_store: &mut C,
    config: &AuthConfig,
    request: LoginRequest,
    now: u64,
) -> (r: Result<LoginSuccess, AuthAPIError>)
    ensures
        logged_in::<U, C>(
            user_store.users(),
            old(two_fa_code_store).codes(),
            final(two_fa_code_store).codes(),
            config.jwt_secret@,
            request@,
            now,
            r,
        ),
{
    let email = match Email::parse(request.email) {
        Ok(email) => email,
        Err(_) => {
            return Err(AuthAPIError::InvalidCredentials);
        },
    };
    let password = match Password::parse(request.password) {
        Ok(password) => password,
        Err(_) => {
            return Err(AuthAPIError::InvalidCredentials);
        },
    };
    if user_store.validate_user(&email, &password).is_err() {
        return Err(AuthAPIError::IncorrectCredentials);
    }
    let user = match user_store.get_user(&email) {
        Ok(user) => user,
        Err(_) => {
            return Err(AuthAPIError::IncorrectCredentials);
        },
    };
    if user.requires_2fa {
        match issue_challenge(two_fa_code_store, &email) {
            Ok((login_attempt_id, code)) => Ok(
                LoginSuccess::TwoFactorAuth {
                    response: LoginResponse { message: "2FA required".to_owned() },
                    login_attempt_id,
                    code,
                },
            ),
            Err(_) => Err(AuthAPIError::UnexpectedError),
        }
    } else {
        match generate_auth_token_at(&email, config, now) {
            Ok(token) => Ok(LoginSuccess::RegularAuth { token }),
            Err(_) => Err(AuthAPIError::UnexpectedError),
        }
    }
}

/// Logs an identity in at the present time.
pub fn login<U: UserStore, C: TwoFACodeStore>(
    user_store: &U,
    two_fa_code_store: &mut C,
    config: &AuthConfig,
    request: LoginRequest,
) -> (r: Result<LoginSuccess, AuthAPIError>)
    ensures
        exists|now: u64|
            logged_in::<U, C>(
                user_store.users(),
                old(two_fa_code_store).codes(),
                final(two_fa_code_store).codes(),
                config.jwt_secret@,
                request@,
                now,
                r,
            ),
{
    let now = current_time();
    let ghost asked = request@;
    let r = login_at(user_store, two_fa_code_store, config, request, now);
    assert(logged_in::<U, C>(
        user_store.users(),
        old(two_fa_code_store).codes(),
        two_fa_code_store.codes(),
        config.jwt_secret@,
        asked,
        now,
        r,
    ));
    r
}

} // verus!
