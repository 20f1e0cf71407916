use crate::domain::data_stores::is_six_digits;
use crate::domain::data_stores::uuid_accepts;
use crate::domain::data_stores::LoginAttemptId;
use crate::domain::data_stores::TwoFACode;
use crate::domain::data_stores::TwoFACodeStore;
use crate::domain::email::is_valid_email;
use crate::domain::email::Email;
use crate::domain::error::AuthAPIError;
use crate::routes::login::is_token_issued_at;
use crate::routes::login::no_token_at;
use crate::utils::auth::current_time;
use crate::utils::auth::generate_auth_token_at;
use crate::utils::auth::AuthConfig;
use crate::utils::challenge::challenge_verdict;
use crate::utils::challenge::verify_and_consume;
use crate::utils::challenge::ChallengeError;
use vstd::prelude::*;

verus! {

pub struct Verify2FARequest {
    pub email: String,
    pub login_attempt_id: String,
    pub two_fa_code: String,
}

/// What an answer to a challenge holds, as contracts see it.
pub struct Verify2FAView {
    pub email: Seq<char>,
    pub login_attempt_id: Seq<char>,
    pub two_fa_code: Seq<char>,
}

impl View for Verify2FARequest {
    type V = Verify2FAView;

    open spec fn view(&self) -> Verify2FAView {
        Verify2FAView {
            email: self.email@,
            login_attempt_id: self.login_attempt_id@,
            two_fa_code: self.two_fa_code@,
        }
    }
}

/// Whether the three parts of an answer are well formed.
pub open spec fn is_well_formed_answer(request: Verify2FAView) -> bool {
    is_valid_email(request.email) && uuid_accepts(request.login_attempt_id) && is_six_digits(
        request.two_fa_code,
    )
}

/// How an answer at `now` relates the pending challenges to the reply.
/// Malformed input gives `InvalidCredentials`; no pending challenge and a
/// wrong answer both give `IncorrectCredentials`; neither changes
/// anything. The right answer consumes the challenge, and only then is a
/// session token issued.
pub open spec fn second_factor_verified<C: TwoFACodeStore>(
    before: Map<Seq<char>, (Seq<char>, Seq<char>)>,
    after: Map<Seq<char>, (Seq<char>, Seq<char>)>,
    secret: Seq<char>,
    request: Verify2FAView,
    now: u64,
    r: Result<String, AuthAPIError>,
) -> bool {
    if !is_well_formed_answer(request) {
        after == before && r == Err::<String, AuthAPIError>(AuthAPIError::InvalidCredentials)
    } else if challenge_verdict(
        before,
        request.email,
        request.login_attempt_id,
        request.two_fa_code,
    ) is Err {
        &&& after == before
        &&& r is Err
        &&& r->Err_0 == AuthAPIError::IncorrectCredentials || (!C::dependable() && r->Err_0
            == AuthAPIError::UnexpectedError)
    } else {
        match r {
            Ok(token) => after == before.remove(request.email) && is_token_issued_at(
                token@,
                request.email,
                secret,
                now,
            ),
            Err(AuthAPIError::UnexpectedError) => {
                ||| after == before && !C::dependable()
                ||| after == before.remove(request.email) && no_token_at(now)
            },
            Err(_) => false,
        }
    }
}

/// Checks the answer to a challenge at `now` and, when it is right, issues
/// the session token.
pub fn verify_2fa_at<C: TwoFACodeStore>(
    two_fa_code_store: &mut C,
    config: &AuthConfig,
    request: Verify2FARequest,
    now: u64,
) -> (r: Result<String, AuthAPIError>)
    ensures
        second_factor_verified::<C>(
            old(two_fa_code_store).codes(),
            final(two_fa_code_store).codes(),
            config.jwt_secret@,
            request@,
            now,
            r,
        ),
{
    let email = match Email::parse(request.email) {
        Ok(email) => email,
        Err(_) => {
            return Err(AuthAPIError::InvalidCredentials);
        },
    };
    let login_attempt_id = match LoginAttemptId::parse(request.login_attempt_id) {
        Ok(login_attempt_id) => login_attempt_id,
        Err(_) => {
            return Err(AuthAPIError::InvalidCredentials);
        },
    };
    let two_fa_code = match TwoFACode::parse(request.two_fa_code) {
        Ok(two_fa_code) => two_fa_code,
        Err(_) => {
            return Err(AuthAPIError::InvalidCredentials);
        },
    };
    match verify_and_consume(two_fa_code_store, &email, &login_attempt_id, &two_fa_code) {
        Ok(()) => {},
        Err(ChallengeError::UnexpectedError) => {
            return Err(AuthAPIError::UnexpectedError);
        },
        Err(_) => {
            return Err(AuthAPIError::IncorrectCredentials);
        },
    }
    match generate_auth_token_at(&email, config, now) {
        Ok(token) => Ok(token),
        Err(_) => Err(AuthAPIError::UnexpectedError),
    }
}

/// Checks the answer to a challenge at the present time.
pub fn verify_2fa<C: TwoFACodeStore>(
    two_fa_code_store: &mut C,
    config: &AuthConfig,
    request: Verify2FARequest,
) -> (r: Result<String, AuthAPIError>)
    ensures
        exists|now: u64|
            second_factor_verified::<C>(
                old(two_fa_code_store).codes(),
                final(two_fa_code_store).codes(),
                config.jwt_secret@,
                request@,
                now,
                r,
            ),
{
    let now = current_time();
    let ghost asked = request@;
    let r = verify_2fa_at(two_fa_code_store, config, request, now);
    assert(second_factor_verified::<C>(
        old(two_fa_code_store).codes(),
        two_fa_code_store.codes(),
        config.jwt_secret@,
        asked,
        now,
        r,
    ));
    r
}

} // verus!
