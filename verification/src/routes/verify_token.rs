use crate::domain::data_stores::BannedTokenStore;
use crate::domain::error::AuthAPIError;
use crate::utils::auth::current_time;
use crate::utils::auth::face_value;
use crate::utils::auth::jwt_opened;
use crate::utils::auth::token_verdict;
use crate::utils::auth::validate_token_at;
use crate::utils::auth::AuthConfig;
use crate::utils::auth::ClaimsView;
use crate::utils::auth::TokenError;
use vstd::prelude::*;

verus! {

pub struct VerifyTokenRequest {
    pub token: String,
}

/// The failure that a client sees for each reason to refuse a token.
pub open spec fn shown_as(e: TokenError) -> AuthAPIError {
    match e {
        TokenError::ExpiredToken => AuthAPIError::ExpiredToken,
        TokenError::InvalidToken => AuthAPIError::InvalidToken,
        TokenError::RevokedToken => AuthAPIError::RevokedToken,
        TokenError::UnexpectedError => AuthAPIError::UnexpectedError,
    }
}

/// The answer for a verdict on a token.
pub open spec fn answer_for(verdict: Result<ClaimsView, TokenError>) -> Result<(), AuthAPIError> {
    match verdict {
        Ok(_) => Ok(()),
        Err(e) => Err(shown_as(e)),
    }
}

/// How verifying at `now` relates the answer to the token and the ledger:
/// it is the answer for the token's verdict, except that a ledger which is
/// not dependable may fail to answer for a token that is good on its face.
pub open spec fn token_verified<B: BannedTokenStore>(
    banned: Set<Seq<char>>,
    secret: Seq<char>,
    token: Seq<char>,
    now: u64,
    r: Result<(), AuthAPIError>,
) -> bool {
    ||| r == answer_for(token_verdict(jwt_opened(token, secret), now, banned.contains(token)))
    ||| {
        &&& !B::dependable()
        &&& face_value(jwt_opened(token, secret), now) is Ok
        &&& r == Err::<(), AuthAPIError>(AuthAPIError::UnexpectedError)
    }
}

/// Tells whether a token is accepted at `now`.
pub fn verify_token_at<B: BannedTokenStore>(
    banned_token_store: &B,
    config: &AuthConfig,
    request: VerifyTokenRequest,
    now: u64,
) -> (r: Result<(), AuthAPIError>)
    ensures
        token_verified::<B>(
            banned_token_store.banned(),
            config.jwt_secret@,
            request.token@,
            now,
            r,
        ),
{
    match validate_token_at(request.token.as_str(), banned_token_store, config, now) {
        Ok(_) => Ok(()),
        Err(TokenError::ExpiredToken) => Err(AuthAPIError::ExpiredToken),
        Err(TokenError::InvalidToken) => Err(AuthAPIError::InvalidToken),
        Err(TokenError::RevokedToken) => Err(AuthAPIError::RevokedToken),
        Err(TokenError::UnexpectedError) => Err(AuthAPIError::UnexpectedError),
    }
}

/// Tells whether a token is accepted at the present time.
pub fn verify_token<B: BannedTokenStore>(
    banned_token_store: &B,
    config: &AuthConfig,
    request: VerifyTokenRequest,
) -> (r: Result<(), AuthAPIError>)
    ensures
        exists|now: u64|
            token_verified::<B>(
                banned_token_store.banned(),
                config.jwt_secret@,
                request.token@,
                now,
                r,
            ),
{
    let now = current_time();
    let ghost token = request.token@;
    let r = verify_token_at(banned_token_store, config, request, now);
    assert(token_verified::<B>(banned_token_store.banned(), config.jwt_secret@, token, now, r));
    r
}

} // verus!
