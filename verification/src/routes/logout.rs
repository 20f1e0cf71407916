use crate::domain::data_stores::BannedTokenStore;
use crate::domain::error::AuthAPIError;
use crate::utils::auth::current_time;
use crate::utils::auth::face_value;
use crate::utils::auth::jwt_opened;
use crate::utils::auth::token_verdict;
use crate::utils::auth::validate_token_at;
use crate::utils::auth::AuthConfig;
use crate::utils::auth::TokenError;
use vstd::prelude::*;

verus! {

/// What the client sent as its session token, as contracts see it.
pub open spec fn token_view(token: Option<String>) -> Option<Seq<char>> {
    match token {
        Some(text) => Some(text@),
        None => None,
    }
}

/// How a logout at `now` relates the ledger before and after to its
/// answer. Without a token the answer is `MissingToken`; with a token that
/// is not accepted at `now` it is `InvalidToken`; neither changes the
/// ledger. An accepted token is revoked. Only a ledger that is not
/// dependable can give `UnexpectedError`, only for a token that is good
/// on its face, and then nothing changes.
pub open spec fn logged_out<B: BannedTokenStore>(
    before: Set<Seq<char>>,
    after: Set<Seq<char>>,
    secret: Seq<char>,
    token: Option<Seq<char>>,
    now: u64,
    r: Result<(), AuthAPIError>,
) -> bool {
    match token {
        None => after == before && r == Err::<(), AuthAPIError>(AuthAPIError::MissingToken),
        Some(text) => {
            ||| !B::dependable() && face_value(jwt_opened(text, secret), now) is Ok && after
                == before && r == Err::<(), AuthAPIError>(AuthAPIError::UnexpectedError)
            ||| if token_verdict(jwt_opened(text, secret), now, before.contains(text)) is Ok {
                after == before.insert(text) && r is Ok
            } else {
                after == before && r == Err::<(), AuthAPIError>(AuthAPIError::InvalidToken)
            }
        },
    }
}

/// Ends a session at `now`: the token is checked and then revoked.
pub fn logout_at<B: BannedTokenStore>(
    banned_token_store: &mut B,
    config: &AuthConfig,
    token: Option<String>,
    now: u64,
) -> (r: Result<(), AuthAPIError>)
    ensures
        logged_out::<B>(
            old(banned_token_store).banned(),
            final(banned_token_store).banned(),
            config.jwt_secret@,
            token_view(token),
            now,
            r,
        ),
{
    let token = match token {
        Some(token) => token,
        None => {
            return Err(AuthAPIError::MissingToken);
        },
    };
    match validate_token_at(token.as_str(), &*banned_token_store, config, now) {
        Ok(_) => {},
        Err(TokenError::UnexpectedError) => {
            return Err(AuthAPIError::UnexpectedError);
        },
        Err(_) => {
            return Err(AuthAPIError::InvalidToken);
        },
    }
    match banned_token_store.store_banned_token(token) {
        Ok(()) => Ok(()),
        Err(_) => Err(AuthAPIError::UnexpectedError),
    }
}

/// Ends a session at the present time.
pub fn logout<B: BannedTokenStore>(
    banned_token_store: &mut B,
    config: &AuthConfig,
    token: Option<String>,
) -> (r: Result<(), AuthAPIError>)
    ensures
        exists|now: u64|
            logged_out::<B>(
                old(banned_token_store).banned(),
                final(banned_token_store).banned(),
                config.jwt_secret@,
                token_view(token),
                now,
                r,
            ),
{
    let now = current_time();
    let ghost sent = token_view(token);
    let r = logout_at(banned_token_store, config, token, now);
    assert(logged_out::<B>(
        old(banned_token_store).banned(),
        banned_token_store.banned(),
        config.jwt_secret@,
        sent,
        now,
        r,
    ));
    r
}

} // verus!
