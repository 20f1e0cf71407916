use crate::domain::data_stores::BannedTokenStore;
use crate::domain::email::is_valid_email;
use crate::domain::email::Email;
use vstd::prelude::*;

verus! {

/// The name of the cookie that carries the session token.
pub const JWT_COOKIE_NAME: &'static str = "jwt";

/// The lifetime of a session token, in seconds.
pub const TOKEN_TTL_SECONDS: i64 = 600;

/// The signing key, fixed when the service starts and only read after.
pub struct AuthConfig {
    pub jwt_secret: String,
}

/// What a session token asserts: the address of the authenticated identity
/// and the second after which the token is no longer accepted.
pub struct Claims {
    pub sub: Email,
    pub exp: u64,
}

pub struct ClaimsView {
    pub sub: Seq<char>,
    pub exp: u64,
}

impl View for Claims {
    type V = ClaimsView;

    open spec fn view(&self) -> ClaimsView {
        ClaimsView { sub: self.sub@, exp: self.exp }
    }
}

/// Why a token was not accepted.
#[derive(Clone, Copy, Debug, PartialEq, Eq, Structural)]
pub enum TokenError {
    /// The token is past its expiry.
    ExpiredToken,
    /// The token is not one that this key signed for an address.
    InvalidToken,
    /// The token was revoked.
    RevokedToken,
    /// No expiry could be written, or the ledger did not answer.
    UnexpectedError,
}

/// The token that `jsonwebtoken::encode` writes under HS256 for the
/// subject and expiry with the key.
pub uninterp spec fn jwt_signed(sub: Seq<char>, exp: u64, secret: Seq<char>) -> Option<Seq<char>>;

/// The subject and expiry that `jsonwebtoken::decode` reads from a token
/// whose HS256 signature holds under the key; `None` for any other text.
pub uninterp spec fn jwt_opened(token: Seq<char>, secret: Seq<char>) -> Option<(Seq<char>, u64)>;

/// Calls `jsonwebtoken::encode` with the default header (HS256) on the two
/// claims `sub` and `exp`. With a key made from a secret and these two
/// claims nothing on the way can refuse, so a token always comes back. It
/// is three parts joined by dots, so it is never empty. It is a function
/// of the claims and the key, and decoding it under the same key gives the
/// two claims back.
#[verifier::external_body]
fn sign_claims(sub: &str, exp: u64, secret: &str) -> (token: Option<String>)
    ensures
        token is Some,
        token matches Some(text) ==> text@.len() > 0,
        token matches Some(text) ==> jwt_signed(sub@, exp, secret@) == Some(text@),
        token matches Some(text) ==> jwt_opened(text@, secret@) == Some((sub@, exp)),
{
    let mut claims = serde_json::Map::new();
    claims.insert("sub".to_owned(), serde_json::Value::from(sub));
    claims.insert("exp".to_owned(), serde_json::Value::from(exp));
    let key = jsonwebtoken::EncodingKey::from_secret(secret.as_bytes());
    jsonwebtoken::encode(&jsonwebtoken::Header::default(), &claims, &key).ok()
}

/// Calls `jsonwebtoken::decode` for HS256 with the check of the expiry
/// switched off, so that it checks the signature and reads the claims
/// without looking at a clock, and picks the claims `sub` and `exp`.
#[verifier::external_body]
fn open_token(token: &str, secret: &str) -> (claims: Option<(String, u64)>)
    ensures
        claims matches Some(found) ==> jwt_opened(token@, secret@) == Some((found.0@, found.1)),
        claims is None ==> jwt_opened(token@, secret@) is None,
{
    let mut validation = jsonwebtoken::Validation::new(jsonwebtoken::Algorithm::HS256);
    validation.validate_exp = false;
    validation.required_spec_claims.clear();
    let key = jsonwebtoken::DecodingKey::from_secret(secret.as_bytes());
    let data = jsonwebtoken::decode::<serde_json::Map<String, serde_json::Value>>(
        token,
        &key,
        &validation,
    ).ok()?;
    Some((data.claims.get("sub")?.as_str()?.to_owned(), data.claims.get("exp")?.as_u64()?))
}

/// Calls `jsonwebtoken::get_current_timestamp`: the seconds since the Unix
/// epoch by the system clock.
#[verifier::external_body]
pub(crate) fn current_time() -> (now: u64) {
    jsonwebtoken::get_current_timestamp()
}

/// The expiry of a token issued at `now`.
pub open spec fn expiry_at(now: u64) -> int {
    now + TOKEN_TTL_SECONDS
}

/// How issuing at `now` relates the answer to the signer's. Issuing fails
/// only where the expiry would lie beyond the last second that can be
/// written. The token carries the address and the expiry, and the decoder
/// reads them from it under the same key.
pub open spec fn issued_at(
    email: Seq<char>,
    secret: Seq<char>,
    now: u64,
    r: Result<String, TokenError>,
) -> bool {
    if expiry_at(now) > u64::MAX {
        r == Err::<String, TokenError>(TokenError::UnexpectedError)
    } else {
        &&& r matches Ok(token)
        &&& token@.len() > 0
        &&& jwt_signed(email, expiry_at(now) as u64, secret) == Some(token@)
        &&& jwt_opened(token@, secret) == Some((email, expiry_at(now) as u64))
    }
}

/// Signs a token for the address that expires one lifetime after `now`.
pub fn generate_auth_token_at(email: &Email, config: &AuthConfig, now: u64) -> (r: Result<
    String,
    TokenError,
>)
    ensures
        issued_at(email@, config.jwt_secret@, now, r),
{
    if now > u64::MAX - (TOKEN_TTL_SECONDS as u64) {
        return Err(TokenError::UnexpectedError);
    }
    let exp = now + (TOKEN_TTL_SECONDS as u64);
    match sign_claims(email.as_ref().as_str(), exp, config.jwt_secret.as_str()) {
        Some(token) => Ok(token),
        None => Err(TokenError::UnexpectedError),
    }
}

/// Signs a token for the address that expires one lifetime after the
/// present time.
pub fn generate_auth_token(email: &Email, config: &AuthConfig) -> (r: Result<String, TokenError>)
    ensures
        exists|now: u64| issued_at(email@, config.jwt_secret@, now, r),
{
    let now = current_time();
    let r = generate_auth_token_at(email, config, now);
    assert(issued_at(email@, config.jwt_secret@, now, r));
    r
}

/// What a token is on its face at `now`, before the ledger is asked: its
/// claims, or the reason to refuse it. A token past its expiry is refused
/// as expired whatever the ledger holds.
pub open spec fn face_value(opened: Option<(Seq<char>, u64)>, now: u64) -> Result<
    ClaimsView,
    TokenError,
> {
    match opened {
        None => Err(TokenError::InvalidToken),
        Some((sub, exp)) => if !is_valid_email(sub) {
            Err(TokenError::InvalidToken)
        } else if now > exp {
            Err(TokenError::ExpiredToken)
        } else {
            Ok(ClaimsView { sub, exp })
        },
    }
}

/// The verdict on a token at `now`, given what the decoder read from it
/// and whether the ledger holds it.
pub open spec fn token_verdict(opened: Option<(Seq<char>, u64)>, now: u64, revoked: bool) -> Result<
    ClaimsView,
    TokenError,
> {
    match face_value(opened, now) {
        Err(e) => Err(e),
        Ok(claims) => if revoked {
            Err(TokenError::RevokedToken)
        } else {
            Ok(claims)
        },
    }
}

/// Whether the two answers are the same, claims compared by their views.
pub open spec fn same_verdict(r: Result<Claims, TokenError>, v: Result<ClaimsView, TokenError>) -> bool {
    match (r, v) {
        (Ok(claims), Ok(view)) => claims@ == view,
        (Err(e), Err(f)) => e == f,
        _ => false,
    }
}

/// What the decoder read, as contracts see it.
pub open spec fn opened_view(opened: Option<(String, u64)>) -> Option<(Seq<char>, u64)> {
    match opened {
        Some(found) => Some((found.0@, found.1)),
        None => None,
    }
}

/// Checks what the decoder read from a token: the subject must be a valid
/// address and `now` must not be past the expiry.
pub fn check_face(opened: Option<(String, u64)>, now: u64) -> (r: Result<Claims, TokenError>)
    ensures
        same_verdict(r, face_value(opened_view(opened), now)),
{
    match opened {
        None => Err(TokenError::InvalidToken),
        Some((sub, exp)) => {
            match Email::parse(sub) {
                Err(_) => Err(TokenError::InvalidToken),
                Ok(email) => {
                    if now > exp {
                        Err(TokenError::ExpiredToken)
                    } else {
                        Ok(Claims { sub: email, exp })
                    }
                },
            }
        },
    }
}

/// How validating at `now` relates the answer to the ledger: the verdict
/// is exact, except that a ledger which is not dependable may fail to
/// answer for a token that is good on its face.
pub open spec fn validated_at(
    token: Seq<char>,
    secret: Seq<char>,
    banned: Set<Seq<char>>,
    dependable: bool,
    now: u64,
    r: Result<Claims, TokenError>,
) -> bool {
    ||| same_verdict(r, token_verdict(jwt_opened(token, secret), now, banned.contains(token)))
    ||| {
        &&& !dependable
        &&& face_value(jwt_opened(token, secret), now) is Ok
        &&& r matches Err(e) && e == TokenError::UnexpectedError
    }
}

/// Validates a token at `now`: signature and expiry first, and the
/// ledger only for a token that is good on its face.
pub fn validate_token_at<B: BannedTokenStore>(
    token: &str,
    banned_token_store: &B,
    config: &AuthConfig,
    now: u64,
) -> (r: Result<Claims, TokenError>)
    ensures
        validated_at(
            token@,
            config.jwt_secret@,
            banned_token_store.banned(),
            B::dependable(),
            now,
            r,
        ),
{
    let opened = open_token(token, config.jwt_secret.as_str());
    let claims = match check_face(opened, now) {
        Ok(claims) => claims,
        Err(e) => {
            return Err(e);
        },
    };
    match banned_token_store.check_for_banned(token) {
        Ok(true) => Err(TokenError::RevokedToken),
        Ok(false) => Ok(claims),
        Err(_) => Err(TokenError::UnexpectedError),
    }
}

/// Validates a token at the present time.
pub fn validate_token<B: BannedTokenStore>(
    token: &str,
    banned_token_store: &B,
    config: &AuthConfig,
) -> (r: Result<Claims, TokenError>)
    ensures
        exists|now: u64|
            validated_at(
                token@,
                config.jwt_secret@,
                banned_token_store.banned(),
                B::dependable(),
                now,
                r,
            ),
{
    let now = current_time();
    let r = validate_token_at(token, banned_token_store, config, now);
    assert(validated_at(
        token@,
        config.jwt_secret@,
        banned_token_store.banned(),
        B::dependable(),
        now,
        r,
    ));
    r
}

} // verus!
