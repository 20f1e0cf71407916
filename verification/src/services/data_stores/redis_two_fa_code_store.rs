use crate::domain::data_stores::is_six_digits;
use crate::domain::data_stores::uuid_accepts;
use crate::domain::data_stores::LoginAttemptId;
use crate::domain::data_stores::TwoFACode;
use crate::domain::data_stores::TwoFACodeStoreError;
use crate::domain::email::Email;
use vstd::prelude::*;
use vstd::string::StringExecFns;

verus! {

/// The seconds after which the cache drops a challenge.
pub const TEN_MINUTES_IN_SECONDS: u64 = 600;

/// Keys of challenges start with this text.
pub const TWO_FA_CODE_PREFIX: &'static str = "two_fa_code:";

/// The cache key of the challenge of an address.
pub fn get_key(email: &Email) -> (key: String)
    ensures
        key@ == TWO_FA_CODE_PREFIX@ + email@,
{
    let mut key = TWO_FA_CODE_PREFIX.to_owned();
    key.append(email.as_ref().as_str());
    key
}

/// The JSON text that `serde_json::to_string` writes for a pair of
/// strings.
pub uninterp spec fn json_of_pair(first: Seq<char>, second: Seq<char>) -> Option<Seq<char>>;

/// The pair of strings that `serde_json::from_str` reads from a JSON text;
/// `None` when the text is no such pair.
pub uninterp spec fn pair_of_json(text: Seq<char>) -> Option<(Seq<char>, Seq<char>)>;

/// Calls `serde_json::to_string` on the pair of the two texts. It can
/// fail only where a value refuses to be written or a map has a key that
/// is no string, and a pair of strings is neither: a text always comes
/// back, and `serde_json::from_str` reads the same pair from it.
#[verifier::external_body]
fn pair_to_json(first: &str, second: &str) -> (json: Option<String>)
    ensures
        json is Some,
        json matches Some(text) ==> json_of_pair(first@, second@) == Some(text@),
        json matches Some(text) ==> pair_of_json(text@) == Some((first@, second@)),
{
    serde_json::to_string(&(first, second)).ok()
}

/// Calls `serde_json::from_str` for a pair of strings.
#[verifier::external_body]
fn json_to_pair(text: &str) -> (pair: Option<(String, String)>)
    ensures
        pair matches Some(found) ==> pair_of_json(text@) == Some((found.0@, found.1@)),
        pair is None ==> pair_of_json(text@) is None,
{
    serde_json::from_str::<(String, String)>(text).ok()
}

/// What is written to the cache for a challenge.
pub struct TwoFAEntry {
    pub key: String,
    pub value: String,
    pub ttl: u64,
}

/// The entry of the challenge: the key of the address, the login attempt
/// and the code as one JSON text, and the challenge's lifetime. The pair
/// can be read back from the text.
pub fn two_fa_entry(email: &Email, login_attempt_id: &LoginAttemptId, code: &TwoFACode) -> (r:
    Result<TwoFAEntry, TwoFACodeStoreError>)
    ensures
        r matches Ok(entry) && {
            &&& entry.key@ == TWO_FA_CODE_PREFIX@ + email@
            &&& json_of_pair(login_attempt_id@, code@) == Some(entry.value@)
            &&& pair_of_json(entry.value@) == Some((login_attempt_id@, code@))
            &&& entry.ttl == TEN_MINUTES_IN_SECONDS
        },
{
    let key = get_key(email);
    match pair_to_json(login_attempt_id.as_ref(), code.as_ref()) {
        Some(value) => Ok(TwoFAEntry { key, value, ttl: TEN_MINUTES_IN_SECONDS }),
        None => Err(TwoFACodeStoreError::UnexpectedError),
    }
}

/// What a lookup answers for the pair that was read from the stored text.
pub open spec fn stored_pair_outcome(
    pair: Option<(Seq<char>, Seq<char>)>,
    r: Result<(LoginAttemptId, TwoFACode), TwoFACodeStoreError>,
) -> bool {
    match pair {
        Some((id, code)) => if uuid_accepts(id) && is_six_digits(code) {
            r matches Ok(found) && found.0@ == id && found.1@ == code
        } else {
            r matches Err(e) && e == TwoFACodeStoreError::UnexpectedError
        },
        None => r matches Err(e) && e == TwoFACodeStoreError::UnexpectedError,
    }
}

/// What the cache said when it was asked for the text under a key.
pub enum CacheReply {
    /// The text that is held under the key.
    Found(String),
    /// Nothing is held under the key.
    Missing,
    /// The cache did not answer.
    Failed,
}

/// What the cache said, as contracts see it.
pub enum CacheReplyView {
    Found(Seq<char>),
    Missing,
    Failed,
}

impl View for CacheReply {
    type V = CacheReplyView;

    open spec fn view(&self) -> CacheReplyView {
        match self {
            CacheReply::Found(text) => CacheReplyView::Found(text@),
            CacheReply::Missing => CacheReplyView::Missing,
            CacheReply::Failed => CacheReplyView::Failed,
        }
    }
}

/// What a lookup answers for the cache's reply. No entry means no
/// challenge. A cache that did not answer, and a text that is not the JSON
/// of a login attempt and a code, are faults of the backend.
pub open spec fn reply_outcome(
    reply: CacheReplyView,
    r: Result<(LoginAttemptId, TwoFACode), TwoFACodeStoreError>,
) -> bool {
    match reply {
        CacheReplyView::Missing => r matches Err(e) && e
            == TwoFACodeStoreError::LoginAttemptIdNotFound,
        CacheReplyView::Failed => r matches Err(e) && e == TwoFACodeStoreError::UnexpectedError,
        CacheReplyView::Found(text) => stored_pair_outcome(pair_of_json(text), r),
    }
}

/// Builds the challenge from the pair that was read from the stored text.
pub fn code_from_pair(pair: Option<(String, String)>) -> (r: Result<
    (LoginAttemptId, TwoFACode),
    TwoFACodeStoreError,
>)
    ensures
        stored_pair_outcome(
            match pair {
                Some(found) => Some((found.0@, found.1@)),
                None => None,
            },
            r,
        ),
{
    match pair {
        None => Err(TwoFACodeStoreError::UnexpectedError),
        Some((id, code)) => {
            let login_attempt_id = match LoginAttemptId::parse(id) {
                Ok(parsed) => parsed,
                Err(_) => {
                    return Err(TwoFACodeStoreError::UnexpectedError);
                },
            };
            let code = match TwoFACode::parse(code) {
                Ok(parsed) => parsed,
                Err(_) => {
                    return Err(TwoFACodeStoreError::UnexpectedError);
                },
            };
            Ok((login_attempt_id, code))
        },
    }
}

/// Builds the challenge from the cache's reply.
pub fn code_from_reply(reply: CacheReply) -> (r: Result<
    (LoginAttemptId, TwoFACode),
    TwoFACodeStoreError,
>)
    ensures
        reply_outcome(reply@, r),
{
    match reply {
        CacheReply::Missing => Err(TwoFACodeStoreError::LoginAttemptIdNotFound),
        CacheReply::Failed => Err(TwoFACodeStoreError::UnexpectedError),
        CacheReply::Found(text) => code_from_pair(json_to_pair(text.as_str())),
    }
}

} // verus!
