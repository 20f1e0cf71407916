use crate::domain::data_stores::BannedTokenStoreError;
use crate::utils::auth::TOKEN_TTL_SECONDS;
use vstd::prelude::*;
use vstd::string::StringExecFns;

verus! {

/// Keys of revoked tokens start with this text, so that they meet no other
/// keys of the cache.
pub const BANNED_TOKEN_KEY_PREFIX: &'static str = "banned_token:";

/// The cache key under which a token is revoked.
pub fn get_key(token: &str) -> (key: String)
    ensures
        key@ == BANNED_TOKEN_KEY_PREFIX@ + token@,
{
    let mut key = BANNED_TOKEN_KEY_PREFIX.to_owned();
    key.append(token);
    key
}

/// What is written to the cache to revoke a token: the key, the value and
/// the seconds after which the cache may drop the entry.
pub struct BannedTokenEntry {
    pub key: String,
    pub value: bool,
    pub ttl: u64,
}

/// The entry that revokes the token. It lasts one token lifetime, which is
/// never less than what is left of the token's own.
pub fn banned_token_entry(token: &str) -> (entry: BannedTokenEntry)
    ensures
        entry.key@ == BANNED_TOKEN_KEY_PREFIX@ + token@,
        entry.value,
        entry.ttl == TOKEN_TTL_SECONDS,
{
    BannedTokenEntry { key: get_key(token), value: true, ttl: TOKEN_TTL_SECONDS as u64 }
}

/// What the ledger answers for the cache's reply to the question whether
/// the key exists; `None` stands for a failed round trip.
pub fn banned_from_reply(reply: Option<bool>) -> (r: Result<bool, BannedTokenStoreError>)
    ensures
        match reply {
            Some(found) => r == Ok::<bool, BannedTokenStoreError>(found),
            None => r == Err::<bool, BannedTokenStoreError>(BannedTokenStoreError::UnexpectedError),
        },
{
    match reply {
        Some(found) => Ok(found),
        None => Err(BannedTokenStoreError::UnexpectedError),
    }
}

} // verus!
