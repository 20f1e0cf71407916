use crate::domain::data_stores::BannedTokenStore;
use crate::domain::data_stores::BannedTokenStoreError;
use vstd::hash_set::StringHashSet;
use vstd::prelude::*;

verus! {

/// A ledger in memory. It serves one process only; entries stay for as
/// long as the ledger lives.
pub struct HashSetBannedTokenStore {
    banned_tokens: StringHashSet,
}

impl HashSetBannedTokenStore {
    /// An empty ledger.
    pub fn new() -> (store: HashSetBannedTokenStore)
        ensures
            store.banned() == Set::<Seq<char>>::empty(),
    {
        HashSetBannedTokenStore { banned_tokens: StringHashSet::new() }
    }
}

impl Default for HashSetBannedTokenStore {
    fn default() -> (store: HashSetBannedTokenStore)
        ensures
            store.banned() == Set::<Seq<char>>::empty(),
    {
        HashSetBannedTokenStore::new()
    }
}

impl BannedTokenStore for HashSetBannedTokenStore {
    closed spec fn banned(&self) -> Set<Seq<char>> {
        self.banned_tokens@
    }

    open spec fn dependable() -> bool {
        true
    }

    /// Revokes the token; a token that is already revoked is refused.
    fn store_banned_token(&mut self, token: String) -> (r: Result<(), BannedTokenStoreError>)
        ensures
            r is Err <==> old(self).banned().contains(token@),
    {
        if self.banned_tokens.contains(token.as_str()) {
            return Err(BannedTokenStoreError::UnexpectedError);
        }
        self.banned_tokens.insert(token);
        Ok(())
    }

    /// Whether the token is revoked; this ledger always answers.
    fn check_for_banned(&self, token: &str) -> (r: Result<bool, BannedTokenStoreError>)
        ensures
            r is Ok,
    {
        Ok(self.banned_tokens.contains(token))
    }
}

} // verus!
