use crate::domain::data_stores::LoginAttemptId;
use crate::domain::data_stores::TwoFACode;
use crate::domain::data_stores::TwoFACodeStore;
use crate::domain::data_stores::TwoFACodeStoreError;
use crate::domain::email::Email;
use crate::utils::auth::current_time;
use vstd::hash_map::StringHashMap;
use vstd::prelude::*;

verus! {

/// The lifetime of a challenge, in seconds.
pub const CHALLENGE_TTL_SECONDS: u64 = 600;

/// One challenge as the store keeps it.
pub struct PendingCode {
    pub login_attempt_id: LoginAttemptId,
    pub code: TwoFACode,
    pub created_at: u64,
}

/// What a kept challenge is in contracts.
pub struct PendingCodeView {
    pub login_attempt_id: Seq<char>,
    pub code: Seq<char>,
    pub created_at: u64,
}

impl View for PendingCode {
    type V = PendingCodeView;

    open spec fn view(&self) -> PendingCodeView {
        PendingCodeView {
            login_attempt_id: self.login_attempt_id@,
            code: self.code@,
            created_at: self.created_at,
        }
    }
}

/// A kept challenge is live while less than its lifetime has passed.
pub open spec fn is_live(entry: PendingCodeView, clock: u64) -> bool {
    entry.created_at <= clock && clock - entry.created_at < CHALLENGE_TTL_SECONDS
}

/// The challenges that are live at the clock's time.
pub open spec fn live_codes(kept: Map<Seq<char>, PendingCodeView>, clock: u64) -> Map<
    Seq<char>,
    (Seq<char>, Seq<char>),
> {
    Map::new(
        |k: Seq<char>| kept.contains_key(k) && is_live(kept[k], clock),
        |k: Seq<char>| (kept[k].login_attempt_id, kept[k].code),
    )
}

/// A challenge store in memory with a clock of its own, in seconds. A
/// challenge is stamped with the clock's time and is gone once its
/// lifetime has passed on that clock. The clock moves only through
/// `advance` and `advance_to_present`: no other operation on the store,
/// and no login or answer to a challenge, moves it. Whoever holds the
/// store brings the clock forward before handing the store on; on a clock
/// that is never moved no challenge expires.
pub struct HashmapTwoFACodeStore {
    codes: StringHashMap<PendingCode>,
    clock: u64,
}

impl HashmapTwoFACodeStore {
    /// The challenges that were added and neither removed nor replaced,
    /// expired ones included.
    pub closed spec fn kept(&self) -> Map<Seq<char>, PendingCodeView> {
        Map::new(|k: Seq<char>| self.codes@.contains_key(k), |k: Seq<char>| self.codes@[k]@)
    }

    /// The store's time.
    pub closed spec fn clock(&self) -> u64 {
        self.clock
    }

    /// An empty store whose clock stands at zero.
    pub fn new() -> (store: HashmapTwoFACodeStore)
        ensures
            store.kept() == Map::<Seq<char>, PendingCodeView>::empty(),
            store.clock() == 0,
    {
        let store = HashmapTwoFACodeStore { codes: StringHashMap::new(), clock: 0 };
        assert(store.kept() =~= Map::<Seq<char>, PendingCodeView>::empty());
        store
    }

    /// Moves the clock forward to `now`; it never moves back. What is kept
    /// stays, and what has outlived its lifetime is no longer pending.
    pub fn advance(&mut self, now: u64)
        ensures
            final(self).clock() == if now > old(self).clock() {
                now
            } else {
                old(self).clock()
            },
            final(self).kept() == old(self).kept(),
    {
        if now > self.clock {
            self.clock = now;
        }
    }
}

impl HashmapTwoFACodeStore {
    /// Reads the present time, moves the clock forward to it if it is
    /// later, and hands back the time that was read. What is kept stays.
    pub fn advance_to_present(&mut self) -> (now: u64)
        ensures
            final(self).clock() == if now > old(self).clock() {
                now
            } else {
                old(self).clock()
            },
            final(self).kept() == old(self).kept(),
    {
        let now = current_time();
        self.advance(now);
        now
    }
}

impl Default for HashmapTwoFACodeStore {
    fn default() -> (store: HashmapTwoFACodeStore)
        ensures
            store.kept() == Map::<Seq<char>, PendingCodeView>::empty(),
            store.clock() == 0,
    {
        HashmapTwoFACodeStore::new()
    }
}

impl TwoFACodeStore for HashmapTwoFACodeStore {
    open spec fn codes(&self) -> Map<Seq<char>, (Seq<char>, Seq<char>)> {
        live_codes(self.kept(), self.clock())
    }

    open spec fn dependable() -> bool {
        true
    }

    /// Keeps the challenge, stamped with the clock's time, in place of any
    /// other for the address.
    fn add_code(&mut self, email: Email, login_attempt_id: LoginAttemptId, code: TwoFACode) -> (r:
        Result<(), TwoFACodeStoreError>)
        ensures
            r is Ok,
            final(self).clock() == old(self).clock(),
            final(self).kept() == old(self).kept().insert(
                email@,
                PendingCodeView {
                    login_attempt_id: login_attempt_id@,
                    code: code@,
                    created_at: old(self).clock(),
                },
            ),
    {
        let key = email.as_ref().clone();
        let entry = PendingCode { login_attempt_id, code, created_at: self.clock };
        let ghost view = entry@;
        self.codes.insert(key, entry);
        assert(self.kept() =~= old(self).kept().insert(email@, view));
        assert(self.codes() =~= old(self).codes().insert(email@, (view.login_attempt_id, view.code)));
        Ok(())
    }

    /// Drops the challenge of the address, if there is one.
    fn remove_code(&mut self, email: &Email) -> (r: Result<(), TwoFACodeStoreError>)
        ensures
            r is Ok,
            final(self).clock() == old(self).clock(),
            final(self).kept() == old(self).kept().remove(email@),
    {
        self.codes.remove(email.as_ref().as_str());
        assert(self.kept() =~= old(self).kept().remove(email@));
        assert(self.codes() =~= old(self).codes().remove(email@));
        Ok(())
    }

    /// The live challenge of the address.
    fn get_code(&self, email: &Email) -> (r: Result<(LoginAttemptId, TwoFACode), TwoFACodeStoreError>)
        ensures
            r is Ok <==> self.codes().contains_key(email@),
    {
        match self.codes.get(email.as_ref().as_str()) {
            Some(entry) => {
                if entry.created_at <= self.clock && self.clock - entry.created_at
                    < CHALLENGE_TTL_SECONDS {
                    Ok((entry.login_attempt_id.clone(), entry.code.clone()))
                } else {
                    Err(TwoFACodeStoreError::LoginAttemptIdNotFound)
                }
            },
            None => Err(TwoFACodeStoreError::LoginAttemptIdNotFound),
        }
    }
}

} // verus!
