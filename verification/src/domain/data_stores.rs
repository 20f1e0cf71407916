use crate::domain::email::Email;
use crate::domain::password::Password;
use crate::domain::user::User;
use crate::domain::user::UserView;
use rand::Rng;
use vstd::prelude::*;
use vstd::std_specs::cmp::PartialEqSpecImpl;
use vstd::string::StringExecFns;

verus! {

/// The directory of identities, keyed by address. A backend that cannot
/// fail is `dependable`; any other may answer `UnexpectedError` at any time
/// and then changes nothing. A store states what it holds by its own
/// `users` and `admits`; one that states nothing is not dependable.
pub trait UserStore {
    /// The identities held, by address.
    open spec fn users(&self) -> Map<Seq<char>, UserView> {
        arbitrary()
    }

    /// Whether a stored credential admits a plaintext password.
    open spec fn admits(stored: Seq<char>, candidate: Seq<char>) -> bool {
        arbitrary()
    }

    /// Whether this kind of store never answers `UnexpectedError`.
    open spec fn dependable() -> bool {
        false
    }

    /// Adds an identity under its address. A taken address is never
    /// overwritten; the stored credential admits the identity's password.
    fn add_user(&mut self, user: User) -> (r: Result<(), UserStoreError>)
        ensures
            added_user(old(self).users(), final(self).users(), user@, r),
            r is Ok ==> Self::admits(final(self).users()[user@.email].password, user@.password),
            r == Err::<(), UserStoreError>(UserStoreError::UnexpectedError) ==> !Self::dependable(),
    ;

    /// The identity that is held under the address.
    fn get_user(&self, email: &Email) -> (r: Result<User, UserStoreError>)
        ensures
            match r {
                Ok(user) => self.users().contains_key(email@) && user@ == self.users()[email@],
                Err(UserStoreError::UserNotFound) => !self.users().contains_key(email@),
                Err(UserStoreError::UnexpectedError) => !Self::dependable(),
                Err(_) => false,
            },
    ;

    /// Checks a password against the credential held under the address.
    fn validate_user(&self, email: &Email, password: &Password) -> (r: Result<
        (),
        UserStoreError,
    >)
        ensures
            match r {
                Ok(()) => self.users().contains_key(email@) && Self::admits(
                    self.users()[email@].password,
                    password@,
                ),
                Err(UserStoreError::UserNotFound) => !self.users().contains_key(email@),
                Err(UserStoreError::InvalidCredentials) => self.users().contains_key(email@)
                    && !Self::admits(self.users()[email@].password, password@),
                Err(UserStoreError::UnexpectedError) => !Self::dependable(),
                Err(_) => false,
            },
    ;
}

/// How `add_user` relates the directory before and after to its answer.
pub open spec fn added_user(
    before: Map<Seq<char>, UserView>,
    after: Map<Seq<char>, UserView>,
    user: UserView,
    r: Result<(), UserStoreError>,
) -> bool {
    match r {
        Ok(()) => {
            &&& !before.contains_key(user.email)
            &&& after.contains_key(user.email)
            &&& after == before.insert(user.email, after[user.email])
            &&& after[user.email].email == user.email
            &&& after[user.email].requires_2fa == user.requires_2fa
        },
        Err(UserStoreError::UserAlreadyExists) => before.contains_key(user.email) && after
            == before,
        Err(UserStoreError::UnexpectedError) => after == before,
        Err(_) => false,
    }
}

#[derive(Clone, Copy, Debug, PartialEq, Eq, Structural)]
pub enum UserStoreError {
    UserAlreadyExists,
    UserNotFound,
    InvalidCredentials,
    UnexpectedError,
}

/// The ledger of revoked session tokens. Presence means that the token is
/// refused.
pub trait BannedTokenStore {
    /// The revoked tokens.
    open spec fn banned(&self) -> Set<Seq<char>> {
        arbitrary()
    }

    /// Whether this kind of store fails only on a token that is already held.
    open spec fn dependable() -> bool {
        false
    }

    /// Revokes a token. When the store fails, nothing changes.
    fn store_banned_token(&mut self, token: String) -> (r: Result<(), BannedTokenStoreError>)
        ensures
            r is Ok ==> final(self).banned() == old(self).banned().insert(token@),
            r is Err ==> final(self).banned() == old(self).banned(),
            r is Err ==> !Self::dependable() || old(self).banned().contains(token@),
    ;

    /// Whether a token is revoked.
    fn check_for_banned(&self, token: &str) -> (r: Result<bool, BannedTokenStoreError>)
        ensures
            r matches Ok(found) ==> found == self.banned().contains(token@),
            r is Err ==> !Self::dependable(),
    ;
}

#[derive(Clone, Copy, Debug, PartialEq, Eq, Structural)]
pub enum BannedTokenStoreError {
    UnexpectedError,
}

/// The verdict of `uuid::Uuid::parse_str` on a text: whether it parses.
pub uninterp spec fn uuid_accepts(text: Seq<char>) -> bool;

/// Calls `uuid::Uuid::parse_str`, which decides from the text alone, and
/// keeps only whether it succeeded.
#[verifier::external_body]
fn uuid_verdict(text: &str) -> (ok: bool)
    ensures
        ok == uuid_accepts(text@),
{
    uuid::Uuid::parse_str(text).is_ok()
}

/// Calls `uuid::Uuid::new_v4` and writes the random identifier in its
/// hyphenated form, one of the forms that `parse_str` is documented to
/// accept.
#[verifier::external_body]
fn fresh_uuid_text() -> (text: String)
    ensures
        uuid_accepts(text@),
{
    uuid::Uuid::new_v4().to_string()
}

/// The identifier of one login attempt that waits for its second factor.
#[derive(Debug)]
pub struct LoginAttemptId(String);

impl View for LoginAttemptId {
    type V = Seq<char>;

    closed spec fn view(&self) -> Seq<char> {
        self.0@
    }
}

impl LoginAttemptId {
    #[verifier::type_invariant]
    spec fn well_formed(self) -> bool {
        uuid_accepts(self.0@)
    }

    /// Accepts exactly the texts that parse as a UUID.
    pub fn parse(id: String) -> (r: Result<LoginAttemptId, String>)
        ensures
            uuid_accepts(id@) ==> (r matches Ok(parsed) && parsed@ == id@),
            !uuid_accepts(id@) ==> (r matches Err(message) && message@
                == "Invalid LoginAttemptId"@),
    {
        let verdict = uuid_verdict(id.as_str());
        LoginAttemptId::from_verdict(id, verdict)
    }

    /// Builds the identifier from the text and the parser's verdict on it.
    pub fn from_verdict(id: String, verdict: bool) -> (r: Result<LoginAttemptId, String>)
        requires
            verdict == uuid_accepts(id@),
        ensures
            verdict ==> (r matches Ok(parsed) && parsed@ == id@),
            !verdict ==> (r matches Err(message) && message@ == "Invalid LoginAttemptId"@),
    {
        if verdict {
            Ok(LoginAttemptId(id))
        } else {
            Err("Invalid LoginAttemptId".to_owned())
        }
    }

    /// The identifier text, which always parses as a UUID.
    pub fn as_ref(&self) -> (text: &str)
        ensures
            text@ == self@,
            uuid_accepts(text@),
    {
        proof {
            use_type_invariant(self);
        }
        self.0.as_str()
    }
}

impl Default for LoginAttemptId {
    /// A fresh random identifier.
    fn default() -> (id: LoginAttemptId)
        ensures
            uuid_accepts(id@),
    {
        LoginAttemptId(fresh_uuid_text())
    }
}

impl Clone for LoginAttemptId {
    fn clone(&self) -> (copy: LoginAttemptId)
        ensures
            copy@ == self@,
    {
        proof {
            use_type_invariant(self);
        }
        LoginAttemptId(self.0.clone())
    }
}

impl PartialEq for LoginAttemptId {
    fn eq(&self, other: &LoginAttemptId) -> (equal: bool) {
        self.0 == other.0
    }
}

impl PartialEqSpecImpl for LoginAttemptId {
    open spec fn obeys_eq_spec() -> bool {
        true
    }

    open spec fn eq_spec(&self, other: &LoginAttemptId) -> bool {
        self@ == other@
    }
}

/// The greatest number that a one-time code can spell.
pub const MAX_CODE_NUMBER: u32 = 999_999;

pub open spec fn is_digit(c: char) -> bool {
    '0' <= c <= '9'
}

/// A one-time code is six decimal digits.
pub open spec fn is_six_digits(s: Seq<char>) -> bool {
    s.len() == 6 && forall|i: int| 0 <= i < 6 ==> is_digit(#[trigger] s[i])
}

pub open spec fn digit_char(d: int) -> char {
    if d == 0 {
        '0'
    } else if d == 1 {
        '1'
    } else if d == 2 {
        '2'
    } else if d == 3 {
        '3'
    } else if d == 4 {
        '4'
    } else if d == 5 {
        '5'
    } else if d == 6 {
        '6'
    } else if d == 7 {
        '7'
    } else if d == 8 {
        '8'
    } else {
        '9'
    }
}

/// The six digits that spell a number below one million, with leading zeros.
pub open spec fn six_digit_text(n: int) -> Seq<char> {
    seq![
        digit_char(n / 100_000 % 10),
        digit_char(n / 10_000 % 10),
        digit_char(n / 1_000 % 10),
        digit_char(n / 100 % 10),
        digit_char(n / 10 % 10),
        digit_char(n % 10),
    ]
}

/// Calls `rand::Rng::gen_range` on the thread's generator with the inclusive
/// range, which must not be empty; the sample lies in the range.
#[verifier::external_body]
fn random_in_range(low: u32, high: u32) -> (n: u32)
    requires
        low <= high,
    ensures
        low <= n <= high,
{
    rand::thread_rng().gen_range(low..=high)
}

fn digit_text(d: u32) -> (text: &'static str)
    requires
        d < 10,
    ensures
        text@ == seq![digit_char(d as int)],
{
    proof {
        reveal_strlit("0");
        reveal_strlit("1");
        reveal_strlit("2");
        reveal_strlit("3");
        reveal_strlit("4");
        reveal_strlit("5");
        reveal_strlit("6");
        reveal_strlit("7");
        reveal_strlit("8");
        reveal_strlit("9");
    }
    let text = if d == 0 {
        "0"
    } else if d == 1 {
        "1"
    } else if d == 2 {
        "2"
    } else if d == 3 {
        "3"
    } else if d == 4 {
        "4"
    } else if d == 5 {
        "5"
    } else if d == 6 {
        "6"
    } else if d == 7 {
        "7"
    } else if d == 8 {
        "8"
    } else {
        "9"
    };
    assert(text@ =~= seq![digit_char(d as int)]);
    text
}

/// The one-time code of a second-factor challenge.
#[derive(Debug)]
pub struct TwoFACode(String);

impl View for TwoFACode {
    type V = Seq<char>;

    closed spec fn view(&self) -> Seq<char> {
        self.0@
    }
}

impl TwoFACode {
    #[verifier::type_invariant]
    spec fn well_formed(self) -> bool {
        is_six_digits(self.0@)
    }

    /// Accepts exactly the texts of six decimal digits.
    pub fn parse(code: String) -> (r: Result<TwoFACode, String>)
        ensures
            is_six_digits(code@) ==> (r matches Ok(parsed) && parsed@ == code@),
            !is_six_digits(code@) ==> (r matches Err(message) && message@ == "Invalid TwoFACode"@),
    {
        let mut count: usize = 0;
        let mut all_digits = true;
        for c in it: code.as_str().chars()
            invariant
                it.seq() == code@,
                all_digits == (forall|i: int| 0 <= i < it.index() ==> is_digit(#[trigger] code@[i])),
                count == if it.index() < 7 { it.index() } else { 7 },
        {
            if !(c >= '0' && c <= '9') {
                all_digits = false;
            }
            if count < 7 {
                count = count + 1;
            }
        }
        if all_digits && count == 6 {
            Ok(TwoFACode(code))
        } else {
            Err("Invalid TwoFACode".to_owned())
        }
    }

    /// The code that spells the number with six digits.
    pub fn from_number(n: u32) -> (code: TwoFACode)
        requires
            n <= MAX_CODE_NUMBER,
        ensures
            code@ == six_digit_text(n as int),
    {
        let mut text = String::new();
        text.append(digit_text(n / 100_000 % 10));
        text.append(digit_text(n / 10_000 % 10));
        text.append(digit_text(n / 1_000 % 10));
        text.append(digit_text(n / 100 % 10));
        text.append(digit_text(n / 10 % 10));
        text.append(digit_text(n % 10));
        assert(text@ =~= six_digit_text(n as int));
        TwoFACode(text)
    }

    /// The code text, which is always six decimal digits.
    pub fn as_ref(&self) -> (text: &str)
        ensures
            text@ == self@,
            is_six_digits(text@),
    {
        proof {
            use_type_invariant(self);
        }
        self.0.as_str()
    }
}

impl Default for TwoFACode {
    /// A fresh random code.
    fn default() -> (code: TwoFACode)
        ensures
            is_six_digits(code@),
    {
        let n = random_in_range(0, MAX_CODE_NUMBER);
        let code = TwoFACode::from_number(n);
        proof {
            use_type_invariant(&code);
        }
        code
    }
}

impl Clone for TwoFACode {
    fn clone(&self) -> (copy: TwoFACode)
        ensures
            copy@ == self@,
    {
        proof {
            use_type_invariant(self);
        }
        TwoFACode(self.0.clone())
    }
}

impl PartialEq for TwoFACode {
    fn eq(&self, other: &TwoFACode) -> (equal: bool) {
        self.0 == other.0
    }
}

impl PartialEqSpecImpl for TwoFACode {
    open spec fn obeys_eq_spec() -> bool {
        true
    }

    open spec fn eq_spec(&self, other: &TwoFACode) -> bool {
        self@ == other@
    }
}

/// The store of pending second-factor challenges: at most one per address.
pub trait TwoFACodeStore {
    /// The pending challenges, by address: login attempt and code.
    open spec fn codes(&self) -> Map<Seq<char>, (Seq<char>, Seq<char>)> {
        arbitrary()
    }

    /// Whether this kind of store never answers `UnexpectedError`.
    open spec fn dependable() -> bool {
        false
    }

    /// Keeps a challenge for the address in place of any other.
    fn add_code(&mut self, email: Email, login_attempt_id: LoginAttemptId, code: TwoFACode) -> (r:
        Result<(), TwoFACodeStoreError>)
        ensures
            match r {
                Ok(()) => final(self).codes() == old(self).codes().insert(
                    email@,
                    (login_attempt_id@, code@),
                ),
                Err(TwoFACodeStoreError::UnexpectedError) => final(self).codes() == old(self).codes() && !Self::dependable(),
                Err(_) => false,
            },
    ;

    /// Drops the challenge of the address; it is no fault if there is none.
    fn remove_code(&mut self, email: &Email) -> (r: Result<(), TwoFACodeStoreError>)
        ensures
            match r {
                Ok(()) => final(self).codes() == old(self).codes().remove(email@),
                Err(TwoFACodeStoreError::UnexpectedError) => final(self).codes() == old(self).codes() && !Self::dependable(),
                Err(_) => false,
            },
    ;

    /// The pending challenge of the address.
    fn get_code(&self, email: &Email) -> (r: Result<(LoginAttemptId, TwoFACode), TwoFACodeStoreError>)
        ensures
            match r {
                Ok((login_attempt_id, code)) => self.codes().contains_key(email@)
                    && self.codes()[email@] == (login_attempt_id@, code@),
                Err(TwoFACodeStoreError::LoginAttemptIdNotFound) => !self.codes().contains_key(
                    email@,
                ),
                Err(TwoFACodeStoreError::UnexpectedError) => !Self::dependable(),
            },
    ;
}

#[derive(Clone, Copy, Debug, PartialEq, Eq, Structural)]
pub enum TwoFACodeStoreError {
    LoginAttemptIdNotFound,
    UnexpectedError,
}

} // verus!
