use crate::domain::data_stores::is_digit;
use crate::domain::data_stores::UserStoreError;
use crate::domain::email::is_valid_email;
use crate::domain::email::Email;
use crate::domain::password::is_valid_password;
use crate::domain::password::Password;
use crate::domain::user::User;
use crate::domain::user::UserView;
use argon2::password_hash::PasswordHash;
use argon2::password_hash::PasswordHasher;
use argon2::password_hash::PasswordVerifier;
use argon2::password_hash::SaltString;
use argon2::Algorithm;
use argon2::Argon2;
use argon2::Params;
use argon2::Version;
use vstd::prelude::*;

verus! {

/// Memory cost of a new hash, in blocks of one kibibyte.
pub const HASH_MEMORY_COST: u32 = 15000;

/// Number of passes of a new hash.
pub const HASH_TIME_COST: u32 = 2;

/// Degree of parallelism of a new hash.
pub const HASH_PARALLELISM: u32 = 1;

/// The greatest degree of parallelism that Argon2 allows.
pub const MAX_PARALLELISM: u32 = 0x00FF_FFFF;

/// The number that a decimal digit stands for.
pub open spec fn digit_number(c: char) -> int {
    c as u32 - '0' as u32
}

/// The number spelled by `acc` followed by the digits of `s` from `from` up
/// to the first character that is no digit.
pub open spec fn digits_value(s: Seq<char>, from: int, acc: int) -> int
    decreases s.len() - from,
{
    if 0 <= from < s.len() && is_digit(s[from]) {
        digits_value(s, from + 1, acc * 10 + digit_number(s[from]))
    } else {
        acc
    }
}

/// Whether position `i` of `s` comes right after the text `p=`.
pub open spec fn follows_p(s: Seq<char>, i: int) -> bool {
    2 <= i <= s.len() && s[i - 2] == 'p' && s[i - 1] == '='
}

/// Whether no `p=` in the text is followed by a number above the greatest
/// degree of parallelism. A stored text that names a greater degree is no
/// usable hash, and Argon2 is never asked about it.
pub open spec fn has_safe_parallelism(s: Seq<char>) -> bool {
    forall|i: int| #[trigger] follows_p(s, i) ==> digits_value(s, i, 0) <= MAX_PARALLELISM
}

proof fn lemma_digits_value_grows(s: Seq<char>, from: int, acc: int)
    requires
        acc >= 0,
    ensures
        digits_value(s, from, acc) >= acc,
    decreases s.len() - from,
{
    if 0 <= from < s.len() && is_digit(s[from]) {
        lemma_digits_value_grows(s, from + 1, acc * 10 + digit_number(s[from]));
    }
}

/// Scans the text once and reports whether every degree of parallelism
/// that it names is one that Argon2 allows.
pub fn check_parallelism(text: &str) -> (ok: bool)
    ensures
        ok == has_safe_parallelism(text@),
{
    let mut ok = true;
    let mut prev_is_p = false;
    let mut in_run = false;
    let mut acc: u32 = 0;
    let ghost mut start: int = 0;
    let ghost mut bad_at: int = 0;
    for c in it: text.chars()
        invariant
            it.seq() == text@,
            prev_is_p == (it.index() >= 1 && text@[it.index() - 1] == 'p'),
            ok ==> forall|i: int|
                #[trigger] follows_p(text@, i) && i <= it.index() && !(in_run && i == start)
                    ==> digits_value(text@, i, 0) <= MAX_PARALLELISM,
            ok && follows_p(text@, it.index() as int) ==> in_run && start == it.index(),
            ok && in_run ==> follows_p(text@, start) && start <= it.index() && acc
                <= MAX_PARALLELISM && digits_value(text@, start, 0) == digits_value(
                text@,
                it.index() as int,
                acc as int,
            ),
            !ok ==> follows_p(text@, bad_at) && digits_value(text@, bad_at, 0) > MAX_PARALLELISM,
    {
        let ghost k = it.index() as int;
        if ok {
            if in_run {
                if c >= '0' && c <= '9' {
                    let next = acc * 10 + (c as u32 - '0' as u32);
                    if next > MAX_PARALLELISM {
                        proof {
                            lemma_digits_value_grows(text@, k + 1, next as int);
                            bad_at = start;
                        }
                        ok = false;
                    } else {
                        acc = next;
                    }
                } else {
                    in_run = false;
                }
            }
            if ok && prev_is_p && c == '=' {
                in_run = true;
                acc = 0;
                proof {
                    start = k + 1;
                }
            }
        }
        prev_is_p = c == 'p';
    }
    proof {
        if !ok {
            assert(follows_p(text@, bad_at));
        }
    }
    ok
}

/// What Argon2 says of a candidate against a stored hash: `Some(true)` when
/// it matches, `Some(false)` when it does not, `None` when the stored text
/// is no hash that Argon2 can recompute.
pub uninterp spec fn argon2_verdict(expected_hash: Seq<char>, candidate: Seq<char>) -> Option<bool>;

/// The Argon2id hash, as a PHC string, of a password with a salt and costs;
/// `None` when the salt or the costs are refused.
pub uninterp spec fn argon2id_phc(
    password: Seq<char>,
    salt: Seq<char>,
    m_cost: u32,
    t_cost: u32,
    p_cost: u32,
) -> Option<Seq<char>>;

/// Parses the stored text with `PasswordHash::new` and checks the candidate
/// with `Argon2::verify_password`, which recomputes the hash with the
/// parameters and salt of the stored one: the answer depends on the two
/// texts alone. Argon2 multiplies the stored degree of parallelism by
/// eight before it checks it, so a text that names too great a degree must
/// not get here.
#[verifier::external_body]
fn argon2_verify(expected_hash: &str, candidate: &str) -> (verdict: Option<bool>)
    requires
        has_safe_parallelism(expected_hash@),
    ensures
        verdict == argon2_verdict(expected_hash@, candidate@),
{
    let parsed = match PasswordHash::new(expected_hash) {
        Ok(parsed) => parsed,
        Err(_) => return None,
    };
    match Argon2::default().verify_password(candidate.as_bytes(), &parsed) {
        Ok(()) => Some(true),
        Err(argon2::password_hash::Error::Password) => Some(false),
        Err(_) => None,
    }
}

/// Hashes with `Argon2::hash_password` (Argon2id, version 0x13) under the
/// given salt and costs and writes the PHC string. The degree of
/// parallelism must be one that Argon2 allows, because it is multiplied by
/// eight before it is checked. The crate documents that a PHC string made
/// this way verifies for the password it was made from. With a salt of
/// sixteen bytes, the library's costs and a password that is not too long
/// for Argon2, none of the checks on the way refuses: a hash comes back,
/// and the only `p=` in it is the one that names the library's own degree
/// of parallelism.
#[verifier::external_body]
fn argon2id_hash(password: &str, salt: &str, m_cost: u32, t_cost: u32, p_cost: u32) -> (phc: Option<
    String,
>)
    requires
        p_cost <= MAX_PARALLELISM,
    ensures
        phc matches Some(text) ==> argon2id_phc(password@, salt@, m_cost, t_cost, p_cost) == Some(
            text@,
        ) && argon2_verdict(text@, password@) == Some(true),
        phc is None ==> argon2id_phc(password@, salt@, m_cost, t_cost, p_cost) is None,
        never_refused(password@, salt@, m_cost, t_cost, p_cost) ==> phc is Some,
        phc matches Some(text) ==> never_refused(password@, salt@, m_cost, t_cost, p_cost)
            ==> has_safe_parallelism(text@),
{
    let salt = SaltString::from_b64(salt).ok()?;
    let params = Params::new(m_cost, t_cost, p_cost, None).ok()?;
    let hasher = Argon2::new(Algorithm::Argon2id, Version::V0x13, params);
    hasher.hash_password(password.as_bytes(), &salt).ok().map(|hash| hash.to_string())
}

/// The length of a salt that is drawn for a new hash.
pub const FRESH_SALT_LENGTH: usize = 22;

/// The greatest number of characters of a password that Argon2 hashes:
/// in UTF-8 they take no more bytes than it accepts.
pub const MAX_PASSWORD_LENGTH: usize = 0x3FFF_FFFF;

/// A character of the B64 alphabet.
pub open spec fn is_b64_char(c: char) -> bool {
    ||| 'A' <= c <= 'Z'
    ||| 'a' <= c <= 'z'
    ||| '0' <= c <= '9'
    ||| c == '+'
    ||| c == '/'
}

/// The shape of a freshly drawn salt: sixteen bytes in B64 without
/// padding. That makes twenty-two characters of the alphabet, of which the
/// last carries two bits only.
pub open spec fn is_fresh_salt(s: Seq<char>) -> bool {
    &&& s.len() == FRESH_SALT_LENGTH
    &&& forall|i: int| 0 <= i < s.len() ==> is_b64_char(#[trigger] s[i])
    &&& (s[21] == 'A' || s[21] == 'Q' || s[21] == 'g' || s[21] == 'w')
}

/// The inputs on which none of Argon2's checks refuses: a salt of the
/// fresh shape, the library's costs and a password that is not too long.
pub open spec fn never_refused(
    password: Seq<char>,
    salt: Seq<char>,
    m_cost: u32,
    t_cost: u32,
    p_cost: u32,
) -> bool {
    &&& is_fresh_salt(salt)
    &&& password.len() <= MAX_PASSWORD_LENGTH
    &&& m_cost == HASH_MEMORY_COST
    &&& t_cost == HASH_TIME_COST
    &&& p_cost == HASH_PARALLELISM
}

/// Draws a random salt with `SaltString::generate` from the thread's
/// generator and hands out its text: sixteen random bytes in B64.
#[verifier::external_body]
fn fresh_salt() -> (salt: String)
    ensures
        is_fresh_salt(salt@),
{
    SaltString::generate(&mut rand::thread_rng()).as_str().to_owned()
}

/// Why hashing or verifying a password failed.
#[derive(Clone, Copy, Debug, PartialEq, Eq, Structural)]
pub enum PasswordHashError {
    /// The candidate is not the password of the hash.
    Mismatch,
    /// The stored text is no usable hash.
    Malformed,
    /// No hash could be computed.
    HashingFailed,
}

/// The outcome of a verification for each verdict of Argon2.
pub open spec fn verification_outcome(verdict: Option<bool>) -> Result<(), PasswordHashError> {
    match verdict {
        Some(true) => Ok(()),
        Some(false) => Err(PasswordHashError::Mismatch),
        None => Err(PasswordHashError::Malformed),
    }
}

/// Turns Argon2's verdict into the outcome of a verification.
pub fn outcome_of_verdict(verdict: Option<bool>) -> (r: Result<(), PasswordHashError>)
    ensures
        r == verification_outcome(verdict),
{
    match verdict {
        Some(true) => Ok(()),
        Some(false) => Err(PasswordHashError::Mismatch),
        None => Err(PasswordHashError::Malformed),
    }
}

/// The outcome of checking a candidate against a stored text: a text that
/// names too great a degree of parallelism is malformed, and for every
/// other text Argon2 decides.
pub open spec fn password_check(expected_hash: Seq<char>, candidate: Seq<char>) -> Result<
    (),
    PasswordHashError,
> {
    if has_safe_parallelism(expected_hash) {
        verification_outcome(argon2_verdict(expected_hash, candidate))
    } else {
        Err(PasswordHashError::Malformed)
    }
}

/// Whether a stored text is a usable hash that admits the password.
pub open spec fn hash_admits(hash: Seq<char>, password: Seq<char>) -> bool {
    password_check(hash, password) is Ok
}

/// Checks a candidate password against a stored hash.
pub fn verify_password_hash(expected_password_hash: String, password_candidate: String) -> (r:
    Result<(), PasswordHashError>)
    ensures
        r == password_check(expected_password_hash@, password_candidate@),
{
    if !check_parallelism(expected_password_hash.as_str()) {
        return Err(PasswordHashError::Malformed);
    }
    let verdict = argon2_verify(expected_password_hash.as_str(), password_candidate.as_str());
    outcome_of_verdict(verdict)
}

/// The hash of the password under the salt and the library's costs, if
/// Argon2 gives one and it is usable.
pub open spec fn usable_hash(password: Seq<char>, salt: Seq<char>) -> Option<Seq<char>> {
    match argon2id_phc(password, salt, HASH_MEMORY_COST, HASH_TIME_COST, HASH_PARALLELISM) {
        Some(hash) => if has_safe_parallelism(hash) {
            Some(hash)
        } else {
            None
        },
        None => None,
    }
}

/// Whether `hash` is the hash of the password under the salt and the
/// library's costs.
pub open spec fn is_hash_of(hash: Seq<char>, password: Seq<char>, salt: Seq<char>) -> bool {
    usable_hash(password, salt) == Some(hash)
}

/// Hashes the password under the given salt with the library's costs. It
/// succeeds exactly when Argon2 gives a usable hash, and that hash admits
/// the password it was made from. With a salt of the fresh shape and a
/// password that is not too long it always succeeds.
pub fn hash_with_salt(password: &str, salt: &str) -> (r: Result<String, PasswordHashError>)
    ensures
        match r {
            Ok(hash) => is_hash_of(hash@, password@, salt@) && hash_admits(hash@, password@),
            Err(e) => e == PasswordHashError::HashingFailed && usable_hash(password@, salt@)
                is None,
        },
        is_fresh_salt(salt@) && password@.len() <= MAX_PASSWORD_LENGTH ==> r is Ok,
{
    match argon2id_hash(password, salt, HASH_MEMORY_COST, HASH_TIME_COST, HASH_PARALLELISM) {
        Some(hash) => {
            if check_parallelism(hash.as_str()) {
                Ok(hash)
            } else {
                Err(PasswordHashError::HashingFailed)
            }
        },
        None => Err(PasswordHashError::HashingFailed),
    }
}

/// How hashing under a freshly drawn salt relates the answer to the
/// password: there is a salt of the fresh shape under which the answer is
/// the one that hashing with that salt gives.
pub open spec fn hashed_with_fresh_salt(password: Seq<char>, r: Result<String, PasswordHashError>) -> bool {
    exists|salt: Seq<char>|
        is_fresh_salt(salt) && match r {
            Ok(hash) => #[trigger] usable_hash(password, salt) == Some(hash@),
            Err(e) => e == PasswordHashError::HashingFailed && usable_hash(password, salt)
                is None,
        }
}

/// Hashes the password under a fresh random salt. A password that is not
/// too long for Argon2 always gets a hash, and the hash admits the
/// password. For a longer one hashing fails when Argon2 gives no usable
/// hash under the salt that was drawn.
pub fn compute_password_hash(password: String) -> (r: Result<String, PasswordHashError>)
    ensures
        hashed_with_fresh_salt(password@, r),
        r matches Ok(hash) ==> hash_admits(hash@, password@),
        password@.len() <= MAX_PASSWORD_LENGTH ==> r is Ok,
{
    let salt = fresh_salt();
    let r = hash_with_salt(password.as_str(), salt.as_str());
    proof {
        let drawn = salt@;
        assert(is_fresh_salt(drawn) && match r {
            Ok(hash) => usable_hash(password@, drawn) == Some(hash@),
            Err(e) => e == PasswordHashError::HashingFailed && usable_hash(password@, drawn)
                is None,
        });
    }
    r
}

/// One row of the table of users.
pub struct UserRow {
    pub email: String,
    pub password_hash: String,
    pub requires_2fa: bool,
}

/// How preparing the row of a new identity relates the answer to the
/// identity. The row holds the address, the second-factor flag and a hash
/// of the password under a fresh salt, never the password. No row comes
/// back only when no usable hash could be made under the salt drawn,
/// which cannot happen for a password that is not too long for Argon2.
pub open spec fn row_prepared(user: UserView, r: Result<UserRow, UserStoreError>) -> bool {
    exists|salt: Seq<char>|
        is_fresh_salt(salt) && match r {
            Ok(row) => {
                &&& row.email@ == user.email
                &&& row.requires_2fa == user.requires_2fa
                &&& #[trigger] usable_hash(user.password, salt) == Some(row.password_hash@)
            },
            Err(e) => e == UserStoreError::UnexpectedError && usable_hash(user.password, salt)
                is None,
        }
}

/// The row to insert for a new identity: its address, a fresh hash of its
/// password and its second-factor flag.
pub fn row_for_user(user: &User) -> (r: Result<UserRow, UserStoreError>)
    ensures
        row_prepared(user@, r),
        r matches Ok(row) ==> hash_admits(row.password_hash@, user@.password),
        user@.password.len() <= MAX_PASSWORD_LENGTH ==> r is Ok,
{
    let hashed = compute_password_hash(user.password.as_ref().clone());
    let r = match hashed {
        Ok(password_hash) => Ok(
            UserRow {
                email: user.email.as_ref().clone(),
                password_hash,
                requires_2fa: user.requires_2fa,
            },
        ),
        Err(_) => Err(UserStoreError::UnexpectedError),
    };
    proof {
        let salt = choose|salt: Seq<char>|
            is_fresh_salt(salt) && match hashed {
                Ok(hash) => #[trigger] usable_hash(user@.password, salt) == Some(hash@),
                Err(e) => e == PasswordHashError::HashingFailed && usable_hash(
                    user@.password,
                    salt,
                ) is None,
            };
        assert(is_fresh_salt(salt) && match r {
            Ok(row) => {
                &&& row.email@ == user@.email
                &&& row.requires_2fa == user@.requires_2fa
                &&& usable_hash(user@.password, salt) == Some(row.password_hash@)
            },
            Err(e) => e == UserStoreError::UnexpectedError && usable_hash(user@.password, salt)
                is None,
        });
    }
    r
}

/// What the database said of an insert.
#[derive(Clone, Copy, Debug, PartialEq, Eq, Structural)]
pub enum InsertReply {
    /// The row was inserted.
    Done,
    /// The address is taken: the insert broke the unique key.
    Taken,
    /// The insert failed for another reason.
    Failed,
}

/// What adding an identity answers for the database's reply to the insert.
/// The unique key makes the check for a taken address one step with the
/// insert.
pub fn add_outcome(insert: InsertReply) -> (r: Result<(), UserStoreError>)
    ensures
        r == (match insert {
            InsertReply::Done => Ok(()),
            InsertReply::Taken => Err(UserStoreError::UserAlreadyExists),
            InsertReply::Failed => Err(UserStoreError::UnexpectedError),
        }),
{
    match insert {
        InsertReply::Done => Ok(()),
        InsertReply::Taken => Err(UserStoreError::UserAlreadyExists),
        InsertReply::Failed => Err(UserStoreError::UnexpectedError),
    }
}

/// What a lookup answers for the row that was found, if any.
pub open spec fn lookup_outcome(row: Option<UserRow>, r: Result<User, UserStoreError>) -> bool {
    match row {
        None => r == Err::<User, UserStoreError>(UserStoreError::UserNotFound),
        Some(row) => if is_valid_email(row.email@) && is_valid_password(row.password_hash@) {
            r matches Ok(user) && user@.email == row.email@ && user@.password
                == row.password_hash@ && user@.requires_2fa == row.requires_2fa
        } else {
            r == Err::<User, UserStoreError>(UserStoreError::UnexpectedError)
        },
    }
}

/// Builds the identity from the row that a lookup found. No row means no
/// such user; a row that holds no valid address or credential is a fault
/// of the backend.
pub fn user_from_row(row: Option<UserRow>) -> (r: Result<User, UserStoreError>)
    ensures
        lookup_outcome(row, r),
{
    match row {
        None => Err(UserStoreError::UserNotFound),
        Some(row) => {
            let email = match Email::parse(row.email) {
                Ok(email) => email,
                Err(_) => {
                    return Err(UserStoreError::UnexpectedError);
                },
            };
            let password = match Password::parse(row.password_hash) {
                Ok(password) => password,
                Err(_) => {
                    return Err(UserStoreError::UnexpectedError);
                },
            };
            Ok(User::new(email, password, row.requires_2fa))
        },
    }
}

/// Checks a plaintext password against the stored hash of an identity;
/// every failure is reported as invalid credentials.
pub fn check_password(user: &User, password: &Password) -> (r: Result<(), UserStoreError>)
    ensures
        r is Ok <==> hash_admits(user@.password, password@),
        r is Err ==> r == Err::<(), UserStoreError>(UserStoreError::InvalidCredentials),
{
    match verify_password_hash(user.password.as_ref().clone(), password.as_ref().clone()) {
        Ok(()) => Ok(()),
        Err(_) => Err(UserStoreError::InvalidCredentials),
    }
}

} // verus!
