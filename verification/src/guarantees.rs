use crate::domain::data_stores::is_six_digits;
use crate::domain::data_stores::uuid_accepts;
use crate::domain::data_stores::BannedTokenStore;
use crate::domain::data_stores::LoginAttemptId;
use crate::domain::data_stores::TwoFACode;
use crate::domain::data_stores::TwoFACodeStore;
use crate::domain::data_stores::TwoFACodeStoreError;
use crate::domain::data_stores::UserStore;
use crate::domain::email::is_valid_email;
use crate::domain::error::AuthAPIError;
use crate::domain::password::is_valid_password;
use crate::domain::user::UserView;
use crate::routes::login::is_token_issued_at;
use crate::routes::login::logged_in;
use crate::routes::login::no_token_at;
use crate::routes::login::LoginSuccess;
use crate::routes::login::LoginView;
use crate::routes::logout::logged_out;
use crate::routes::signup::signed_up;
use crate::routes::signup::SignupResponse;
use crate::routes::signup::SignupView;
use crate::routes::verify_token::token_verified;
use crate::services::data_stores::redis_two_fa_code_store::pair_of_json;
use crate::services::data_stores::redis_two_fa_code_store::reply_outcome;
use crate::services::data_stores::redis_two_fa_code_store::CacheReplyView;
use crate::services::hashmap_two_fa_code_store::live_codes;
use crate::services::hashmap_two_fa_code_store::PendingCodeView;
use crate::services::hashmap_two_fa_code_store::CHALLENGE_TTL_SECONDS;
use crate::utils::auth::expiry_at;
use crate::utils::auth::face_value;
use crate::utils::auth::jwt_opened;
use crate::utils::auth::TOKEN_TTL_SECONDS;
use crate::utils::challenge::answered;
use crate::utils::challenge::ChallengeError;
use vstd::prelude::*;

verus! {

/// After a signup with a valid address that was free and a valid password,
/// without second factor, a login with the same credentials gets a session
/// token and leaves the pending challenges alone. The directory must be
/// dependable, and the time of the login must leave room for the token's
/// expiry.
pub proof fn signup_then_login_succeeds<U: UserStore, C: TwoFACodeStore>(
    users_before: Map<Seq<char>, UserView>,
    users_after: Map<Seq<char>, UserView>,
    codes_before: Map<Seq<char>, (Seq<char>, Seq<char>)>,
    codes_after: Map<Seq<char>, (Seq<char>, Seq<char>)>,
    secret: Seq<char>,
    email: Seq<char>,
    password: Seq<char>,
    now: u64,
    signup_answer: Result<SignupResponse, AuthAPIError>,
    login_answer: Result<LoginSuccess, AuthAPIError>,
)
    requires
        is_valid_email(email),
        is_valid_password(password),
        !users_before.contains_key(email),
        U::dependable(),
        !no_token_at(now),
        signed_up::<U>(
            users_before,
            users_after,
            SignupView { email, password, requires_2fa: false },
            signup_answer,
        ),
        logged_in::<U, C>(
            users_after,
            codes_before,
            codes_after,
            secret,
            LoginView { email, password },
            now,
            login_answer,
        ),
    ensures
        signup_answer is Ok,
        login_answer matches Ok(LoginSuccess::RegularAuth { token }) && is_token_issued_at(
            token@,
            email,
            secret,
            now,
        ),
        codes_after == codes_before,
{
}

/// A second signup with the address of an earlier one is refused with
/// `UserAlreadyExists`, whatever its valid password and its second-factor
/// flag, and changes nothing. The directory must be dependable.
pub proof fn second_signup_is_refused<U: UserStore>(
    users_before: Map<Seq<char>, UserView>,
    users_between: Map<Seq<char>, UserView>,
    users_after: Map<Seq<char>, UserView>,
    first: SignupView,
    second: SignupView,
    first_answer: Result<SignupResponse, AuthAPIError>,
    second_answer: Result<SignupResponse, AuthAPIError>,
)
    requires
        is_valid_email(first.email),
        is_valid_password(first.password),
        is_valid_password(second.password),
        second.email == first.email,
        U::dependable(),
        signed_up::<U>(users_before, users_between, first, first_answer),
        signed_up::<U>(users_between, users_after, second, second_answer),
    ensures
        second_answer == Err::<SignupResponse, AuthAPIError>(AuthAPIError::UserAlreadyExists),
        users_after == users_between,
{
}

/// A challenge can be consumed at most once: of two answers with the same
/// login attempt and code, with nothing issued in between, at most one is
/// accepted.
pub proof fn challenge_is_consumed_at_most_once(
    codes_before: Map<Seq<char>, (Seq<char>, Seq<char>)>,
    codes_between: Map<Seq<char>, (Seq<char>, Seq<char>)>,
    codes_after: Map<Seq<char>, (Seq<char>, Seq<char>)>,
    dependable: bool,
    email: Seq<char>,
    login_attempt_id: Seq<char>,
    code: Seq<char>,
    first_answer: Result<(), ChallengeError>,
    second_answer: Result<(), ChallengeError>,
)
    requires
        answered(
            codes_before,
            codes_between,
            dependable,
            email,
            login_attempt_id,
            code,
            first_answer,
        ),
        answered(
            codes_between,
            codes_after,
            dependable,
            email,
            login_attempt_id,
            code,
            second_answer,
        ),
    ensures
        !(first_answer is Ok && second_answer is Ok),
{
}

/// With a dependable store, a challenge that was issued for an address is
/// consumed by its exact login attempt and code, and the same answer given
/// again finds no challenge.
pub proof fn challenge_is_good_for_one_use(
    codes: Map<Seq<char>, (Seq<char>, Seq<char>)>,
    codes_between: Map<Seq<char>, (Seq<char>, Seq<char>)>,
    codes_after: Map<Seq<char>, (Seq<char>, Seq<char>)>,
    email: Seq<char>,
    login_attempt_id: Seq<char>,
    code: Seq<char>,
    first_answer: Result<(), ChallengeError>,
    second_answer: Result<(), ChallengeError>,
)
    requires
        answered(
            codes.insert(email, (login_attempt_id, code)),
            codes_between,
            true,
            email,
            login_attempt_id,
            code,
            first_answer,
        ),
        answered(codes_between, codes_after, true, email, login_attempt_id, code, second_answer),
    ensures
        first_answer is Ok,
        second_answer == Err::<(), ChallengeError>(ChallengeError::NotFound),
        codes_between == codes.remove(email),
        codes_after == codes_between,
{
    assert(codes.insert(email, (login_attempt_id, code)).remove(email) =~= codes.remove(email));
}

/// A second challenge for an address takes the place of the first: the
/// login attempt and code of the first are no longer accepted, and the
/// second stays pending. The two challenges must differ.
pub proof fn new_challenge_supersedes_old(
    codes: Map<Seq<char>, (Seq<char>, Seq<char>)>,
    codes_after: Map<Seq<char>, (Seq<char>, Seq<char>)>,
    dependable: bool,
    email: Seq<char>,
    first: (Seq<char>, Seq<char>),
    second: (Seq<char>, Seq<char>),
    answer: Result<(), ChallengeError>,
)
    requires
        first != second,
        answered(
            codes.insert(email, first).insert(email, second),
            codes_after,
            dependable,
            email,
            first.0,
            first.1,
            answer,
        ),
    ensures
        answer is Err,
        dependable ==> answer == Err::<(), ChallengeError>(ChallengeError::Mismatch),
        codes_after == codes.insert(email, second),
{
    assert(codes.insert(email, first).insert(email, second) =~= codes.insert(email, second));
}

/// Whether each store state follows from the one before it by keeping one
/// more challenge for the address, as `add_code` does whenever it answers
/// `Ok`.
pub open spec fn issued_in_turn(
    states: Seq<Map<Seq<char>, (Seq<char>, Seq<char>)>>,
    email: Seq<char>,
    issued: Seq<(Seq<char>, Seq<char>)>,
) -> bool {
    &&& states.len() == issued.len() + 1
    &&& forall|i: int|
        0 <= i < issued.len() ==> #[trigger] states[i + 1] == states[i].insert(email, issued[i])
}

/// However many challenges are issued for one address, and in whatever
/// order the writes reach the store, exactly one is pending afterwards:
/// the one that was written last, whole. The challenges of other
/// addresses are as before. The store takes one write at a time, so every
/// run of writes is such a sequence.
pub proof fn last_issue_wins(
    states: Seq<Map<Seq<char>, (Seq<char>, Seq<char>)>>,
    email: Seq<char>,
    issued: Seq<(Seq<char>, Seq<char>)>,
)
    requires
        issued.len() > 0,
        issued_in_turn(states, email, issued),
    ensures
        states.last() == states[0].insert(email, issued.last()),
    decreases issued.len(),
{
    let n = issued.len() as int;
    assert(states[n - 1 + 1] == states[n - 1].insert(email, issued[n - 1]));
    if n > 1 {
        let earlier_states = states.drop_last();
        let earlier = issued.drop_last();
        assert forall|i: int| 0 <= i < earlier.len() implies #[trigger] earlier_states[i + 1]
            == earlier_states[i].insert(email, earlier[i]) by {
            assert(states[i + 1] == states[i].insert(email, issued[i]));
        }
        last_issue_wins(earlier_states, email, earlier);
        assert(states[n - 1] == states[0].insert(email, issued[n - 2]));
    }
    assert(states[n - 1].insert(email, issued[n - 1]) =~= states[0].insert(email, issued[n - 1]));
}

/// A challenge that was written to the cache reads back as it was: the
/// text of its entry holds the login attempt and the code, and a lookup
/// that finds that text answers with both.
pub proof fn stored_challenge_reads_back(
    login_attempt_id: Seq<char>,
    code: Seq<char>,
    text: Seq<char>,
    answer: Result<(LoginAttemptId, TwoFACode), TwoFACodeStoreError>,
)
    requires
        uuid_accepts(login_attempt_id),
        is_six_digits(code),
        pair_of_json(text) == Some((login_attempt_id, code)),
        reply_outcome(CacheReplyView::Found(text), answer),
    ensures
        answer matches Ok(found) && found.0@ == login_attempt_id && found.1@ == code,
{
}

/// After a logout that was accepted, the same token is never accepted
/// again: at any time at which its signature and expiry would pass, the
/// answer is `RevokedToken`, unless a ledger that is not dependable fails
/// to answer.
pub proof fn logout_revokes_token<B: BannedTokenStore>(
    banned_before: Set<Seq<char>>,
    banned_after: Set<Seq<char>>,
    secret: Seq<char>,
    token: Seq<char>,
    logout_time: u64,
    verify_time: u64,
    logout_answer: Result<(), AuthAPIError>,
    verify_answer: Result<(), AuthAPIError>,
)
    requires
        logged_out::<B>(banned_before, banned_after, secret, Some(token), logout_time, logout_answer),
        logout_answer is Ok,
        face_value(jwt_opened(token, secret), verify_time) is Ok,
        token_verified::<B>(banned_after, secret, token, verify_time, verify_answer),
    ensures
        verify_answer is Err,
        B::dependable() ==> verify_answer == Err::<(), AuthAPIError>(AuthAPIError::RevokedToken),
        !B::dependable() ==> verify_answer == Err::<(), AuthAPIError>(AuthAPIError::RevokedToken)
            || verify_answer == Err::<(), AuthAPIError>(AuthAPIError::UnexpectedError),
{
}

/// A token that is verified after its expiry is refused as expired,
/// whether or not the ledger holds it and whether or not the ledger
/// answers.
pub proof fn expired_token_is_refused<B: BannedTokenStore>(
    banned: Set<Seq<char>>,
    secret: Seq<char>,
    token: Seq<char>,
    subject: Seq<char>,
    expiry: u64,
    now: u64,
    answer: Result<(), AuthAPIError>,
)
    requires
        jwt_opened(token, secret) == Some((subject, expiry)),
        is_valid_email(subject),
        now > expiry,
        token_verified::<B>(banned, secret, token, now, answer),
    ensures
        answer == Err::<(), AuthAPIError>(AuthAPIError::ExpiredToken),
{
}

/// A challenge in memory is pending from the second it was stamped until
/// its lifetime has passed, and never after.
pub proof fn challenge_expires(
    kept: Map<Seq<char>, PendingCodeView>,
    email: Seq<char>,
    clock: u64,
)
    requires
        kept.contains_key(email),
    ensures
        live_codes(kept, clock).contains_key(email) <==> kept[email].created_at <= clock
            < kept[email].created_at + CHALLENGE_TTL_SECONDS,
{
}

/// A session token is accepted from the second it was issued until its
/// expiry, as long as it is not revoked and the ledger answers.
pub proof fn issued_token_is_accepted<B: BannedTokenStore>(
    banned: Set<Seq<char>>,
    secret: Seq<char>,
    email: Seq<char>,
    token: Seq<char>,
    issued: u64,
    now: u64,
    answer: Result<(), AuthAPIError>,
)
    requires
        is_valid_email(email),
        is_token_issued_at(token, email, secret, issued),
        now <= expiry_at(issued),
        !banned.contains(token),
        B::dependable(),
        token_verified::<B>(banned, secret, token, now, answer),
    ensures
        answer is Ok,
{
}

/// A revocation that is written to the cache when a token is revoked at
/// `now` lasts one token lifetime, so it is dropped no sooner than the
/// token that it guards expires, whenever that token was issued.
pub proof fn revocation_outlives_token(issued: u64, now: u64)
    requires
        issued <= now,
    ensures
        now + TOKEN_TTL_SECONDS >= expiry_at(issued),
{
}

} // verus!
