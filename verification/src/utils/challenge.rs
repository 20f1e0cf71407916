use crate::domain::data_stores::LoginAttemptId;
use crate::domain::data_stores::TwoFACode;
use crate::domain::data_stores::TwoFACodeStore;
use crate::domain::data_stores::TwoFACodeStoreError;
use crate::domain::email::Email;
use vstd::prelude::*;

verus! {

/// Why a challenge was not consumed.
#[derive(Clone, Copy, Debug, PartialEq, Eq, Structural)]
pub enum ChallengeError {
    /// No challenge is pending for the address.
    NotFound,
    /// The login attempt or the code differs from the pending one.
    Mismatch,
    /// The store did not answer.
    UnexpectedError,
}

/// The verdict on an answer to the pending challenges.
pub open spec fn challenge_verdict(
    codes: Map<Seq<char>, (Seq<char>, Seq<char>)>,
    email: Seq<char>,
    login_attempt_id: Seq<char>,
    code: Seq<char>,
) -> Result<(), ChallengeError> {
    if !codes.contains_key(email) {
        Err(ChallengeError::NotFound)
    } else if codes[email] != (login_attempt_id, code) {
        Err(ChallengeError::Mismatch)
    } else {
        Ok(())
    }
}

/// The pending challenges after an answer: the right answer consumes the
/// challenge, any other leaves everything as it was.
pub open spec fn after_answer(
    codes: Map<Seq<char>, (Seq<char>, Seq<char>)>,
    email: Seq<char>,
    login_attempt_id: Seq<char>,
    code: Seq<char>,
) -> Map<Seq<char>, (Seq<char>, Seq<char>)> {
    if challenge_verdict(codes, email, login_attempt_id, code) is Ok {
        codes.remove(email)
    } else {
        codes
    }
}

/// Issues a challenge: a fresh random login attempt and a fresh random
/// code, which take the place of any pending challenge of the address.
pub fn issue_challenge<C: TwoFACodeStore>(two_fa_code_store: &mut C, email: &Email) -> (r: Result<
    (LoginAttemptId, TwoFACode),
    TwoFACodeStoreError,
>)
    ensures
        match r {
            Ok((login_attempt_id, code)) => final(two_fa_code_store).codes() == old(two_fa_code_store).codes().insert(email@, (login_attempt_id@, code@)),
            Err(e) => e == TwoFACodeStoreError::UnexpectedError && !C::dependable() && final(two_fa_code_store).codes() == old(two_fa_code_store).codes(),
        },
{
    let login_attempt_id = LoginAttemptId::default();
    let code = TwoFACode::default();
    match two_fa_code_store.add_code(email.clone(), login_attempt_id.clone(), code.clone()) {
        Ok(()) => Ok((login_attempt_id, code)),
        Err(_) => Err(TwoFACodeStoreError::UnexpectedError),
    }
}

/// How answering a challenge relates the store before and after to the
/// verdict. A store that is not dependable may fail to answer, and then
/// nothing changes.
pub open spec fn answered(
    before: Map<Seq<char>, (Seq<char>, Seq<char>)>,
    after: Map<Seq<char>, (Seq<char>, Seq<char>)>,
    dependable: bool,
    email: Seq<char>,
    login_attempt_id: Seq<char>,
    code: Seq<char>,
    r: Result<(), ChallengeError>,
) -> bool {
    ||| r == challenge_verdict(before, email, login_attempt_id, code) && after == after_answer(
        before,
        email,
        login_attempt_id,
        code,
    )
    ||| !dependable && r == Err::<(), ChallengeError>(ChallengeError::UnexpectedError) && after
        == before
}

/// Checks an answer against the pending challenge of the address and, when
/// it is right, removes the challenge before saying so: a challenge is
/// good for one use.
pub fn verify_and_consume<C: TwoFACodeStore>(
    two_fa_code_store: &mut C,
    email: &Email,
    login_attempt_id: &LoginAttemptId,
    code: &TwoFACode,
) -> (r: Result<(), ChallengeError>)
    ensures
        answered(
            old(two_fa_code_store).codes(),
            final(two_fa_code_store).codes(),
            C::dependable(),
            email@,
            login_attempt_id@,
            code@,
            r,
        ),
{
    let pending = match two_fa_code_store.get_code(email) {
        Ok(pending) => pending,
        Err(TwoFACodeStoreError::LoginAttemptIdNotFound) => {
            return Err(ChallengeError::NotFound);
        },
        Err(TwoFACodeStoreError::UnexpectedError) => {
            return Err(ChallengeError::UnexpectedError);
        },
    };
    if !(pending.0.eq(login_attempt_id) && pending.1.eq(code)) {
        return Err(ChallengeError::Mismatch);
    }
    match two_fa_code_store.remove_code(email) {
        Ok(()) => Ok(()),
        Err(_) => Err(ChallengeError::UnexpectedError),
    }
}

} // verus!
