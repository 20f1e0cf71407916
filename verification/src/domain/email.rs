use vstd::prelude::*;
use vstd::std_specs::cmp::PartialEqSpecImpl;

verus! {

/// The verdict of `validator::validate_email` on an address.
pub uninterp spec fn validator_accepts(address: Seq<char>) -> bool;

/// Whether `i` is the position of the last `@` of `s`.
pub open spec fn is_last_at(s: Seq<char>, i: int) -> bool {
    &&& 0 <= i < s.len()
    &&& s[i] == '@'
    &&& forall|k: int| i < k < s.len() ==> s[k] != '@'
}

/// A local part, an `@`, and after the last `@` a domain that holds a dot.
pub open spec fn has_address_shape(s: Seq<char>) -> bool {
    exists|i: int, j: int| is_last_at(s, i) && 0 < i < j < s.len() && s[j] == '.'
}

/// An address is valid when it has the minimal shape and the validator accepts it.
pub open spec fn is_valid_email(s: Seq<char>) -> bool {
    has_address_shape(s) && validator_accepts(s)
}

/// Calls `validator::validate_email`, which decides from the text alone
/// whether it is an e-mail address in the sense of the HTML5 standard.
#[verifier::external_body]
fn validator_verdict(address: &str) -> (ok: bool)
    ensures
        ok == validator_accepts(address@),
{
    validator::validate_email(address)
}

/// Scans the text once and reports whether it has the minimal address shape.
pub fn check_address_shape(address: &str) -> (ok: bool)
    ensures
        ok == has_address_shape(address@),
{
    let mut seen_at = false;
    let mut at_is_first = false;
    let mut dot_after = false;
    let mut first = true;
    let ghost mut at_pos: int = -1;
    let ghost mut dot_pos: int = -1;
    for c in it: address.chars()
        invariant
            it.seq() == address@,
            first == (it.index() == 0),
            seen_at == (at_pos >= 0),
            -1 <= at_pos < it.index(),
            seen_at ==> address@[at_pos] == '@',
            forall|k: int| at_pos < k < it.index() ==> address@[k] != '@',
            at_is_first == (at_pos == 0),
            dot_after ==> at_pos < dot_pos < it.index() && address@[dot_pos] == '.',
            !dot_after ==> forall|k: int| at_pos < k < it.index() ==> address@[k] != '.',
    {
        if c == '@' {
            seen_at = true;
            at_is_first = first;
            dot_after = false;
            proof {
                at_pos = it.index() as int;
            }
        } else if c == '.' {
            if !dot_after {
                proof {
                    dot_pos = it.index() as int;
                }
            }
            dot_after = true;
        }
        first = false;
    }
    let ok = seen_at && !at_is_first && dot_after;
    proof {
        let s = address@;
        if ok {
            assert(is_last_at(s, at_pos) && 0 < at_pos < dot_pos < s.len() && s[dot_pos] == '.');
        } else {
            assert forall|i: int, j: int|
                !(is_last_at(s, i) && 0 < i < j < s.len() && s[j] == '.') by {
                if is_last_at(s, i) && 0 < i < j < s.len() && s[j] == '.' {
                    if seen_at {
                        assert(i == at_pos) by {
                            if i < at_pos {
                                assert(s[at_pos] != '@');
                            } else if at_pos < i {
                                assert(s[i] != '@');
                            }
                        }
                        assert(s[j] != '.');
                    } else {
                        assert(s[i] != '@');
                    }
                }
            }
        }
    }
    ok
}

/// Why a text was refused as an e-mail address.
#[derive(Clone, Copy, Debug, PartialEq, Eq, Structural)]
pub enum EmailError {
    InvalidFormat,
}

/// A validated e-mail address. The text never changes after construction
/// and is compared and hashed by value.
#[derive(Hash)]
pub struct Email(String);

impl View for Email {
    type V = Seq<char>;

    closed spec fn view(&self) -> Seq<char> {
        self.0@
    }
}

impl Email {
    #[verifier::type_invariant]
    spec fn well_formed(self) -> bool {
        is_valid_email(self.0@)
    }

    /// Accepts the text when it has the minimal address shape and the
    /// validator accepts it; refuses every other text.
    pub fn parse(email: String) -> (r: Result<Email, EmailError>)
        ensures
            is_valid_email(email@) ==> (r matches Ok(e) && e@ == email@),
            !is_valid_email(email@) ==> r == Err::<Email, EmailError>(EmailError::InvalidFormat),
    {
        let verdict = validator_verdict(email.as_str());
        Email::from_verdict(email, verdict)
    }

    /// Builds the address from the text and the validator's verdict on it.
    pub fn from_verdict(email: String, verdict: bool) -> (r: Result<Email, EmailError>)
        requires
            verdict == validator_accepts(email@),
        ensures
            has_address_shape(email@) && verdict ==> (r matches Ok(e) && e@ == email@),
            !(has_address_shape(email@) && verdict) ==> r == Err::<Email, EmailError>(
                EmailError::InvalidFormat,
            ),
    {
        if verdict && check_address_shape(email.as_str()) {
            Ok(Email(email))
        } else {
            Err(EmailError::InvalidFormat)
        }
    }

    /// The address text, which is always a valid address.
    pub fn as_ref(&self) -> (text: &String)
        ensures
            text@ == self@,
            is_valid_email(text@),
    {
        proof {
            use_type_invariant(self);
        }
        &self.0
    }

}

impl Clone for Email {
    fn clone(&self) -> (copy: Email)
        ensures
            copy@ == self@,
    {
        proof {
            use_type_invariant(self);
        }
        Email(self.0.clone())
    }
}

impl PartialEq for Email {
    fn eq(&self, other: &Email) -> (equal: bool) {
        self.0 == other.0
    }
}

impl Eq for Email {}

impl PartialEqSpecImpl for Email {
    open spec fn obeys_eq_spec() -> bool {
        true
    }

    open spec fn eq_spec(&self, other: &Email) -> bool {
        self@ == other@
    }
}

} // verus!
