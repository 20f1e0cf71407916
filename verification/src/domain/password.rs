use vstd::prelude::*;
use vstd::std_specs::cmp::PartialEqSpecImpl;
use vstd::string::StrSliceExecFns;

verus! {

/// The least number of characters that a password may have.
pub const MIN_PASSWORD_LENGTH: usize = 8;

/// A password is valid when it has at least eight characters; there is no
/// upper bound.
pub open spec fn is_valid_password(s: Seq<char>) -> bool {
    s.len() >= MIN_PASSWORD_LENGTH
}

/// Why a text was refused as a password.
#[derive(Clone, Copy, Debug, PartialEq, Eq, Structural)]
pub enum PasswordError {
    TooShort,
}

/// A validated password. It holds either the plaintext handed in at signup
/// or login, or the stored credential of an identity.
pub struct Password(String);

impl View for Password {
    type V = Seq<char>;

    closed spec fn view(&self) -> Seq<char> {
        self.0@
    }
}

impl Password {
    #[verifier::type_invariant]
    spec fn well_formed(self) -> bool {
        is_valid_password(self.0@)
    }

    /// Accepts exactly the texts of eight characters or more.
    pub fn parse(password: String) -> (r: Result<Password, PasswordError>)
        ensures
            is_valid_password(password@) ==> (r matches Ok(p) && p@ == password@),
            !is_valid_password(password@) ==> r == Err::<Password, PasswordError>(
                PasswordError::TooShort,
            ),
    {
        if password.as_str().unicode_len() >= MIN_PASSWORD_LENGTH {
            Ok(Password(password))
        } else {
            Err(PasswordError::TooShort)
        }
    }

    /// The password text, which always has the least length.
    pub fn as_ref(&self) -> (text: &String)
        ensures
            text@ == self@,
            is_valid_password(text@),
    {
        proof {
            use_type_invariant(self);
        }
        &self.0
    }
}

impl Clone for Password {
    fn clone(&self) -> (copy: Password)
        ensures
            copy@ == self@,
    {
        proof {
            use_type_invariant(self);
        }
        Password(self.0.clone())
    }
}

impl PartialEq for Password {
    fn eq(&self, other: &Password) -> (equal: bool) {
        self.0 == other.0
    }
}

impl PartialEqSpecImpl for Password {
    open spec fn obeys_eq_spec() -> bool {
        true
    }

    open spec fn eq_spec(&self, other: &Password) -> bool {
        self@ == other@
    }
}

} // verus!
