use crate::domain::data_stores::UserStore;
use crate::domain::data_stores::UserStoreError;
use crate::domain::email::is_valid_email;
use crate::domain::email::Email;
use crate::domain::error::AuthAPIError;
use crate::domain::password::is_valid_password;
use crate::domain::password::Password;
use crate::domain::user::User;
use crate::domain::user::UserView;
use vstd::prelude::*;

verus! {

pub struct SignupRequest {
    pub email: String,
    pub password: String,
    pub requires_2fa: bool,
}

pub struct SignupResponse {
    pub message: String,
}

/// What a signup was asked for, as contracts see it.
pub struct SignupView {
    pub email: Seq<char>,
    pub password: Seq<char>,
    pub requires_2fa: bool,
}

impl View for SignupRequest {
    type V = SignupView;

    open spec fn view(&self) -> SignupView {
        SignupView {
            email: self.email@,
            password: self.password@,
            requires_2fa: self.requires_2fa,
        }
    }
}

/// How a signup relates the directory before and after to its answer.
/// Malformed input never reaches the directory. A taken address is
/// refused whatever the password. A new identity is kept under its
/// address with a credential that admits its password. Only a directory
/// that is not dependable can give `UnexpectedError`.
pub open spec fn signed_up<U: UserStore>(
    before: Map<Seq<char>, UserView>,
    after: Map<Seq<char>, UserView>,
    request: SignupView,
    r: Result<SignupResponse, AuthAPIError>,
) -> bool {
    if !(is_valid_email(request.email) && is_valid_password(request.password)) {
        after == before && r == Err::<SignupResponse, AuthAPIError>(
            AuthAPIError::InvalidCredentials,
        )
    } else {
        match r {
            Ok(response) => {
                &&& response.message@ == "User created successfully!"@
                &&& !before.contains_key(request.email)
                &&& after.contains_key(request.email)
                &&& after == before.insert(request.email, after[request.email])
                &&& after[request.email].email == request.email
                &&& after[request.email].requires_2fa == request.requires_2fa
                &&& U::admits(after[request.email].password, request.password)
            },
            Err(AuthAPIError::UserAlreadyExists) => after == before && before.contains_key(
                request.email,
            ),
            Err(AuthAPIError::UnexpectedError) => after == before && !U::dependable(),
            Err(_) => false,
        }
    }
}

/// Registers a new identity.
pub fn signup<U: UserStore>(user_store: &mut U, request: SignupRequest) -> (r: Result<
    SignupResponse,
    AuthAPIError,
>)
    ensures
        signed_up::<U>(old(user_store).users(), final(user_store).users(), request@, r),
{
    let email = match Email::parse(request.email) {
        Ok(email) => email,
        Err(_) => {
            return Err(AuthAPIError::InvalidCredentials);
        },
    };
    let password = match Password::parse(request.password) {
        Ok(password) => password,
        Err(_) => {
            return Err(AuthAPIError::InvalidCredentials);
        },
    };
    let user = User::new(email, password, request.requires_2fa);
    if user_store.get_user(&user.email).is_ok() {
        return Err(AuthAPIError::UserAlreadyExists);
    }
    match user_store.add_user(user) {
        Ok(()) => Ok(SignupResponse { message: "User created successfully!".to_owned() }),
        Err(UserStoreError::UserAlreadyExists) => Err(AuthAPIError::UserAlreadyExists),
        Err(_) => Err(AuthAPIError::UnexpectedError),
    }
}

} // verus!
