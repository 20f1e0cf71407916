use vstd::prelude::*;

verus! {

/// The failures that a caller of the service can see.
#[derive(Clone, Copy, Debug, PartialEq, Eq, Structural)]
pub enum AuthAPIError {
    UserAlreadyExists,
    /// An address, a password, a code or an identifier is malformed.
    InvalidCredentials,
    /// No such identity, or a wrong password or code: one answer for both.
    IncorrectCredentials,
    MissingToken,
    InvalidToken,
    ExpiredToken,
    RevokedToken,
    UnexpectedError,
}

/// The body of an error reply.
pub struct ErrorResponse {
    pub error: String,
}

/// The HTTP status that stands for a failure.
pub open spec fn status_of(e: AuthAPIError) -> u16 {
    match e {
        AuthAPIError::UserAlreadyExists => 409,
        AuthAPIError::InvalidCredentials => 400,
        AuthAPIError::IncorrectCredentials => 401,
        AuthAPIError::MissingToken => 400,
        AuthAPIError::InvalidToken => 401,
        AuthAPIError::ExpiredToken => 401,
        AuthAPIError::RevokedToken => 401,
        AuthAPIError::UnexpectedError => 500,
    }
}

/// The message that a client reads for a failure. It never says more than
/// the kind of the failure.
pub open spec fn message_of(e: AuthAPIError) -> Seq<char> {
    match e {
        AuthAPIError::UserAlreadyExists => "User already exists"@,
        AuthAPIError::InvalidCredentials => "Invalid credentials"@,
        AuthAPIError::IncorrectCredentials => "Incorrect Credentials"@,
        AuthAPIError::MissingToken => "Missing auth token"@,
        AuthAPIError::InvalidToken => "Invalid auth token"@,
        AuthAPIError::ExpiredToken => "Expired auth token"@,
        AuthAPIError::RevokedToken => "Revoked auth token"@,
        AuthAPIError::UnexpectedError => "Unexpected error"@,
    }
}

impl AuthAPIError {
    /// The status and the body of the reply for this failure.
    pub fn into_response(self) -> (reply: (u16, ErrorResponse))
        ensures
            reply.0 == status_of(self),
            reply.1.error@ == message_of(self),
    {
        let (status, error_message) = match self {
            AuthAPIError::UserAlreadyExists => (409u16, "User already exists"),
            AuthAPIError::InvalidCredentials => (400u16, "Invalid credentials"),
            AuthAPIError::IncorrectCredentials => (401u16, "Incorrect Credentials"),
            AuthAPIError::MissingToken => (400u16, "Missing auth token"),
            AuthAPIError::InvalidToken => (401u16, "Invalid auth token"),
            AuthAPIError::ExpiredToken => (401u16, "Expired auth token"),
            AuthAPIError::RevokedToken => (401u16, "Revoked auth token"),
            AuthAPIError::UnexpectedError => (500u16, "Unexpected error"),
        };
        (status, ErrorResponse { error: error_message.to_owned() })
    }
}

} // verus!
