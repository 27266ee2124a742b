//! Response envelopes and the taxonomy of failures with their status codes.

use vstd::prelude::*;

verus! {

/// The class of a failure; each class answers with one status code.
#[derive(Debug, Clone, Copy, PartialEq, Eq, Structural)]
pub enum ErrorKind {
    /// Malformed input.
    ValidationError,
    /// Missing, invalid or expired token or session.
    Unauthenticated,
    /// Authenticated, but the role is not allowed.
    Forbidden,
    /// A unique field is already taken.
    Conflict,
    /// The resource does not exist.
    NotFound,
    /// The store, the registry or the hashing failed.
    InternalError,
}

/// The status code of each class of failure.
pub open spec fn status_of(kind: ErrorKind) -> u16 {
    match kind {
        ErrorKind::ValidationError => 400,
        ErrorKind::Unauthenticated => 401,
        ErrorKind::Forbidden => 403,
        ErrorKind::NotFound => 404,
        ErrorKind::Conflict => 409,
        ErrorKind::InternalError => 500,
    }
}

/// Status code answered on success.
pub const STATUS_OK: u16 = 200;

/// Status code answered when a record was created.
pub const STATUS_CREATED: u16 = 201;

impl ErrorKind {
    /// The status code that this class of failure answers with.
    pub fn status_code(self) -> (code: u16)
        ensures
            code == status_of(self),
            400 <= code <= 500,
    {
        match self {
            ErrorKind::ValidationError => 400,
            ErrorKind::Unauthenticated => 401,
            ErrorKind::Forbidden => 403,
            ErrorKind::NotFound => 404,
            ErrorKind::Conflict => 409,
            ErrorKind::InternalError => 500,
        }
    }
}

/// Body of a failed response.
#[derive(Debug)]
pub struct ErrorResponse {
    /// Detail for diagnosis; empty where there is none.
    pub error: String,
    /// Short message for the caller.
    pub message: String,
}

/// Body of a successful response.
#[derive(Debug)]
pub struct SuccessResponse<T> {
    pub data: T,
    pub message: String,
}

impl ErrorResponse {
    /// A failure body with the given message and no detail.
    pub fn with_message(message: &str) -> (body: ErrorResponse)
        ensures
            body.error@ == Seq::<char>::empty(),
            body.message@ == message@,
    {
        ErrorResponse { error: String::new(), message: message.to_owned() }
    }
}

/// Why a registration, a login or a logout failed.
#[derive(Debug, Clone, Copy, PartialEq, Eq, Structural)]
pub enum Failure {
    /// The body does not meet the rules of its schema.
    InvalidInput,
    /// The credential store failed on a read.
    StoreFailure,
    /// The credential store failed to add the account.
    InsertFailure,
    /// The email is already registered.
    EmailTaken,
    /// The password could not be hashed.
    HashingFailure,
    /// No account has the email, or the password is not the account's.
    WrongCredentials,
    /// The lifetimes or the keys of the tokens are not usable.
    TokenFailure,
    /// The registry could not be reached.
    RegistryUnreachable,
    /// The registry refused a write or a delete.
    RegistryFailure,
    /// The request carries no refresh token.
    MissingRefreshToken,
    /// The refresh token's signature, claims or expiry did not hold.
    InvalidRefreshToken,
}

/// The class of each failure.
pub open spec fn failure_kind(failure: Failure) -> ErrorKind {
    match failure {
        Failure::InvalidInput => ErrorKind::ValidationError,
        Failure::WrongCredentials => ErrorKind::ValidationError,
        Failure::EmailTaken => ErrorKind::Conflict,
        Failure::MissingRefreshToken => ErrorKind::Unauthenticated,
        Failure::InvalidRefreshToken => ErrorKind::Unauthenticated,
        Failure::StoreFailure => ErrorKind::InternalError,
        Failure::InsertFailure => ErrorKind::InternalError,
        Failure::HashingFailure => ErrorKind::InternalError,
        Failure::TokenFailure => ErrorKind::InternalError,
        Failure::RegistryUnreachable => ErrorKind::InternalError,
        Failure::RegistryFailure => ErrorKind::InternalError,
    }
}

/// The message of each failure.
pub open spec fn failure_text(failure: Failure) -> Seq<char> {
    match failure {
        Failure::InvalidInput => "Invalid input data"@,
        Failure::WrongCredentials => "Invalid email or password"@,
        Failure::EmailTaken => "Email already registered"@,
        Failure::MissingRefreshToken => "Token is invalid or session has expired"@,
        Failure::InvalidRefreshToken => "Error verifying token"@,
        Failure::StoreFailure => "Request failed"@,
        Failure::InsertFailure => "Error when adding to the database record"@,
        Failure::HashingFailure => "Password hashing failed"@,
        Failure::TokenFailure => "Error token"@,
        Failure::RegistryUnreachable => "Redis error"@,
        Failure::RegistryFailure => "Redis error"@,
    }
}

impl Failure {
    /// The class of this failure.
    pub fn kind(self) -> (kind: ErrorKind)
        ensures
            kind == failure_kind(self),
    {
        match self {
            Failure::InvalidInput => ErrorKind::ValidationError,
            Failure::WrongCredentials => ErrorKind::ValidationError,
            Failure::EmailTaken => ErrorKind::Conflict,
            Failure::MissingRefreshToken => ErrorKind::Unauthenticated,
            Failure::InvalidRefreshToken => ErrorKind::Unauthenticated,
            Failure::StoreFailure => ErrorKind::InternalError,
            Failure::InsertFailure => ErrorKind::InternalError,
            Failure::HashingFailure => ErrorKind::InternalError,
            Failure::TokenFailure => ErrorKind::InternalError,
            Failure::RegistryUnreachable => ErrorKind::InternalError,
            Failure::RegistryFailure => ErrorKind::InternalError,
        }
    }

    /// The body that answers this failure: its message, without detail.
    pub fn response(self) -> (body: ErrorResponse)
        ensures
            body.error@ == Seq::<char>::empty(),
            body.message@ == failure_text(self),
    {
        match self {
            Failure::InvalidInput => ErrorResponse::with_message("Invalid input data"),
            Failure::WrongCredentials => ErrorResponse::with_message("Invalid email or password"),
            Failure::EmailTaken => ErrorResponse::with_message("Email already registered"),
            Failure::MissingRefreshToken => ErrorResponse::with_message(
                "Token is invalid or session has expired",
            ),
            Failure::InvalidRefreshToken => ErrorResponse::with_message("Error verifying token"),
            Failure::StoreFailure => ErrorResponse::with_message("Request failed"),
            Failure::InsertFailure => ErrorResponse::with_message(
                "Error when adding to the database record",
            ),
            Failure::HashingFailure => ErrorResponse::with_message("Password hashing failed"),
            Failure::TokenFailure => ErrorResponse::with_message("Error token"),
            Failure::RegistryUnreachable => ErrorResponse::with_message("Redis error"),
            Failure::RegistryFailure => ErrorResponse::with_message("Redis error"),
        }
    }
}

} // verus!
