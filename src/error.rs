//! The library's error taxonomy and its mapping to response status.
use vstd::prelude::*;

verus! {

/// What can go wrong while registering or authenticating.
#[derive(Clone, Copy, Debug, PartialEq, Eq, Structural)]
pub enum AppError {
    /// An email or a password was empty.
    Validation,
    /// The email is already registered.
    Conflict,
    /// No account holds the email.
    NotFound,
    /// The password does not verify against the stored hash.
    InvalidCredential,
    /// The credential store failed.
    Store,
    /// The password could not be hashed.
    Hashing,
    /// The token could not be signed.
    Signing,
}

/// The externally visible shape of an error: a status code and a message.
/// The message never carries credential material.
#[derive(Clone, Copy, Debug, PartialEq, Eq, Structural)]
pub enum PublicMessage {
    InvalidInput,
    AlreadyRegistered,
    InvalidCredentials,
    InternalError,
}

impl AppError {
    pub open spec fn status_spec(self) -> u16 {
        match self {
            AppError::Validation => 400,
            AppError::Conflict => 409,
            AppError::NotFound | AppError::InvalidCredential => 401,
            AppError::Store | AppError::Hashing | AppError::Signing => 500,
        }
    }

    pub open spec fn message_spec(self) -> PublicMessage {
        match self {
            AppError::Validation => PublicMessage::InvalidInput,
            AppError::Conflict => PublicMessage::AlreadyRegistered,
            AppError::NotFound | AppError::InvalidCredential => PublicMessage::InvalidCredentials,
            AppError::Store | AppError::Hashing | AppError::Signing => PublicMessage::InternalError,
        }
    }

    /// Whether the error is the client's (a 4xx status) rather than the server's.
    pub open spec fn is_client_error(self) -> bool {
        400 <= self.status_spec() < 500
    }

    /// The HTTP status code that the error is reported with.
    pub fn status_code(&self) -> (r: u16)
        ensures
            r == self.status_spec(),
    {
        match self {
            AppError::Validation => 400,
            AppError::Conflict => 409,
            AppError::NotFound | AppError::InvalidCredential => 401,
            AppError::Store | AppError::Hashing | AppError::Signing => 500,
        }
    }

    /// The message that the error is reported with.
    pub fn public_message(&self) -> (r: PublicMessage)
        ensures
            r == self.message_spec(),
    {
        match self {
            AppError::Validation => PublicMessage::InvalidInput,
            AppError::Conflict => PublicMessage::AlreadyRegistered,
            AppError::NotFound | AppError::InvalidCredential => PublicMessage::InvalidCredentials,
            AppError::Store | AppError::Hashing | AppError::Signing => PublicMessage::InternalError,
        }
    }
}

impl PublicMessage {
    pub open spec fn text_spec(self) -> Seq<char> {
        match self {
            PublicMessage::InvalidInput => "invalid email or password"@,
            PublicMessage::AlreadyRegistered => "account already exists"@,
            PublicMessage::InvalidCredentials => "invalid credentials"@,
            PublicMessage::InternalError => "internal server error"@,
        }
    }

    /// The message as text.
    pub fn text(&self) -> (r: &'static str)
        ensures
            r@ == self.text_spec(),
    {
        match self {
            PublicMessage::InvalidInput => "invalid email or password",
            PublicMessage::AlreadyRegistered => "account already exists",
            PublicMessage::InvalidCredentials => "invalid credentials",
            PublicMessage::InternalError => "internal server error",
        }
    }
}

} // verus!
