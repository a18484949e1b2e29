//! Error kinds of the middleware and of second factors.
use vstd::prelude::*;

verus! {

/// Why a second-factor code check failed.
#[derive(Clone, Debug, PartialEq, Eq)]
pub enum CheckCodeError {
    /// The code was wrong; the user may submit another one.
    InvalidCode,
    /// The check could not be made; the message is for the server side only.
    UnknownError(String),
}

/// A second factor could not generate a code.
#[derive(Clone, Copy, Debug, PartialEq, Eq, Structural)]
pub struct GenerateCodeError;

/// A second factor could not decide whether it applies.
#[derive(Clone, Copy, Debug, PartialEq, Eq, Structural)]
pub struct ConditionCheckError;

/// What a request can be refused with.
#[derive(Clone, Debug, PartialEq, Eq)]
pub enum AuthError {
    /// No valid primary credential, or a pending second factor.
    AuthenticationFailure,
    /// A wrong second-factor code.
    InvalidCode,
    /// The second factor could not decide whether it applies.
    ConditionCheckFailed,
    /// The second factor could not generate a code.
    GenerateCodeFailed,
    /// A provider or storage failure; the message is for the server side only.
    UnknownError(String),
}

/// The HTTP status that goes with an error.
pub open spec fn status_of(e: AuthError) -> u16 {
    match e {
        AuthError::AuthenticationFailure => 401,
        AuthError::InvalidCode => 400,
        _ => 500,
    }
}

impl AuthError {
    /// The HTTP status for this error: 401, 400 for a wrong code, else 500.
    pub fn status_code(&self) -> (r: u16)
        ensures
            r == status_of(*self),
    {
        match self {
            AuthError::AuthenticationFailure => 401,
            AuthError::InvalidCode => 400,
            _ => 500,
        }
    }

    /// The error a failed code check is reported with.
    pub fn from_check_code_error(e: CheckCodeError) -> (r: AuthError)
        ensures
            e is InvalidCode ==> r is InvalidCode,
            e is UnknownError ==> r == AuthError::UnknownError(e->UnknownError_0),
    {
        match e {
            CheckCodeError::InvalidCode => AuthError::InvalidCode,
            CheckCodeError::UnknownError(m) => AuthError::UnknownError(m),
        }
    }

    /// The error kind, as shown to the client in an error body.
    pub fn kind(&self) -> (r: &'static str)
        ensures
            r@ == error_kind(*self),
    {
        match self {
            AuthError::AuthenticationFailure => "authentication_failure",
            AuthError::InvalidCode => "invalid_code",
            AuthError::ConditionCheckFailed => "condition_check_failed",
            AuthError::GenerateCodeFailed => "generate_code_failed",
            AuthError::UnknownError(_) => "unknown_error",
        }
    }
}

/// The error kind shown to clients: the message of an unknown error is never among it.
pub open spec fn error_kind(e: AuthError) -> Seq<char> {
    match e {
        AuthError::AuthenticationFailure => "authentication_failure"@,
        AuthError::InvalidCode => "invalid_code"@,
        AuthError::ConditionCheckFailed => "condition_check_failed"@,
        AuthError::GenerateCodeFailed => "generate_code_failed"@,
        AuthError::UnknownError(_) => "unknown_error"@,
    }
}

} // verus!
