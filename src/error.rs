use vstd::prelude::*;

verus! {

/// Why a request is refused. Each kind has one fixed status and message.
#[derive(Debug)]
pub enum AccessError {
    /// No `Authorization` header with the `Bearer ` scheme.
    MissingCredential,
    /// A bad signature, an expired token, or a subject with no account.
    InvalidCredential,
    /// An unknown login identifier or a wrong password.
    BadLogin,
    /// The principal's role does not pass an authorization stage.
    InsufficientRole,
    /// Acceptance of an owner who is already accepted.
    AlreadyAccepted,
    /// Blocking of an owner who is not accepted.
    AlreadyBlocked,
    /// Registration under an identifier that already holds the role.
    AlreadyRegistered(String),
    /// The target of a status change does not exist or is not an owner.
    TargetNotFound,
    /// The token could not be signed, or a store operation failed.
    UpstreamFailure,
}

pub open spec fn status_of(e: AccessError) -> u16 {
    match e {
        AccessError::MissingCredential => 401,
        AccessError::InvalidCredential => 401,
        AccessError::BadLogin => 401,
        AccessError::InsufficientRole => 403,
        AccessError::AlreadyAccepted => 409,
        AccessError::AlreadyBlocked => 409,
        AccessError::AlreadyRegistered(_) => 409,
        AccessError::TargetNotFound => 404,
        AccessError::UpstreamFailure => 500,
    }
}

pub open spec fn message_of(e: AccessError) -> Seq<char> {
    match e {
        AccessError::MissingCredential => "Unauthorized! Missing token."@,
        AccessError::InvalidCredential => "Unauthorized! Invalid token."@,
        AccessError::BadLogin => "Unauthorized!"@,
        AccessError::InsufficientRole => "Forbidden resources!"@,
        AccessError::AlreadyAccepted => "Already accepted!"@,
        AccessError::AlreadyBlocked => "Already blocked!"@,
        AccessError::AlreadyRegistered(id) => id@ + " already exist!"@,
        AccessError::TargetNotFound => "User not found!"@,
        AccessError::UpstreamFailure => "Something went wrong!"@,
    }
}

impl AccessError {
    /// The HTTP status that answers this refusal.
    pub fn status_code(&self) -> (r: u16)
        ensures
            r == status_of(*self),
    {
        match self {
            AccessError::MissingCredential => 401,
            AccessError::InvalidCredential => 401,
            AccessError::BadLogin => 401,
            AccessError::InsufficientRole => 403,
            AccessError::AlreadyAccepted => 409,
            AccessError::AlreadyBlocked => 409,
            AccessError::AlreadyRegistered(_) => 409,
            AccessError::TargetNotFound => 404,
            AccessError::UpstreamFailure => 500,
        }
    }

    /// The human-readable message that answers this refusal.
    pub fn message(&self) -> (r: String)
        ensures
            r@ == message_of(*self),
    {
        match self {
            AccessError::MissingCredential => String::from_str("Unauthorized! Missing token."),
            AccessError::InvalidCredential => String::from_str("Unauthorized! Invalid token."),
            AccessError::BadLogin => String::from_str("Unauthorized!"),
            AccessError::InsufficientRole => String::from_str("Forbidden resources!"),
            AccessError::AlreadyAccepted => String::from_str("Already accepted!"),
            AccessError::AlreadyBlocked => String::from_str("Already blocked!"),
            AccessError::AlreadyRegistered(id) => id.clone().concat(" already exist!"),
            AccessError::TargetNotFound => String::from_str("User not found!"),
            AccessError::UpstreamFailure => String::from_str("Something went wrong!"),
        }
    }
}

/// What a handler answers: a status with a value, or a status with a message.
pub enum AppResult<T> {
    Result(u16, T),
    Error(u16, String),
}

/// Turns an outcome into an answer: `status` with the value on success, the
/// refusal's own status and message otherwise.
pub fn respond<T>(outcome: Result<T, AccessError>, status: u16) -> (r: AppResult<T>)
    ensures
        match outcome {
            Ok(v) => r == AppResult::Result(status, v),
            Err(e) => r matches AppResult::Error(code, msg) && code == status_of(e) && msg@
                == message_of(e),
        },
{
    match outcome {
        Ok(v) => AppResult::Result(status, v),
        Err(e) => AppResult::Error(e.status_code(), e.message()),
    }
}

} // verus!
