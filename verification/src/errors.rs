//! The one error type of the library and the text it is shown as.

use vstd::prelude::*;

verus! {

/// What went wrong, with a message for people.
#[derive(Debug)]
pub enum AppError {
    Validation { message: String },
    NotFound { message: String },
    Conflict { message: String },
    Persistence { message: String },
}

/// The error type that the domain layer returns.
pub type DomainError = AppError;

impl AppError {
    /// The message carried by the error, whatever its kind.
    pub open spec fn message_view(&self) -> Seq<char> {
        match self {
            AppError::Validation { message } => message@,
            AppError::NotFound { message } => message@,
            AppError::Conflict { message } => message@,
            AppError::Persistence { message } => message@,
        }
    }

    /// The text the error is shown as: a prefix naming its kind, then the message.
    pub open spec fn display_view(&self) -> Seq<char> {
        match self {
            AppError::Validation { message } => "validation error: "@ + message@,
            AppError::NotFound { message } => "not found: "@ + message@,
            AppError::Conflict { message } => "conflict: "@ + message@,
            AppError::Persistence { message } => "persistence error: "@ + message@,
        }
    }

    /// The text the error is shown as, such as `validation error: boom`.
    pub fn to_string(&self) -> (s: String)
        ensures
            s@ == self.display_view(),
    {
        match self {
            AppError::Validation { message } => String::from_str("validation error: ").concat(message.as_str()),
            AppError::NotFound { message } => String::from_str("not found: ").concat(message.as_str()),
            AppError::Conflict { message } => String::from_str("conflict: ").concat(message.as_str()),
            AppError::Persistence { message } => String::from_str("persistence error: ").concat(message.as_str()),
        }
    }
}

impl Clone for AppError {
    fn clone(&self) -> (r: Self)
        ensures
            r == *self,
    {
        match self {
            AppError::Validation { message } => AppError::Validation { message: message.clone() },
            AppError::NotFound { message } => AppError::NotFound { message: message.clone() },
            AppError::Conflict { message } => AppError::Conflict { message: message.clone() },
            AppError::Persistence { message } => AppError::Persistence { message: message.clone() },
        }
    }
}

} // verus!
