//! The library's error type.

use vstd::prelude::*;
use crate::text::{chars_of, concat, string_of};

verus! {

/// What went wrong, by kind.
#[derive(Debug, Clone, PartialEq, Eq)]
pub enum AppError {
    /// Configuration is missing or invalid.
    Config(String),
    /// A filesystem operation failed.
    Io(String),
    /// A response had an unexpected shape.
    Parse(String),
    /// A request timed out, or the server answered 408.
    Timeout(String),
    /// The sign-in page holds no form with a login-identifier field.
    NoSignInForm,
    /// The sign-in form was found but no CSRF token anywhere.
    NoCsrfToken,
    /// Any other failure, with its message.
    Generic(String),
}

impl AppError {
    /// The text that describes the error.
    pub open spec fn message_spec(&self) -> Seq<char> {
        match self {
            AppError::Config(m) => "Configuration error: "@ + m@,
            AppError::Io(m) => "IO error: "@ + m@,
            AppError::Parse(m) => "Parse error: "@ + m@,
            AppError::Timeout(m) => m@,
            AppError::NoSignInForm => "Parse error: Could not find sign-in form in page"@,
            AppError::NoCsrfToken => "Parse error: Could not find CSRF token in sign-in form"@,
            AppError::Generic(m) => m@,
        }
    }

    /// The text that describes the error.
    pub fn message(&self) -> (r: String)
        ensures
            r@ == self.message_spec(),
    {
        match self {
            AppError::Config(m) => prefixed("Configuration error: ", m),
            AppError::Io(m) => prefixed("IO error: ", m),
            AppError::Parse(m) => prefixed("Parse error: ", m),
            AppError::Timeout(m) => m.clone(),
            AppError::NoSignInForm => String::from_str(
                "Parse error: Could not find sign-in form in page",
            ),
            AppError::NoCsrfToken => String::from_str(
                "Parse error: Could not find CSRF token in sign-in form",
            ),
            AppError::Generic(m) => m.clone(),
        }
    }
}

/// `head` followed by `tail`.
fn prefixed(head: &str, tail: &String) -> (r: String)
    ensures
        r@ == head@ + tail@,
{
    let a = chars_of(head);
    let b = chars_of(tail.as_str());
    string_of(&concat(&a, &b))
}

/// A generic error with the given message.
pub fn generic_error(message: &str) -> (r: AppError)
    ensures
        r matches AppError::Generic(m) && m@ == message@,
{
    AppError::Generic(String::from_str(message))
}

} // verus!
