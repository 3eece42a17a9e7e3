//! Notification content as the first generation of the toasts manager takes it.
use vstd::prelude::*;
use vstd::std_specs::convert::FromSpecImpl;
use crate::error::{Error, is_displayable, error_message};

verus! {

/// A notification's content. Errors are turned into their message as soon as they
/// become notification content.
pub enum StringOrError {
    Error(Error),
    String(String),
}

impl From<String> for StringOrError {
    fn from(message: String) -> (content: Self) {
        StringOrError::String(message)
    }
}

impl FromSpecImpl<String> for StringOrError {
    open spec fn obeys_from_spec() -> bool {
        true
    }

    open spec fn from_spec(message: String) -> Self {
        StringOrError::String(message)
    }
}

impl StringOrError {
    /// The content an error becomes: its message, as a plain message.
    pub fn from_error(error: &Error) -> (content: Self)
        requires
            is_displayable(*error),
        ensures
            content matches StringOrError::String(message) && message@ == error_message(*error),
    {
        StringOrError::String(error.human_message())
    }

    /// The message the notification shows.
    pub fn message(&self) -> (message: String)
        requires
            match *self {
                StringOrError::Error(error) => is_displayable(error),
                StringOrError::String(_) => true,
            },
        ensures
            message@ == match *self {
                StringOrError::Error(error) => error_message(error),
                StringOrError::String(text) => text@,
            },
    {
        match self {
            StringOrError::Error(error) => error.human_message(),
            StringOrError::String(message) => message.clone(),
        }
    }
}

} // verus!
