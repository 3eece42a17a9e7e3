//! The messages roseate notifies the user with.
use vstd::prelude::*;
use vstd::std_specs::convert::FromSpecImpl;
use crate::error::{Error, is_displayable, error_message, actual_error_of};
use crate::text::{join_lines, join_with_newlines, texts};

verus! {

/// What the status bar shows while something is loading.
pub struct Loading {
    pub message: Option<String>,
}

impl Default for Loading {
    fn default() -> (loading: Self)
        ensures
            loading.message is None,
    {
        Self { message: None }
    }
}

impl Clone for Loading {
    fn clone(&self) -> (copy: Self)
        ensures
            copy == *self,
    {
        Self { message: self.message.clone() }
    }
}

/// A notification's content: either an error, or a plain message.
pub enum StringOrError {
    Error(Error),
    String(String),
}

impl From<Error> for StringOrError {
    fn from(error: Error) -> (content: Self) {
        StringOrError::Error(error)
    }
}

impl FromSpecImpl<Error> for StringOrError {
    open spec fn obeys_from_spec() -> bool {
        true
    }

    open spec fn from_spec(error: Error) -> Self {
        StringOrError::Error(error)
    }
}

impl From<String> for StringOrError {
    fn from(message: String) -> (content: Self) {
        StringOrError::String(message)
    }
}

impl FromSpecImpl<String> for StringOrError {
    open spec fn obeys_from_spec() -> bool {
        true
    }

    open spec fn from_spec(message: String) -> Self {
        StringOrError::String(message)
    }
}

/// Whether a notification's content can be shown: a plain message always can,
/// an error when it has a message.
pub open spec fn is_showable(content: StringOrError) -> bool {
    match content {
        StringOrError::Error(error) => is_displayable(error),
        StringOrError::String(_) => true,
    }
}

/// The message a notification shows.
pub open spec fn content_message(content: StringOrError) -> Seq<char> {
    match content {
        StringOrError::Error(error) => error_message(error),
        StringOrError::String(message) => message@,
    }
}

/// The full detail of a notification: an error's underlying error (empty when it
/// has none), or the plain message itself.
pub open spec fn content_detail(content: StringOrError) -> Seq<char> {
    match content {
        StringOrError::Error(error) => match actual_error_of(error) {
            Some(actual) => actual@,
            None => Seq::empty(),
        },
        StringOrError::String(message) => message@,
    }
}

/// How `textwrap::wrap` breaks `text` into lines of at most `width` columns.
pub uninterp spec fn wrapped_lines(text: Seq<char>, width: usize) -> Seq<Seq<char>>;

/// `textwrap::wrap(text, width)`, each line made an owned `String`. Its result is named
/// `wrapped_lines`; textwrap's line breaking is not written out here.
#[verifier::external_body]
fn wrap_text(text: &str, width: usize) -> (lines: Vec<String>)
    ensures
        texts(lines@) == wrapped_lines(text@, width),
{
    textwrap::wrap(text, width).into_iter().map(|line| line.into_owned()).collect()
}

/// The width, in columns, that notification text is wrapped to.
pub const TOAST_TEXT_WIDTH: usize = 75;

/// The text a notification shows: its message wrapped to 75 columns.
pub open spec fn toast_text_of(content: StringOrError) -> Seq<char> {
    join_lines(wrapped_lines(content_message(content), TOAST_TEXT_WIDTH))
}

impl StringOrError {
    /// The message the notification shows.
    pub fn message(&self) -> (message: String)
        requires
            is_showable(*self),
        ensures
            message@ == content_message(*self),
    {
        match self {
            StringOrError::Error(error) => error.human_message(),
            StringOrError::String(message) => message.clone(),
        }
    }

    /// The full detail of the notification, which goes to the log.
    pub fn full_error_message(&self) -> (detail: String)
        ensures
            detail@ == content_detail(*self),
    {
        match self {
            StringOrError::Error(error) => match error.actual_error() {
                Some(actual) => actual,
                None => String::new(),
            },
            StringOrError::String(message) => message.clone(),
        }
    }

    /// The text the notification shows: its message wrapped to 75 columns.
    pub fn toast_text(&self) -> (text: String)
        requires
            is_showable(*self),
        ensures
            text@ == toast_text_of(*self),
    {
        let message = self.message();
        let lines = wrap_text(message.as_str(), TOAST_TEXT_WIDTH);
        join_with_newlines(&lines)
    }

    /// The line logged for the notification: its message followed by its full detail.
    pub fn log_text(&self) -> (text: String)
        requires
            is_showable(*self),
        ensures
            text@ == content_message(*self) + " Additional Detail: "@ + content_detail(*self),
    {
        let mut text = self.message();
        text.append(" Additional Detail: ");
        text.append(self.full_error_message().as_str());
        text
    }

    /// The text the notification shows, or `None` for an error that has no message
    /// to show.
    pub fn checked_toast_text(&self) -> (text: Option<String>)
        ensures
            text is Some <==> is_showable(*self),
            text matches Some(t) ==> t@ == toast_text_of(*self),
    {
        if let StringOrError::Error(error) = self {
            if error.checked_human_message().is_none() {
                return None;
            }
        }
        Some(self.toast_text())
    }
}

} // verus!
