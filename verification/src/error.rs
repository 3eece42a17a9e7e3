//! The errors roseate reports to the user.
//!
//! A path inside an error is held as the text it is shown with.
use vstd::prelude::*;

verus! {

/// The underlying error's own message, when there was one.
pub type ActualError = Option<String>;

#[derive(Debug, Clone)]
pub enum Error {
    /// The path, then a detail added to the message.
    FileNotFound(ActualError, String, String),
    NoFileSelected(ActualError),
    /// The technical reason the optimizations failed.
    FailedToApplyOptimizations(ActualError, String),
    /// The path, then the reason.
    FailedToInitImage(ActualError, String, String),
    /// User friendly reason why the image didn't load.
    FailedToLoadImage(ActualError, String),
    FailedToLoadTexture(ActualError),
    /// Technical reason why the image failed to convert to pixels.
    FailedToConvertImageToPixels(ActualError, String),
    ImageFormatNotSupported(ActualError, String),
    MonitorNotFound(ActualError),
    FailedToEncodeImage(ActualError, String),
    FailedToDecodeImage(ActualError, String),
    /// The name of the directory that was not found.
    OSDirNotFound(ActualError, String),
    /// The path that failed to be created.
    FailedToCreatePath(ActualError, String),
    /// The path to the file that failed to open.
    FailedToOpenFile(ActualError, String),
}

pub type Result<T> = core::result::Result<T, Error>;

/// The last component of a path, as `std::path::Path::file_name` finds it
/// (`None` for a path that ends in `..`, for the root and for the empty path).
pub uninterp spec fn path_file_name(path: Seq<char>) -> Option<Seq<char>>;

/// `Path::new(path).file_name()`, converted to a `String`.
/// The name `path_file_name` stands for its result; how `std` splits a path is
/// not written out here.
#[verifier::external_body]
fn file_name_of(path: &str) -> (name: Option<String>)
    ensures
        name matches Some(n) ==> path_file_name(path@) == Some(n@),
        name is None ==> path_file_name(path@) is None,
{
    std::path::Path::new(path).file_name().map(|name| name.to_string_lossy().into_owned())
}

/// The underlying error carried by each variant.
pub open spec fn actual_error_of(error: Error) -> ActualError {
    match error {
        Error::FileNotFound(actual, _, _) => actual,
        Error::NoFileSelected(actual) => actual,
        Error::FailedToApplyOptimizations(actual, _) => actual,
        Error::FailedToInitImage(actual, _, _) => actual,
        Error::FailedToLoadImage(actual, _) => actual,
        Error::FailedToLoadTexture(actual) => actual,
        Error::FailedToConvertImageToPixels(actual, _) => actual,
        Error::ImageFormatNotSupported(actual, _) => actual,
        Error::MonitorNotFound(actual) => actual,
        Error::FailedToEncodeImage(actual, _) => actual,
        Error::FailedToDecodeImage(actual, _) => actual,
        Error::OSDirNotFound(actual, _) => actual,
        Error::FailedToCreatePath(actual, _) => actual,
        Error::FailedToOpenFile(actual, _) => actual,
    }
}

/// An error can be shown unless it is about initializing an image whose path
/// has no file name to show.
pub open spec fn is_displayable(error: Error) -> bool {
    match error {
        Error::FailedToInitImage(_, path, _) => path_file_name(path@) is Some,
        _ => true,
    }
}

/// The message an error is shown to the user with.
pub open spec fn error_message(error: Error) -> Seq<char> {
    match error {
        Error::FileNotFound(_, path, detail) =>
            "The file path given '"@ + path@ + "' does not exist! "@ + detail@,
        Error::NoFileSelected(_) => "No file was selected in the file dialogue!"@,
        Error::FailedToApplyOptimizations(_, reason) =>
            "Failed to apply optimizations to this image! Roseate will run slower than usual and use a lot more memory possibly leading to system crashes. BEWARE! \n\nTechnical Reason: "@
                + reason@,
        Error::FailedToInitImage(_, path, reason) =>
            "Failed to initialize the image ("@ + path_file_name(path@)->0 + ")! Reason: "@
                + reason@,
        Error::FailedToLoadImage(_, reason) =>
            "Failed to load that image! The image might be corrupted. Reason: "@ + reason@,
        Error::FailedToLoadTexture(_) =>
            "Egui failed to load image texture! Possible image corruption."@,
        Error::FailedToConvertImageToPixels(_, reason) =>
            "Failed to transform image to pixels! The image may be corrupted. Technical Reason: "@
                + reason@,
        Error::ImageFormatNotSupported(_, format) =>
            "The image format '"@ + format@ + "' is not supported!"@,
        Error::MonitorNotFound(_) => "For some reason we couldn't detect your monitor."@,
        Error::FailedToEncodeImage(_, reason) =>
            "Image failed to encode! \n\nTechnical Reason: "@ + reason@,
        Error::FailedToDecodeImage(_, reason) =>
            "Image failed to decode! \n\nTechnical Reason: "@ + reason@,
        Error::OSDirNotFound(_, directory) =>
            "No '"@ + directory@
                + "' directory was found for your Operating System!? This should not happen, please report this!"@,
        Error::FailedToCreatePath(_, path) => "Failed to create path at '"@ + path@ + "'!"@,
        Error::FailedToOpenFile(_, path) => "Failed to open file at '"@ + path@ + "'!"@,
    }
}

/// `first@ + middle@ + last@` as a new `String`.
fn surround(first: &str, middle: &str, last: &str) -> (text: String)
    ensures
        text@ == first@ + middle@ + last@,
{
    let mut text = String::from_str(first);
    text.append(middle);
    text.append(last);
    text
}

/// `first@ + middle@` as a new `String`.
fn prefix(first: &str, middle: &str) -> (text: String)
    ensures
        text@ == first@ + middle@,
{
    let mut text = String::from_str(first);
    text.append(middle);
    text
}

impl Error {
    /// The underlying error's own message, when there was one.
    pub fn actual_error(&self) -> (actual: Option<String>)
        ensures
            actual == actual_error_of(*self),
    {
        match self {
            Error::FileNotFound(actual, _, _) => actual.clone(),
            Error::NoFileSelected(actual) => actual.clone(),
            Error::FailedToApplyOptimizations(actual, _) => actual.clone(),
            Error::FailedToInitImage(actual, _, _) => actual.clone(),
            Error::FailedToLoadImage(actual, _) => actual.clone(),
            Error::FailedToLoadTexture(actual) => actual.clone(),
            Error::FailedToConvertImageToPixels(actual, _) => actual.clone(),
            Error::ImageFormatNotSupported(actual, _) => actual.clone(),
            Error::MonitorNotFound(actual) => actual.clone(),
            Error::FailedToEncodeImage(actual, _) => actual.clone(),
            Error::FailedToDecodeImage(actual, _) => actual.clone(),
            Error::OSDirNotFound(actual, _) => actual.clone(),
            Error::FailedToCreatePath(actual, _) => actual.clone(),
            Error::FailedToOpenFile(actual, _) => actual.clone(),
        }
    }

    /// The message the error is shown to the user with.
    pub fn human_message(&self) -> (message: String)
        requires
            is_displayable(*self),
        ensures
            message@ == error_message(*self),
    {
        match self {
            Error::FileNotFound(_, path, detail) => {
                let mut text = surround("The file path given '", path.as_str(), "' does not exist! ");
                text.append(detail.as_str());
                text
            },
            Error::NoFileSelected(_) => String::from_str("No file was selected in the file dialogue!"),
            Error::FailedToApplyOptimizations(_, reason) => prefix(
                "Failed to apply optimizations to this image! Roseate will run slower than usual and use a lot more memory possibly leading to system crashes. BEWARE! \n\nTechnical Reason: ",
                reason.as_str(),
            ),
            Error::FailedToInitImage(_, path, reason) => {
                let name = file_name_of(path.as_str());
                let name = match name {
                    Some(name) => name,
                    None => { proof { assert(false); } String::new() },
                };
                let mut text = surround("Failed to initialize the image (", name.as_str(), ")! Reason: ");
                text.append(reason.as_str());
                text
            },
            Error::FailedToLoadImage(_, reason) => prefix(
                "Failed to load that image! The image might be corrupted. Reason: ",
                reason.as_str(),
            ),
            Error::FailedToLoadTexture(_) => String::from_str(
                "Egui failed to load image texture! Possible image corruption.",
            ),
            Error::FailedToConvertImageToPixels(_, reason) => prefix(
                "Failed to transform image to pixels! The image may be corrupted. Technical Reason: ",
                reason.as_str(),
            ),
            Error::ImageFormatNotSupported(_, format) => surround(
                "The image format '",
                format.as_str(),
                "' is not supported!",
            ),
            Error::MonitorNotFound(_) => String::from_str(
                "For some reason we couldn't detect your monitor.",
            ),
            Error::FailedToEncodeImage(_, reason) => prefix(
                "Image failed to encode! \n\nTechnical Reason: ",
                reason.as_str(),
            ),
            Error::FailedToDecodeImage(_, reason) => prefix(
                "Image failed to decode! \n\nTechnical Reason: ",
                reason.as_str(),
            ),
            Error::OSDirNotFound(_, directory) => surround(
                "No '",
                directory.as_str(),
                "' directory was found for your Operating System!? This should not happen, please report this!",
            ),
            Error::FailedToCreatePath(_, path) => surround(
                "Failed to create path at '",
                path.as_str(),
                "'!",
            ),
            Error::FailedToOpenFile(_, path) => surround("Failed to open file at '", path.as_str(), "'!"),
        }
    }

    /// The message the error is shown with, or `None` for an error about initializing
    /// an image whose path has no file name, which has no message to show.
    pub fn checked_human_message(&self) -> (message: Option<String>)
        ensures
            message is Some <==> is_displayable(*self),
            message matches Some(m) ==> m@ == error_message(*self),
    {
        if let Error::FailedToInitImage(_, path, _) = self {
            if file_name_of(path.as_str()).is_none() {
                return None;
            }
        }
        Some(self.human_message())
    }
}

} // verus!
