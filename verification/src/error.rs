use vstd::prelude::*;
use vstd::string::StringExecFns;

verus! {

/// What can go wrong in the library.
#[derive(Debug, Clone, PartialEq, Eq)]
pub enum Error {
    /// No frame has been captured yet, or none arrived in time.
    FrameUnavailable,
    /// The capture surface could not be opened.
    CaptureInitFailed,
    /// The frame's buffer is shorter than its dimensions demand, or a
    /// dimension does not fit a signed coordinate.
    InvalidFrame,
    /// The region's corners span nothing, or the template does not fit the
    /// search region.
    InvalidRegion,
    /// Image data that cannot be written or read as a PNG in base64.
    InvalidImage,
    /// A colour is not written as `#` and six hexadecimal digits.
    InvalidColor,
    /// The score surface does not have the shape that the searched region and
    /// the template give.
    InvalidScores,
    /// A threshold of zero: every position would pass it, blanked ones too.
    InvalidThreshold,
    /// The port is taken and whatever holds it does not answer the probe.
    PortConflict,
    /// The message is not JSON, or lacks the `method` field; holds what is
    /// told to the client.
    ProtocolParseError(String),
    /// The method is not in the table; holds the name that was asked for.
    UnsupportedMethod(String),
    /// A required argument is absent; holds its key.
    MissingArgument(String),
    /// An argument is present but has the wrong form; holds its key.
    InvalidArgument(String),
    /// No project is open.
    ProjectNotFound,
    /// A port of zero.
    InvalidPort,
    /// What is set once has been set before.
    AlreadyInitialized,
    /// No interpreter is known for the language; holds the language, in lower
    /// case.
    UnsupportedInterpreter(String),
    /// The key is not one that can be pressed; holds the name asked for.
    UnsupportedKey(String),
    /// The platform's key stands for no key of the library.
    UnsupportedSystemKey,
    /// The key has no name under which a script could ask for it.
    UnnamedKey,
    /// A mouse button that scripts cannot press.
    UnsupportedButton,
    /// A handler failed; holds the underlying message.
    HandlerFailure(String),
    /// The text recogniser could not load its models.
    OcrInitFailure,
}

/// What an error says of itself.
pub open spec fn error_text(error: Error) -> Seq<char> {
    match error {
        Error::FrameUnavailable => "Frame is not found."@,
        Error::CaptureInitFailed => "Failed to open the capture surface."@,
        Error::InvalidFrame => "Failed to convert frame to buffer."@,
        Error::InvalidRegion => "The template size exceeds the cropped frame size."@,
        Error::InvalidImage => "Failed to convert the image."@,
        Error::InvalidColor => "The color is not supported."@,
        Error::InvalidScores => "The score surface does not fit the region."@,
        Error::InvalidThreshold => "The threshold must be greater than zero."@,
        Error::PortConflict => "Failed to bind and probe WebSocket service."@,
        Error::ProtocolParseError(detail) => detail@,
        Error::UnsupportedMethod(name) => "Unsupported method '"@ + name@ + "'"@,
        Error::MissingArgument(key) => "WebSocket argument is missing: "@ + key@,
        Error::InvalidArgument(key) => "Failed to deserialize argument: "@ + key@,
        Error::ProjectNotFound => "Project not found"@,
        Error::InvalidPort => "WebSocket port must be greater than 0."@,
        Error::AlreadyInitialized => "Failed to init resource dir"@,
        Error::UnsupportedInterpreter(language) => "The interpreter is not supported: "@
            + language@,
        Error::UnsupportedKey(name) => "The key is not supported: "@ + name@,
        Error::UnsupportedSystemKey => "The key is not supported."@,
        Error::UnnamedKey => "The key has no name."@,
        Error::UnsupportedButton => "Unsupported button action."@,
        Error::HandlerFailure(detail) => detail@,
        Error::OcrInitFailure => "Failed to initialize OCR models from memory."@,
    }
}

impl Error {
    /// What the error says of itself.
    pub fn message(&self) -> (text: String)
        ensures
            text@ == error_text(*self),
    {
        match self {
            Error::FrameUnavailable => String::from_str("Frame is not found."),
            Error::CaptureInitFailed => String::from_str("Failed to open the capture surface."),
            Error::InvalidFrame => String::from_str("Failed to convert frame to buffer."),
            Error::InvalidRegion => String::from_str(
                "The template size exceeds the cropped frame size.",
            ),
            Error::InvalidImage => String::from_str("Failed to convert the image."),
            Error::InvalidColor => String::from_str("The color is not supported."),
            Error::InvalidScores => String::from_str("The score surface does not fit the region."),
            Error::InvalidThreshold => String::from_str("The threshold must be greater than zero."),
            Error::PortConflict => String::from_str("Failed to bind and probe WebSocket service."),
            Error::ProtocolParseError(detail) => detail.clone(),
            Error::UnsupportedMethod(name) => String::from_str("Unsupported method '").concat(
                name.as_str(),
            ).concat("'"),
            Error::MissingArgument(key) => String::from_str(
                "WebSocket argument is missing: ",
            ).concat(key.as_str()),
            Error::InvalidArgument(key) => String::from_str(
                "Failed to deserialize argument: ",
            ).concat(key.as_str()),
            Error::ProjectNotFound => String::from_str("Project not found"),
            Error::InvalidPort => String::from_str("WebSocket port must be greater than 0."),
            Error::AlreadyInitialized => String::from_str("Failed to init resource dir"),
            Error::UnsupportedInterpreter(language) => String::from_str(
                "The interpreter is not supported: ",
            ).concat(language.as_str()),
            Error::UnsupportedKey(name) => String::from_str("The key is not supported: ").concat(
                name.as_str(),
            ),
            Error::UnsupportedSystemKey => String::from_str("The key is not supported."),
            Error::UnnamedKey => String::from_str("The key has no name."),
            Error::UnsupportedButton => String::from_str("Unsupported button action."),
            Error::HandlerFailure(detail) => detail.clone(),
            Error::OcrInitFailure => String::from_str(
                "Failed to initialize OCR models from memory.",
            ),
        }
    }
}

} // verus!
