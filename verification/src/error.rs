//! The errors of the bridge.
//!
//! Every failure carries a tag that says which rule was broken, a description
//! for a human reader and, where another error caused it, the description of
//! that cause.

use crate::text::{decimal_text, push_decimal};
use vstd::prelude::*;
use vstd::string::*;

verus! {

/// A request body that could not be taken as a batch of updates.
#[derive(Clone, Copy, Debug, PartialEq, Eq, Structural)]
pub enum ProtocolError {
    /// The body is longer than the limit.
    BodyTooLarge,
    /// The body is not a JSON array of updates.
    MalformedBody,
}

/// An update that the controller cannot carry out. Each variant holds the
/// value that was refused.
#[derive(Clone, Copy, Debug, PartialEq, Eq, Structural)]
pub enum ValidationError {
    /// The strip index is above the last strip.
    StripOutOfRange(usize),
    /// The pixel index is above the last pixel.
    PixelOutOfRange(usize),
    /// The white channel is not zero.
    UnsupportedWhiteChannel(u8),
}

/// What went wrong.
#[derive(Clone, Copy, Debug, PartialEq, Eq, Structural)]
pub enum ErrorKind {
    /// The request body was refused.
    Protocol(ProtocolError),
    /// An update was refused.
    Validation(ValidationError),
    /// The serial transport failed.
    Io,
    /// The controller did not echo what was sent.
    TransactionMismatch,
}

/// An error of the bridge.
#[derive(Debug, PartialEq, Eq)]
pub struct Error {
    /// What went wrong
    kind: ErrorKind,
    /// The error description
    error: String,
    /// The description of the underlying error
    source: Option<String>,
}

/// An [`Error`] as a mathematical value.
pub struct ErrorView {
    pub kind: ErrorKind,
    pub message: Seq<char>,
    pub source: Option<Seq<char>>,
}

impl View for Error {
    type V = ErrorView;

    closed spec fn view(&self) -> ErrorView {
        ErrorView {
            kind: self.kind,
            message: self.error@,
            source: match self.source {
                Some(text) => Some(text@),
                None => None,
            },
        }
    }
}

impl ValidationError {
    /// The description of the refusal: a fixed sentence with the refused
    /// value in decimal between brackets.
    pub open spec fn description(self) -> Seq<char> {
        match self {
            ValidationError::StripOutOfRange(value) => "LED strip index is too large ("@
                + decimal_text(value as nat) + ")"@,
            ValidationError::PixelOutOfRange(value) => "Pixel index is too large ("@
                + decimal_text(value as nat) + ")"@,
            ValidationError::UnsupportedWhiteChannel(value) => "Unsupported white value in RGBW ("@
                + decimal_text(value as nat) + ")"@,
        }
    }

    /// The error that reports this refusal.
    pub open spec fn error(self) -> ErrorView {
        ErrorView { kind: ErrorKind::Validation(self), message: self.description(), source: None }
    }

    /// Builds the error that reports this refusal.
    pub fn into_error(self) -> (error: Error)
        ensures
            error@ == self.error(),
    {
        let mut text = String::new();
        match self {
            ValidationError::StripOutOfRange(value) => {
                text.append("LED strip index is too large (");
                push_decimal(&mut text, value);
            },
            ValidationError::PixelOutOfRange(value) => {
                text.append("Pixel index is too large (");
                push_decimal(&mut text, value);
            },
            ValidationError::UnsupportedWhiteChannel(value) => {
                text.append("Unsupported white value in RGBW (");
                push_decimal(&mut text, value as usize);
            },
        }
        text.append(")");
        assert(text@ =~= self.description());
        Error { kind: ErrorKind::Validation(self), error: text, source: None }
    }
}

/// The error for a request body over the limit.
pub open spec fn body_too_large() -> ErrorView {
    ErrorView {
        kind: ErrorKind::Protocol(ProtocolError::BodyTooLarge),
        message: "Request body is too large"@,
        source: None,
    }
}

/// The error for a request body that the decoder refused with `diagnostic`;
/// the decoder's failure is its cause.
pub open spec fn malformed_body(diagnostic: Seq<char>) -> ErrorView {
    ErrorView {
        kind: ErrorKind::Protocol(ProtocolError::MalformedBody),
        message: diagnostic,
        source: Some(diagnostic),
    }
}

/// The error for an echo that differs from what was sent.
pub open spec fn transaction_mismatch() -> ErrorView {
    ErrorView {
        kind: ErrorKind::TransactionMismatch,
        message: "Transaction failed"@,
        source: None,
    }
}

/// The error for a transport failure that `text` describes; the failure is
/// its own cause.
pub open spec fn io_failure(text: Seq<char>) -> ErrorView {
    ErrorView { kind: ErrorKind::Io, message: text, source: Some(text) }
}

impl Error {
    /// Creates a new error without a cause.
    pub fn new(kind: ErrorKind, error: &str) -> (created: Error)
        ensures
            created@ == (ErrorView { kind, message: error@, source: None }),
    {
        Error { kind, error: error.to_owned(), source: None }
    }

    /// Creates a new error caused by the error that `source` describes.
    pub fn with(kind: ErrorKind, error: &str, source: &str) -> (created: Error)
        ensures
            created@ == (ErrorView { kind, message: error@, source: Some(source@) }),
    {
        Error { kind, error: error.to_owned(), source: Some(source.to_owned()) }
    }

    /// What went wrong.
    pub fn kind(&self) -> (kind: ErrorKind)
        ensures
            kind == self@.kind,
    {
        self.kind
    }

    /// The error description.
    pub fn message(&self) -> (text: &str)
        ensures
            text@ == self@.message,
    {
        self.error.as_str()
    }

    /// The description of the underlying error, if there is one.
    pub fn source(&self) -> (cause: Option<&str>)
        ensures
            match cause {
                Some(text) => self@.source == Some(text@),
                None => self@.source is None,
            },
    {
        match &self.source {
            Some(text) => Some(text.as_str()),
            None => None,
        }
    }

    /// The error as it is shown to a reader: the description on a line of
    /// its own.
    pub fn to_string(&self) -> (shown: String)
        ensures
            shown@ == self@.message + "\n"@,
    {
        let mut shown = self.error.clone();
        shown.append("\n");
        shown
    }
}

/// `std::io::Error`, carried as a value of which nothing is known.
#[verifier::external_type_specification]
#[verifier::external_body]
pub struct ExIoError(std::io::Error);

/// The text that `std::io::Error` shows through `Display`, as `to_string`
/// gives it. Nothing is claimed of the text.
#[verifier::external_body]
fn io_error_text(error: &std::io::Error) -> (text: String) {
    error.to_string()
}

/// The conversion has no value in specifications: the text of the system's
/// error is known only once it is made.
impl vstd::std_specs::convert::FromSpecImpl<std::io::Error> for Error {
    open spec fn obeys_from_spec() -> bool {
        false
    }

    open spec fn from_spec(source: std::io::Error) -> Error {
        arbitrary()
    }
}

impl From<std::io::Error> for Error {
    /// A failure of the operating system's I/O is a transport failure,
    /// described in the system's words.
    fn from(source: std::io::Error) -> (created: Error)
        ensures
            created@ == io_failure(created@.message),
    {
        let text = io_error_text(&source);
        Error::with(ErrorKind::Io, text.as_str(), text.as_str())
    }
}

} // verus!
