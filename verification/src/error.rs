//! The error type shared by every operation, and its user-facing shape.

use vstd::prelude::*;

verus! {

/// Every failure the backend can report. Each kind carries the text that is
/// shown to the user.
#[derive(Debug, Clone, PartialEq, Eq)]
pub enum AppError {
    /// Database failure.
    Db(String),
    /// File-system or other I/O failure.
    Io(String),
    /// Serialization or deserialization failure raised by this backend.
    Serde(String),
    /// A business rule was violated or a configuration value is missing.
    Message(String),
    /// The HTTP client failed; the payload is the client's own description.
    Reqwest(String),
    /// The JSON codec failed; the payload is the codec's own description.
    SerdeJson(String),
    /// The platform credential store failed.
    Keyring(String),
    /// Encryption, decryption or key decoding failed.
    Crypto(String),
}

/// What the user interface receives for any error: `{ message }`.
#[derive(Debug, Clone, PartialEq, Eq)]
pub struct ErrorPayload {
    pub message: String,
}

/// The mathematical content of an [`AppError`]: its kind and its text.
pub enum ErrorView {
    Db(Seq<char>),
    Io(Seq<char>),
    Serde(Seq<char>),
    Message(Seq<char>),
    Reqwest(Seq<char>),
    SerdeJson(Seq<char>),
    Keyring(Seq<char>),
    Crypto(Seq<char>),
}

impl View for AppError {
    type V = ErrorView;

    open spec fn view(&self) -> ErrorView {
        match *self {
            AppError::Db(s) => ErrorView::Db(s@),
            AppError::Io(s) => ErrorView::Io(s@),
            AppError::Serde(s) => ErrorView::Serde(s@),
            AppError::Message(s) => ErrorView::Message(s@),
            AppError::Reqwest(s) => ErrorView::Reqwest(s@),
            AppError::SerdeJson(s) => ErrorView::SerdeJson(s@),
            AppError::Keyring(s) => ErrorView::Keyring(s@),
            AppError::Crypto(s) => ErrorView::Crypto(s@),
        }
    }
}

impl AppError {
    /// The text carried by the error, whatever its kind.
    pub open spec fn text(self) -> Seq<char> {
        match self {
            AppError::Db(s) => s@,
            AppError::Io(s) => s@,
            AppError::Serde(s) => s@,
            AppError::Message(s) => s@,
            AppError::Reqwest(s) => s@,
            AppError::SerdeJson(s) => s@,
            AppError::Keyring(s) => s@,
            AppError::Crypto(s) => s@,
        }
    }

    /// Builds a business error from a message.
    pub fn msg(msg: &str) -> (e: AppError)
        ensures
            e@ == ErrorView::Message(msg@),
    {
        AppError::Message(msg.to_owned())
    }

    /// The text carried by the error, as an owned string.
    pub fn message(&self) -> (m: String)
        ensures
            m@ == self.text(),
    {
        match self {
            AppError::Db(s) => s.clone(),
            AppError::Io(s) => s.clone(),
            AppError::Serde(s) => s.clone(),
            AppError::Message(s) => s.clone(),
            AppError::Reqwest(s) => s.clone(),
            AppError::SerdeJson(s) => s.clone(),
            AppError::Keyring(s) => s.clone(),
            AppError::Crypto(s) => s.clone(),
        }
    }

    /// Converts the error to the single shape exposed to the user interface.
    pub fn to_payload(&self) -> (p: ErrorPayload)
        ensures
            p.message@ == self.text(),
    {
        ErrorPayload { message: self.message() }
    }
}

} // verus!
