//! The errors that end an invocation.

use vstd::prelude::*;
use vstd::string::*;

verus! {

/// Why an invocation failed. Every error is reported to the user and ends the
/// invocation; nothing is retried.
#[derive(Clone, Debug, PartialEq, Eq)]
pub enum TransferError {
    /// The local file is missing or unreadable. The transfer never starts.
    IoError(String),
    /// The delete argument holds no `/`. No request is made.
    InvalidArgument,
    /// The transport failed to upload or delete. Its message is kept verbatim.
    TransportError(String),
    /// The chunk-size override is not a valid size.
    ConfigurationError,
}

/// An error as contracts see it: the same cases, with the messages as
/// sequences of characters.
pub enum ErrorView {
    IoError(Seq<char>),
    InvalidArgument,
    TransportError(Seq<char>),
    ConfigurationError,
}

impl View for TransferError {
    type V = ErrorView;

    open spec fn view(&self) -> ErrorView {
        match *self {
            TransferError::IoError(message) => ErrorView::IoError(message@),
            TransferError::InvalidArgument => ErrorView::InvalidArgument,
            TransferError::TransportError(message) => ErrorView::TransportError(message@),
            TransferError::ConfigurationError => ErrorView::ConfigurationError,
        }
    }
}

/// What the user is told about a malformed delete argument.
pub open spec fn invalid_argument_text() -> Seq<char> {
    "Invalid format for --delete. Use 'file_identifier/deletion_token' (e.g., 'abc123/def456')"@
}

/// What the user is told about a chunk size that is no number.
pub open spec fn configuration_text() -> Seq<char> {
    "The provided chunk size is not a valid integer."@
}

impl ErrorView {
    /// The text shown to the user: the collaborator's own words where it
    /// supplied any, a fixed sentence otherwise.
    pub open spec fn message(self) -> Seq<char> {
        match self {
            ErrorView::IoError(message) => message,
            ErrorView::InvalidArgument => invalid_argument_text(),
            ErrorView::TransportError(message) => message,
            ErrorView::ConfigurationError => configuration_text(),
        }
    }
}

impl TransferError {
    /// The text shown to the user.
    pub fn message(&self) -> (text: String)
        ensures
            text@ == self@.message(),
    {
        match self {
            TransferError::IoError(message) => message.clone(),
            TransferError::InvalidArgument => {
                "Invalid format for --delete. Use 'file_identifier/deletion_token' (e.g., 'abc123/def456')".to_owned()
            },
            TransferError::TransportError(message) => message.clone(),
            TransferError::ConfigurationError => {
                "The provided chunk size is not a valid integer.".to_owned()
            },
        }
    }
}

} // verus!
