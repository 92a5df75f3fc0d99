//! The error taxonomy of the client.
use vstd::prelude::*;

use crate::text::{decimal, decimal_text};

verus! {

/// Every way an operation of the client can fail.
#[derive(Debug, Clone)]
pub enum CliError {
    /// The HTTP layer could not complete the exchange (connection, timeout).
    Request(String),
    /// A body did not have the expected shape.
    Serialization(String),
    /// Reading or writing a local file failed.
    Io(String),
    /// The configuration was malformed or a key was unknown.
    Config(String),
    /// Reserved for an explicit authentication failure.
    Authentication,
    /// The server reported that the addressed entry does not exist.
    EntryNotFound(String),
    /// A value given by the user was not acceptable.
    InvalidInput(String),
    /// Any other failure reported by the server.
    ApiError { status: u16, message: String },
}

/// An error with its messages seen as characters.
pub enum ErrorView {
    Request(Seq<char>),
    Serialization(Seq<char>),
    Io(Seq<char>),
    Config(Seq<char>),
    Authentication,
    EntryNotFound(Seq<char>),
    InvalidInput(Seq<char>),
    ApiError { status: u16, message: Seq<char> },
}

impl View for CliError {
    type V = ErrorView;

    open spec fn view(&self) -> ErrorView {
        match self {
            CliError::Request(m) => ErrorView::Request(m@),
            CliError::Serialization(m) => ErrorView::Serialization(m@),
            CliError::Io(m) => ErrorView::Io(m@),
            CliError::Config(m) => ErrorView::Config(m@),
            CliError::Authentication => ErrorView::Authentication,
            CliError::EntryNotFound(m) => ErrorView::EntryNotFound(m@),
            CliError::InvalidInput(m) => ErrorView::InvalidInput(m@),
            CliError::ApiError { status, message } => ErrorView::ApiError {
                status: *status,
                message: message@,
            },
        }
    }
}

/// A result with its error seen as characters.
pub open spec fn result_view<T>(r: Result<T, CliError>) -> Result<T, ErrorView> {
    match r {
        Ok(v) => Ok(v),
        Err(e) => Err(e@),
    }
}

/// The human-readable text of an error.
pub open spec fn error_text(e: ErrorView) -> Seq<char> {
    match e {
        ErrorView::Request(m) => "HTTP request failed: "@ + m,
        ErrorView::Serialization(m) => "Serialization failed: "@ + m,
        ErrorView::Io(m) => "IO error: "@ + m,
        ErrorView::Config(m) => "Configuration error: "@ + m,
        ErrorView::Authentication => "Authentication failed"@,
        ErrorView::EntryNotFound(m) => "Entry not found: "@ + m,
        ErrorView::InvalidInput(m) => "Invalid input: "@ + m,
        ErrorView::ApiError { status, message } => "API error: "@ + decimal_text(status as nat)
            + " - "@ + message,
    }
}

impl CliError {
    /// A configuration error carrying `msg`.
    pub fn config(msg: &str) -> (r: CliError)
        ensures
            r@ == ErrorView::Config(msg@),
    {
        CliError::Config(String::from_str(msg))
    }

    /// An invalid-input error carrying `msg`.
    pub fn invalid_input(msg: &str) -> (r: CliError)
        ensures
            r@ == ErrorView::InvalidInput(msg@),
    {
        CliError::InvalidInput(String::from_str(msg))
    }

    /// A server error with its status and message.
    pub fn api_error(status: u16, message: &str) -> (r: CliError)
        ensures
            r@ == (ErrorView::ApiError { status, message: message@ }),
    {
        CliError::ApiError { status, message: String::from_str(message) }
    }

    /// The human-readable text of this error.
    pub fn to_string(&self) -> (r: String)
        ensures
            r@ == error_text(self@),
    {
        match self {
            CliError::Request(m) => String::from_str("HTTP request failed: ").concat(m.as_str()),
            CliError::Serialization(m) => String::from_str("Serialization failed: ").concat(
                m.as_str(),
            ),
            CliError::Io(m) => String::from_str("IO error: ").concat(m.as_str()),
            CliError::Config(m) => String::from_str("Configuration error: ").concat(m.as_str()),
            CliError::Authentication => String::from_str("Authentication failed"),
            CliError::EntryNotFound(m) => String::from_str("Entry not found: ").concat(m.as_str()),
            CliError::InvalidInput(m) => String::from_str("Invalid input: ").concat(m.as_str()),
            CliError::ApiError { status, message } => {
                let s = decimal(*status as u64);
                String::from_str("API error: ").concat(s.as_str()).concat(" - ").concat(
                    message.as_str(),
                )
            },
        }
    }
}

} // verus!
