//! The errors of a call, and the one-line text of each.

use crate::json::{describe, error_text};
use crate::text::{decimal_digits, decimal_string};
use vstd::prelude::*;

verus! {

/// Why a call failed. Every error ends the call that raised it.
#[derive(Debug)]
pub enum StratError {
    /// The transport failed: no connection, a timeout, a name that does not
    /// resolve, a broken TLS session. Holds the transport's description.
    NetworkError(String),
    /// The service answered with a status outside 200 to 299.
    ApiError { status: u16, message: String },
    /// A body was not JSON, or a member that the caller needs was missing or
    /// had the wrong type.
    SerializationError(String),
    /// An address did not have the expected shape.
    InvalidAddress,
}

/// An error as a mathematical value.
pub enum ErrorModel {
    NetworkError(Seq<char>),
    ApiError { status: u16, message: Seq<char> },
    SerializationError(Seq<char>),
    InvalidAddress,
}

impl View for StratError {
    type V = ErrorModel;

    open spec fn view(&self) -> ErrorModel {
        match self {
            StratError::NetworkError(description) => ErrorModel::NetworkError(description@),
            StratError::ApiError { status, message } => ErrorModel::ApiError {
                status: *status,
                message: message@,
            },
            StratError::SerializationError(description) => ErrorModel::SerializationError(
                description@,
            ),
            StratError::InvalidAddress => ErrorModel::InvalidAddress,
        }
    }
}

impl ErrorModel {
    /// The text shown for an error.
    pub open spec fn text(self) -> Seq<char> {
        match self {
            ErrorModel::NetworkError(description) => "Network error: "@ + description,
            ErrorModel::ApiError { status, message } => "API error ("@ + decimal_digits(
                status as nat,
            ) + "): "@ + message,
            ErrorModel::SerializationError(description) => "Serialization error: "@
                + description,
            ErrorModel::InvalidAddress => "Invalid address format"@,
        }
    }
}

impl StratError {
    /// Renders the error as one line of text.
    pub fn to_text(&self) -> (text: String)
        ensures
            text@ == self@.text(),
    {
        match self {
            StratError::NetworkError(description) => {
                "Network error: ".to_string().concat(description.as_str())
            },
            StratError::ApiError { status, message } => {
                let mut text = "API error (".to_string();
                text.append(decimal_string(*status as u64).as_str());
                text.append("): ");
                text.append(message.as_str());
                text
            },
            StratError::SerializationError(description) => {
                "Serialization error: ".to_string().concat(description.as_str())
            },
            StratError::InvalidAddress => "Invalid address format".to_string(),
        }
    }
}

/// `from` below is specified by its own `ensures`, over views. Two errors with
/// one view need not be the same value, so no spec function gives its result.
impl vstd::std_specs::convert::FromSpecImpl<serde_json::Error> for StratError {
    open spec fn obeys_from_spec() -> bool {
        false
    }

    open spec fn from_spec(err: serde_json::Error) -> StratError {
        choose|error: StratError| error@ == ErrorModel::SerializationError(error_text(err))
    }
}

impl From<serde_json::Error> for StratError {
    /// A JSON failure becomes a serialization error that carries its text.
    fn from(err: serde_json::Error) -> (error: StratError)
        ensures
            error@ == ErrorModel::SerializationError(error_text(err)),
    {
        StratError::SerializationError(describe(&err))
    }
}

} // verus!
