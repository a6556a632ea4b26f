//! What a response means: a status from 200 to 299 with a JSON body is the
//! result of the call, any other status is an API error whose message comes
//! from the body, and a body that is not JSON is a serialization error.

use crate::client::StratSDK;
use crate::error::{ErrorModel, StratError};
use crate::json::{
    as_binary64, as_text, decode, decoded_json, error_text, integer_as_binary64, json_field,
    json_view, member, Json, JsonNumber,
};
use serde_json::Value;
use vstd::prelude::*;

verus! {

/// Whether `status` reports success: 200 to 299, both included.
pub open spec fn is_success(status: u16) -> bool {
    200 <= status <= 299
}

/// The message of a failed call: the text member `error` of the body, or
/// "Unknown error" where the body has none.
pub open spec fn error_message(data: Json) -> Seq<char> {
    match json_field(data, "error"@) {
        Json::Text(message) => message,
        _ => "Unknown error"@,
    }
}

/// The outcome of a call whose response had `status` and a body that decoded
/// to `decoded`.
pub open spec fn response_outcome(status: u16, decoded: Result<Json, Seq<char>>) -> Result<
    Json,
    ErrorModel,
> {
    match decoded {
        Ok(data) => if is_success(status) {
            Ok(data)
        } else {
            Err(ErrorModel::ApiError { status, message: error_message(data) })
        },
        Err(description) => Err(ErrorModel::SerializationError(description)),
    }
}

/// The balance that a wallet document reports: its numeric member `balance`,
/// as the bits of a binary64 value.
pub open spec fn balance_of(data: Json) -> Option<u64> {
    match json_field(data, "balance"@) {
        Json::Number(JsonNumber::Float(bits)) => Some(bits),
        Json::Number(JsonNumber::PosInt(n)) => Some(integer_as_binary64(n as int)),
        Json::Number(JsonNumber::NegInt(n)) => Some(integer_as_binary64(n as int)),
        _ => None,
    }
}

/// A decoded body as a mathematical value: the document, or the message of
/// the failure.
pub open spec fn decoded_view(decoded: Result<Value, serde_json::Error>) -> Result<
    Json,
    Seq<char>,
> {
    match decoded {
        Ok(data) => Ok(json_view(data)),
        Err(failure) => Err(error_text(failure)),
    }
}

/// The outcome of a call as a mathematical value.
pub open spec fn outcome_view(outcome: Result<Value, StratError>) -> Result<Json, ErrorModel> {
    match outcome {
        Ok(data) => Ok(json_view(data)),
        Err(error) => Err(error@),
    }
}

impl StratSDK {
    /// The error of a call whose request got no response: the transport
    /// failed, and `description` says how.
    pub fn network_error(description: String) -> (error: StratError)
        ensures
            error@ == ErrorModel::NetworkError(description@),
    {
        StratError::NetworkError(description)
    }

    /// The API error for a response with `status`, given the text member
    /// `error` of its body where there was one.
    pub fn api_error(status: u16, message: Option<&str>) -> (error: StratError)
        ensures
            error@ == (ErrorModel::ApiError {
                status,
                message: match message {
                    Some(text) => text@,
                    None => "Unknown error"@,
                },
            }),
    {
        let message = match message {
            Some(text) => text,
            None => "Unknown error",
        };
        StratError::ApiError { status, message: message.to_string() }
    }

    /// Decides the outcome of a call from the status of the response and the
    /// decoded body. On success the document comes back as it is.
    pub fn classify(status: u16, decoded: Result<Value, serde_json::Error>) -> (outcome: Result<
        Value,
        StratError,
    >)
        ensures
            outcome_view(outcome) == response_outcome(status, decoded_view(decoded)),
            is_success(status) ==> (decoded matches Ok(data) ==> outcome matches Ok(same) && same
                == data),
    {
        match decoded {
            Ok(data) => {
                if 200 <= status && status <= 299 {
                    Ok(data)
                } else {
                    let message = as_text(member(&data, "error"));
                    Err(Self::api_error(status, message))
                }
            },
            Err(failure) => Err(StratError::from(failure)),
        }
    }

    /// Decodes the body of a response and decides the outcome of the call.
    pub fn response(status: u16, body: &[u8]) -> (outcome: Result<Value, StratError>)
        ensures
            outcome_view(outcome) == response_outcome(status, decoded_json(body@)),
    {
        Self::classify(status, decode(body))
    }

    /// The balance, given the numeric member `balance` of a wallet document
    /// where it had one.
    pub fn balance_from(number: Option<u64>) -> (balance: Result<u64, StratError>)
        ensures
            match number {
                Some(bits) => balance == Ok::<u64, StratError>(bits),
                None => balance matches Err(error) && error@ == ErrorModel::SerializationError(
                    "Invalid balance format"@,
                ),
            },
    {
        match number {
            Some(bits) => Ok(bits),
            None => Err(StratError::SerializationError("Invalid balance format".to_string())),
        }
    }

    /// Reads the balance from the result of `get_balance`. The balance is a
    /// binary64 number and comes back as its bits.
    pub fn balance(data: &Value) -> (balance: Result<u64, StratError>)
        ensures
            match balance_of(json_view(*data)) {
                Some(bits) => balance == Ok::<u64, StratError>(bits),
                None => balance matches Err(error) && error@ == ErrorModel::SerializationError(
                    "Invalid balance format"@,
                ),
            },
    {
        Self::balance_from(as_binary64(member(data, "balance")))
    }
}

} // verus!
