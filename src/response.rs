//! Inbound correlated responses: the success/error union and the check that
//! turns a server-reported failure into `ApiError`.
use vstd::prelude::*;

use crate::error::XrplError;
use crate::json::{has_member, i64_member, json_has_member, json_i64_member, json_str_member, str_member};

verus! {

/// A correlated response: a success carrying the typed result, or an error
/// reported by the server. Callers must branch on it.
pub enum XrplResponse<T> {
    Success { id: Option<serde_json::Value>, result: T, kind: String, status: String },
    Error {
        id: Option<serde_json::Value>,
        error: String,
        error_code: Option<i32>,
        error_message: Option<String>,
        request: Option<serde_json::Value>,
        kind: String,
        status: String,
    },
}

impl<T> XrplResponse<T> {
    /// The typed result of a success; the server's error as `ApiError` otherwise.
    pub fn result(self) -> (r: Result<T, XrplError>)
        ensures
            match self {
                XrplResponse::Success { result, .. } => r == Ok::<T, XrplError>(result),
                XrplResponse::Error { error, error_code, error_message, .. } => r == Err::<
                    T,
                    XrplError,
                >(XrplError::ApiError { error, error_code, error_message }),
            },
    {
        match self {
            XrplResponse::Success { result, .. } => Ok(result),
            XrplResponse::Error { error, error_code, error_message, .. } => Err(
                XrplError::ApiError { error, error_code, error_message },
            ),
        }
    }

    pub fn is_success(&self) -> (r: bool)
        ensures
            r == (self is Success),
    {
        match self {
            XrplResponse::Success { .. } => true,
            XrplResponse::Error { .. } => false,
        }
    }
}

/// The `error` member of a failed response, or `"unknown"` when it is not a string.
pub open spec fn error_name(text: Seq<char>) -> Seq<char> {
    match json_str_member(text, "error"@) {
        Some(s) => s,
        None => "unknown"@,
    }
}

/// The `ApiError` for a failed response whose `error`, `error_code` and
/// `error_message` members read as given (`None` where a member is missing
/// or of another type). An `error` that is not a string reads `"unknown"`;
/// an `error_code` is narrowed to 32 bits.
pub fn api_error(error: Option<String>, error_code: Option<i64>, error_message: Option<String>) -> (r:
    XrplError)
    ensures
        r == (XrplError::ApiError {
            error: match error {
                Some(e) => e,
                None => r->error,
            },
            error_code: match error_code {
                Some(c) => Some(c as i32),
                None => None,
            },
            error_message,
        }),
        error is None ==> r->error@ == "unknown"@,
{
    let error = match error {
        Some(s) => s,
        None => {
            proof {
                reveal_strlit("unknown");
            }
            "unknown".to_string()
        },
    };
    let error_code = match error_code {
        Some(c) => Some(c as i32),
        None => None,
    };
    XrplError::ApiError { error, error_code, error_message }
}

/// Passes a raw response through, unless it carries an `error` member: then
/// the server's `error`, `error_code` and `error_message` come back as `ApiError`.
pub fn check_response(text: String) -> (r: Result<String, XrplError>)
    ensures
        !json_has_member(text@, "error"@) ==> r == Ok::<String, XrplError>(text),
        json_has_member(text@, "error"@) ==> (r matches Err(
            XrplError::ApiError { error, error_code, error_message },
        ) && error@ == error_name(text@) && error_code == (match json_i64_member(
            text@,
            "error_code"@,
        ) {
            Some(c) => Some(c as i32),
            None => None,
        }) && (match error_message {
            Some(m) => json_str_member(text@, "error_message"@) == Some(m@),
            None => json_str_member(text@, "error_message"@) is None,
        })),
{
    if !has_member(text.as_str(), "error") {
        return Ok(text);
    }
    Err(
        api_error(
            str_member(text.as_str(), "error"),
            i64_member(text.as_str(), "error_code"),
            str_member(text.as_str(), "error_message"),
        ),
    )
}

} // verus!
