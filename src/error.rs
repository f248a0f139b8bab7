use vstd::prelude::*;

verus! {

/// Every failure that reaches a caller of the client.
#[derive(Debug, Clone, PartialEq, Eq)]
pub enum XrplError {
    /// The transport could not be established.
    ConnectionError(String),
    /// No live connection when sending, or the connection was reset while
    /// the request was outstanding.
    Disconnected,
    /// No correlated response within the deadline (milliseconds).
    Timeout(u64),
    /// The payload did not match the expected schema.
    ParseError(String),
    /// The server reported failure for a well-formed request.
    ApiError { error: String, error_code: Option<i32>, error_message: Option<String> },
}

} // verus!
