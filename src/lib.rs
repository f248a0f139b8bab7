//! Client-side transport for a ledger server reached over one persistent
//! message connection: request/response correlation, subscription replay,
//! reconnect backoff and typed fan-out of push messages, plus the
//! transaction builders that produce request payloads.
pub mod account_object;
pub mod adapter;
pub mod amount;
pub mod builders;
pub mod envelope;
pub mod error;
pub mod json;
pub mod request;
pub mod response;
pub mod socket;
pub mod subscriptions;
pub mod transaction;
