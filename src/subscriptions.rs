//! Subscription requests and the push messages they bring. Their payloads
//! are what the client tracks and replays after every reconnect.
use vstd::prelude::*;

use crate::transaction::Transaction;
use crate::envelope::{command_payload, envelope, is_command_payload, is_enveloped, API_VERSION};
use crate::json::{json_object_with_strings, object_with_strings};

verus! {

/// A subscribe payload: the object holding `targets` under `key`,
/// enveloped as a `subscribe` command with the protocol version.
pub open spec fn is_subscribe_payload(text: Seq<char>, key: Seq<char>, targets: Seq<Seq<char>>) -> bool {
    is_command_payload(
        text,
        json_object_with_strings(key, targets),
        "subscribe"@,
        API_VERSION,
    )
}

/// An unsubscribe payload: the object holding `targets` under `key`,
/// enveloped as an `unsubscribe` command and, by convention, without the
/// protocol version.
pub open spec fn is_unsubscribe_payload(text: Seq<char>, key: Seq<char>, targets: Seq<Seq<char>>) -> bool {
    is_enveloped(text, json_object_with_strings(key, targets), "unsubscribe"@)
}

fn subscribe_payload(key: &str, targets: &Vec<String>) -> (r: String)
    ensures
        is_subscribe_payload(r@, key@, targets@.map_values(|t: String| t@)),
{
    let fields = object_with_strings(key, targets);
    match command_payload(fields.as_str(), "subscribe", API_VERSION) {
        Some(text) => text,
        None => fields,
    }
}

fn unsubscribe_payload(key: &str, targets: &Vec<String>) -> (r: String)
    ensures
        is_unsubscribe_payload(r@, key@, targets@.map_values(|t: String| t@)),
{
    let fields = object_with_strings(key, targets);
    match envelope(fields.as_str(), "unsubscribe") {
        Some(text) => text,
        None => fields,
    }
}

/// The one stream name of the ledger subscription.
fn ledger_stream() -> (r: Vec<String>)
    ensures
        r@.map_values(|t: String| t@) == seq!["ledger"@],
{
    let mut v: Vec<String> = Vec::new();
    v.push("ledger".to_string());
    assert(v@.map_values(|t: String| t@) =~= seq!["ledger"@]);
    v
}

/// Subscribes to ledger-close notifications.
#[derive(Debug, Default)]
pub struct LedgerSubscription;

impl LedgerSubscription {
    pub fn command() -> (r: &'static str)
        ensures
            r@ == "subscribe"@,
    {
        "subscribe"
    }

    /// The `type` of the push messages this subscription brings.
    pub fn message_type() -> (r: &'static str)
        ensures
            r@ == "ledgerClosed"@,
    {
        "ledgerClosed"
    }

    pub fn to_value(&self) -> (r: String)
        ensures
            is_subscribe_payload(r@, "streams"@, seq!["ledger"@]),
    {
        subscribe_payload("streams", &ledger_stream())
    }
}

/// Ends the ledger subscription.
#[derive(Debug, Default)]
pub struct LedgerUnsubscription;

impl LedgerUnsubscription {
    pub fn command() -> (r: &'static str)
        ensures
            r@ == "unsubscribe"@,
    {
        "unsubscribe"
    }

    pub fn to_value(&self) -> (r: String)
        ensures
            is_unsubscribe_payload(r@, "streams"@, seq!["ledger"@]),
    {
        unsubscribe_payload("streams", &ledger_stream())
    }
}

/// Subscribes to the transactions that touch the given accounts.
#[derive(Debug)]
pub struct AccountTransactionsSubscription {
    pub accounts: Vec<String>,
}

impl AccountTransactionsSubscription {
    pub fn new(accounts: Vec<String>) -> (r: Self)
        ensures
            r.accounts == accounts,
    {
        AccountTransactionsSubscription { accounts }
    }

    pub fn command() -> (r: &'static str)
        ensures
            r@ == "subscribe"@,
    {
        "subscribe"
    }

    /// The `type` of the push messages this subscription brings.
    pub fn message_type() -> (r: &'static str)
        ensures
            r@ == "transaction"@,
    {
        "transaction"
    }

    pub fn to_value(&self) -> (r: String)
        ensures
            is_subscribe_payload(r@, "accounts"@, self.accounts@.map_values(|t: String| t@)),
    {
        subscribe_payload("accounts", &self.accounts)
    }
}

/// Ends the subscription to the given accounts' transactions.
#[derive(Debug)]
pub struct AccountTransactionsUnsubscription {
    pub accounts: Vec<String>,
}

impl AccountTransactionsUnsubscription {
    pub fn new(accounts: Vec<String>) -> (r: Self)
        ensures
            r.accounts == accounts,
    {
        AccountTransactionsUnsubscription { accounts }
    }

    pub fn command() -> (r: &'static str)
        ensures
            r@ == "unsubscribe"@,
    {
        "unsubscribe"
    }

    pub fn to_value(&self) -> (r: String)
        ensures
            is_unsubscribe_payload(r@, "accounts"@, self.accounts@.map_values(|t: String| t@)),
    {
        unsubscribe_payload("accounts", &self.accounts)
    }
}

#[derive(Debug)]
pub struct LedgerSubscriptionResponse {
    pub fee_base: i64,
    pub ledger_hash: String,
    pub ledger_index: i64,
    pub ledger_time: i64,
    pub reserve_base: i64,
    pub reserve_inc: i64,
    pub validated_ledgers: Option<String>,
}

/// A ledger-close notification.
#[derive(Debug, Clone)]
pub struct LedgerMessage {
    pub fee_base: i64,
    pub ledger_hash: String,
    pub ledger_index: i64,
    pub ledger_time: i64,
    pub reserve_base: i64,
    pub reserve_inc: i64,
    pub txn_count: i64,
    pub kind: String,
    pub validated_ledgers: Option<String>,
}

#[derive(Debug)]
pub struct UnsubscribeResponse {}

#[derive(Debug)]
pub struct AccountSubscriptionResponse {}

/// A transaction that touched a subscribed account.
#[derive(Debug, Clone)]
pub struct AccountTransactionMessage {
    pub close_time_iso: Option<String>,
    pub kind: String,
    pub engine_result: String,
    pub engine_result_code: i32,
    pub engine_result_message: String,
    pub hash: String,
    pub ledger_hash: Option<String>,
    pub ledger_index: Option<u32>,
    pub meta: Option<TransactionMeta>,
    pub tx_json: Transaction,
    pub validated: bool,
}

#[derive(Debug, Clone)]
pub struct TransactionMeta {
    pub affected_nodes: Vec<serde_json::Value>,
    pub transaction_index: u32,
    pub transaction_result: String,
    pub delivered_amount: Option<serde_json::Value>,
}

} // verus!
