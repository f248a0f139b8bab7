//! The commands the client issues and the results the server returns for
//! them. Plain data: what each field means is the server's business.
use vstd::prelude::*;

use crate::account_object::AccountObject;
use crate::amount::Amount;
use crate::transaction::Transaction;

verus! {

#[derive(Debug, Default)]
pub struct AccountChannelsRequest {
    pub account: String,
    pub destination_account: Option<String>,
    pub ledger_hash: Option<String>,
    pub ledger_index: Option<serde_json::Value>,
    pub limit: Option<u32>,
    pub marker: Option<serde_json::Value>,
}

#[derive(Debug)]
pub struct AccountChannelsResponse {
    pub account: String,
    pub channels: Vec<AccountChannel>,
    pub ledger_hash: Option<String>,
    pub ledger_index: Option<serde_json::Value>,
    pub validated: Option<bool>,
    pub marker: Option<serde_json::Value>,
    pub limit: Option<u32>,
}

#[derive(Debug)]
pub struct AccountChannel {
    pub account: String,
    pub amount: String,
    pub balance: String,
    pub channel_id: String,
    pub destination_account: String,
    pub settle_delay: u64,
    pub public_key: Option<String>,
    pub public_key_hex: Option<String>,
    pub expiration: Option<u64>,
    pub cancel_after: Option<u64>,
    pub source_tag: Option<u32>,
    pub destination_tag: Option<u32>,
}

#[derive(Debug, Default)]
pub struct AccountCurrenciesRequest {
    pub account: String,
    pub ledger_hash: Option<String>,
    pub ledger_index: Option<serde_json::Value>,
}

#[derive(Debug)]
pub struct AccountCurrenciesResponse {
    pub ledger_hash: Option<String>,
    pub ledger_index: Option<u32>,
    pub receive_currencies: Vec<String>,
    pub send_currencies: Vec<String>,
    pub validated: bool,
}

#[derive(Debug, Default)]
pub struct AccountInfoRequest {
    pub account: String,
    pub ledger_hash: Option<String>,
    pub ledger_index: Option<serde_json::Value>,
    pub queue: Option<bool>,
    pub signer_lists: Option<bool>,
    pub strict: Option<bool>,
}

#[derive(Debug, Clone)]
pub struct AccountInfoResponse {
    pub account_data: AccountRoot,
    pub signer_lists: Option<Vec<String>>,
    pub ledger_current_index: Option<u32>,
    pub ledger_index: Option<u32>,
    pub queue_data: Option<QueueData>,
    pub validated: Option<bool>,
}

#[derive(Debug, Clone)]
pub struct AccountRoot {
    pub account: String,
    pub balance: String,
    pub flags: u32,
    pub ledger_entry_type: String,
    pub owner_count: u32,
    pub previous_txn_id: String,
    pub previous_txn_lgr_seq: u32,
    pub sequence: u32,
    pub index: String,
}

#[derive(Debug, Clone)]
pub struct QueueData {
    pub txn_count: u32,
    pub auth_change_queued: Option<bool>,
    pub lowest_sequence: Option<u32>,
    pub highest_sequence: Option<u32>,
    pub max_spend_drops_total: Option<String>,
    pub transactions: Option<Vec<QueueTransaction>>,
}

#[derive(Debug, Clone)]
pub struct QueueTransaction {
    pub auth_change: bool,
    pub fee: String,
    pub fee_level: String,
    pub max_spend_drops: String,
    pub seq: u32,
}

#[derive(Debug, Default)]
pub struct AccountLinesRequest {
    pub account: String,
    pub ignore_default: Option<bool>,
    pub ledger_hash: Option<String>,
    pub ledger_index: Option<serde_json::Value>,
    pub limit: Option<u32>,
    pub marker: Option<serde_json::Value>,
    pub peer: Option<String>,
}

#[derive(Debug)]
pub struct AccountLinesResponse {
    pub account: String,
    pub lines: Vec<Trustline>,
    pub ledger_current_index: Option<u32>,
    pub ledger_index: Option<u32>,
    pub ledger_hash: Option<String>,
    pub marker: Option<serde_json::Value>,
    pub limit: Option<u32>,
}

#[derive(Debug)]
pub struct Trustline {
    pub account: String,
    pub balance: String,
    pub currency: String,
    pub limit: String,
    pub limit_peer: String,
    pub quality_in: i64,
    pub quality_out: i64,
    pub no_ripple: Option<bool>,
    pub no_ripple_peer: Option<bool>,
    pub authorized: Option<bool>,
    pub peer_authorized: Option<bool>,
    pub freeze: Option<bool>,
    pub freeze_peer: Option<bool>,
}

#[derive(Debug, Default)]
pub struct AccountNftsRequest {
    pub account: String,
    pub ledger_hash: Option<String>,
    pub ledger_index: Option<serde_json::Value>,
    pub limit: Option<u32>,
    pub marker: Option<serde_json::Value>,
}

#[derive(Debug)]
pub struct AccountNftsResponse {
    pub account: String,
    pub account_nfts: Vec<AccountNFToken>,
    pub ledger_hash: Option<String>,
    pub ledger_index: Option<u32>,
    pub ledger_current_index: Option<u32>,
    pub validated: Option<bool>,
    pub marker: Option<serde_json::Value>,
}

#[derive(Debug)]
pub struct AccountNFToken {
    pub flags: u32,
    pub issuer: String,
    pub nftoken_id: String,
    pub nftoken_taxon: u32,
    pub uri: Option<String>,
    pub nft_serial: u32,
}

#[derive(Debug, Default)]
pub struct AccountObjectsRequest {
    pub account: String,
    pub deletion_blockers_only: Option<bool>,
    pub ledger_hash: Option<String>,
    pub ledger_index: Option<serde_json::Value>,
    pub limit: Option<u32>,
    pub marker: Option<serde_json::Value>,
    pub kind: Option<AccountObjectType>,
}

/// The ledger-entry kinds that `account_objects` can be narrowed to.
#[derive(Debug, Clone, Copy, PartialEq, Eq)]
pub enum AccountObjectType {
    Bridge,
    Check,
    DepositPreauth,
    Escrow,
    MPToken,
    NFTokenOffer,
    NFTokenPage,
    Offer,
    PayChannel,
    RippleState,
    SignerList,
    Ticket,
}

#[derive(Debug)]
pub struct AccountObjectsResponse {
    pub account: String,
    pub account_objects: Vec<AccountObject>,
    pub ledger_hash: Option<String>,
    pub ledger_index: Option<u32>,
    pub ledger_current_index: Option<u32>,
    pub limit: Option<u32>,
    pub marker: Option<serde_json::Value>,
    pub validated: Option<bool>,
}

#[derive(Debug, Default)]
pub struct AccountOffersRequest {
    pub account: String,
    pub ledger_hash: Option<String>,
    pub ledger_index: Option<serde_json::Value>,
    pub limit: Option<u32>,
    pub marker: Option<serde_json::Value>,
}

#[derive(Debug)]
pub struct AccountOffersResponse {
    pub account: String,
    pub offers: Vec<AccountOffer>,
    pub ledger_current_index: Option<u32>,
    pub ledger_index: Option<u32>,
    pub ledger_hash: Option<String>,
    pub marker: Option<serde_json::Value>,
}

#[derive(Debug)]
pub struct AccountOffer {
    pub flags: u32,
    pub seq: u32,
    pub taker_gets: Amount,
    pub taker_pays: Amount,
    pub quality: String,
    pub expiration: Option<u64>,
}

#[derive(Debug, Clone, Default)]
pub struct AccountTxRequest {
    pub account: String,
    pub ledger_index_min: Option<i64>,
    pub ledger_index_max: Option<i64>,
    pub ledger_hash: Option<String>,
    pub ledger_index: Option<serde_json::Value>,
    pub binary: Option<bool>,
    pub forward: Option<bool>,
    pub limit: Option<u32>,
    pub marker: Option<serde_json::Value>,
}

#[derive(Debug, Clone)]
pub struct AccountTxResponse {
    pub account: String,
    pub ledger_index_min: Option<i64>,
    pub ledger_index_max: Option<i64>,
    pub marker: Option<serde_json::Value>,
    pub transactions: Vec<AccountTransaction>,
    pub validated: Option<bool>,
    pub limit: Option<u32>,
}

#[derive(Debug, Clone)]
pub struct AccountTransaction {
    pub meta: Option<serde_json::Value>,
    pub tx_json: serde_json::Value,
    pub validated: bool,
}

#[derive(Debug, Default)]
pub struct ServerInfoRequest;

#[derive(Clone, Debug)]
pub struct ServerInfoLastClose {
    pub converge_time_s: u64,
    pub proposers: u32,
}

#[derive(Clone, Debug)]
pub struct ServerInfoStateAccounting {
    pub connected: ServerInfoStateAccount,
    pub disconnected: ServerInfoStateAccount,
    pub full: ServerInfoStateAccount,
    pub syncing: ServerInfoStateAccount,
    pub tracking: ServerInfoStateAccount,
}

#[derive(Clone, Debug)]
pub struct ServerInfoStateAccount {
    pub duration_us: String,
    pub transitions: String,
}

#[derive(Debug, Default)]
pub struct SubmitRequest {
    pub tx_blob: String,
    pub fail_hard: Option<bool>,
}

#[derive(Debug)]
pub struct SubmitResponse {
    pub engine_result: String,
    pub engine_result_code: i64,
    pub engine_result_message: String,
    pub tx_blob: String,
    pub accepted: bool,
    pub account_sequence_available: u32,
    pub account_sequence_next: u32,
    pub applied: bool,
    pub broadcast: bool,
    pub kept: bool,
    pub queued: bool,
    pub open_ledger_cost: String,
    pub validated_ledger_index: u32,
}

#[derive(Debug, Clone, Default)]
pub struct TxRequest {
    pub tx_hash: Option<String>,
    pub ctid: Option<String>,
    pub binary: Option<bool>,
    pub min_ledger: Option<u32>,
    pub max_ledger: Option<u32>,
}

#[derive(Debug, Clone)]
pub struct TxResponse {
    pub close_time_iso: Option<String>,
    pub ctid: Option<String>,
    pub hash: String,
    pub ledger_hash: Option<String>,
    pub ledger_index: Option<u32>,
    pub meta: Option<serde_json::Value>,
    pub tx_json: Transaction,
    pub validated: bool,
}

} // verus!
