//! Transactions as the builders produce them, and the signing hook.
use vstd::prelude::*;

use crate::amount::Amount;

verus! {

/// A transaction: the fields common to every kind, then the kind's own.
#[derive(Debug, Clone)]
pub struct Transaction {
    pub account: String,
    pub account_txn_id: Option<String>,
    pub fee: String,
    pub flags: Option<u32>,
    pub last_ledger_sequence: Option<u32>,
    pub memos: Option<Vec<MemoWrapper>>,
    pub sequence: u32,
    pub signers: Option<Vec<SignerWrapper>>,
    pub source_tag: Option<u32>,
    pub ticket_sequence: Option<u32>,
    pub signing_pub_key: Option<String>,
    pub txn_signature: Option<String>,
    pub hash: Option<String>,
    pub transaction_type: TransactionType,
}

/// The kinds of transaction, each with its own fields.
#[allow(inconsistent_fields)]
#[derive(Debug, Clone)]
pub enum TransactionType {
    NFTokenAcceptOffer {
        nftoken_sell_offer: Option<String>,
        nftoken_buy_offer: Option<String>,
        nftoken_broker_fee: Option<Amount>,
    },
    NFTokenBurn { nftoken_id: String, owner: Option<String> },
    NFTokenCancelOffer { nftoken_offers: Vec<String> },
    NFTokenCreateOffer {
        nftoken_id: String,
        amount: Amount,
        owner: Option<String>,
        expiration: Option<u32>,
        destination: Option<String>,
    },
    NFTokenMint {
        nftoken_taxon: u32,
        issuer: Option<String>,
        transfer_fee: Option<u32>,
        uri: Option<String>,
    },
    AccountSet {
        clear_flag: Option<i64>,
        domain: Option<String>,
        email_hash: Option<String>,
        message_key: Option<String>,
        set_flag: Option<u32>,
        transfer_rate: Option<u32>,
        tick_size: Option<u32>,
        nftoken_minter: Option<String>,
    },
    TrustSet { limit_amount: Amount, quality_in: Option<u32>, quality_out: Option<u32> },
    OfferCreate {
        expiration: Option<u32>,
        offer_sequence: Option<u32>,
        taker_gets: Amount,
        taker_pays: Amount,
    },
    Payment {
        amount: Option<Amount>,
        deliver_max: Option<Amount>,
        deliver_min: Option<Amount>,
        destination: String,
        destination_tag: Option<u32>,
        invoice_id: Option<String>,
        paths: Option<Vec<Vec<PathStep>>>,
        send_max: Option<Amount>,
    },
}

#[derive(Debug, Clone)]
pub struct MemoWrapper {
    pub memo: Memo,
}

#[derive(Debug, Clone)]
pub struct Memo {
    pub memo_data: Option<String>,
    pub memo_format: Option<String>,
    pub memo_type: Option<String>,
}

#[derive(Debug, Clone)]
pub struct SignerWrapper {
    pub signer: Signer,
}

#[derive(Debug, Clone)]
pub struct Signer {
    pub account: String,
    pub txn_signature: String,
    pub signing_pub_key: String,
}

#[derive(Debug, Clone)]
pub struct PathStep {
    pub account: Option<String>,
    pub currency: Option<String>,
    pub issuer: Option<String>,
}

/// Something that can sign a transaction into a submittable blob: a wallet,
/// supplied by the user of the library.
pub trait SigningContext {
    type Error;

    fn sign_transaction(&self, tx: &Transaction) -> Result<String, Self::Error>;
}

/// What can be signed through a `SigningContext`.
pub trait Signable {
    fn sign_with<C: SigningContext>(&self, context: &C) -> Result<String, C::Error>;
}

impl Signable for Transaction {
    fn sign_with<C: SigningContext>(&self, context: &C) -> Result<String, C::Error> {
        context.sign_transaction(self)
    }
}

} // verus!
