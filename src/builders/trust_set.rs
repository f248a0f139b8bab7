//! Trust lines: how much of a token the account is willing to hold.
use vstd::prelude::*;

use crate::amount::Amount;
use crate::builders::{
    amount_rejection, validate_amount, BuildError, BuildFailure,
    TransactionBuilder, TransactionTypeBuilder,
};
use crate::transaction::TransactionType;

verus! {

pub struct TrustSet {
    pub limit_amount: Amount,
    pub quality_in: Option<u32>,
    pub quality_out: Option<u32>,
}

pub type TrustSetBuilder = TransactionBuilder<TrustSet>;

impl TrustSetBuilder {
    /// A trust line from `account` up to `limit_amount`.
    pub fn new(account: String, sequence: u32, fee: Amount, limit_amount: Amount) -> (r: Self)
        ensures
            r == (TransactionBuilder {
                account,
                fee,
                sequence,
                account_txn_id: None,
                flags: None,
                last_ledger_sequence: None,
                memos: None,
                signers: None,
                source_tag: None,
                ticket_sequence: None,
                transaction_type: TrustSet { limit_amount, quality_in: None, quality_out: None },
            }),
    {
        Self::init(
            account,
            sequence,
            fee,
            TrustSet { limit_amount, quality_in: None, quality_out: None },
        )
    }

    pub fn with_quality_in(self, quality_in: u32) -> (r: Self)
        ensures
            r == (TransactionBuilder {
                transaction_type: TrustSet { quality_in: Some(quality_in), ..self.transaction_type },
                ..self
            }),
    {
        let mut b = self;
        b.transaction_type.quality_in = Some(quality_in);
        b
    }

    pub fn with_quality_out(self, quality_out: u32) -> (r: Self)
        ensures
            r == (TransactionBuilder {
                transaction_type: TrustSet {
                    quality_out: Some(quality_out),
                    ..self.transaction_type
                },
                ..self
            }),
    {
        let mut b = self;
        b.transaction_type.quality_out = Some(quality_out);
        b
    }
}

impl TransactionTypeBuilder for TrustSet {
    type TransactionType = TransactionType;

    /// The limit must be an acceptable token amount.
    open spec fn rejection(&self) -> Option<BuildFailure> {
        match self.limit_amount {
            Amount::IssuedCurrency { .. } => amount_rejection(self.limit_amount),
            Amount::Xrpl(_) => Some(
                BuildFailure::InvalidField("TrustSet limit_amount must be an issued currency"@),
            ),
        }
    }

    open spec fn made(self) -> TransactionType {
        TransactionType::TrustSet {
            limit_amount: self.limit_amount,
            quality_in: self.quality_in,
            quality_out: self.quality_out,
        }
    }

    fn validate(&self) -> (r: Result<(), BuildError>) {
        match &self.limit_amount {
            Amount::IssuedCurrency { .. } => validate_amount(&self.limit_amount),
            Amount::Xrpl(_) => Err(
                BuildError::InvalidField(
                    "TrustSet limit_amount must be an issued currency".to_string(),
                ),
            ),
        }
    }

    fn build_transaction_type(self) -> (r: Result<TransactionType, BuildError>) {
        Ok(
            TransactionType::TrustSet {
                limit_amount: self.limit_amount,
                quality_in: self.quality_in,
                quality_out: self.quality_out,
            },
        )
    }
}

} // verus!
