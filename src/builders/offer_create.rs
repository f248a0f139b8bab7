//! Offers: trade one amount for another on the ledger's exchange.
use vstd::prelude::*;

use crate::amount::Amount;
use crate::builders::{
    amount_rejection, validate_amount, BuildError, BuildFailure,
    TransactionBuilder, TransactionTypeBuilder,
};
use crate::transaction::TransactionType;

verus! {

pub struct OfferCreate {
    pub taker_gets: Amount,
    pub taker_pays: Amount,
    pub expiration: Option<u32>,
    pub offer_sequence: Option<u32>,
}

pub type OfferCreateBuilder = TransactionBuilder<OfferCreate>;

impl OfferCreateBuilder {
    /// An offer by `account` giving `taker_gets` for `taker_pays`.
    pub fn new(
        account: String,
        sequence: u32,
        fee: Amount,
        taker_gets: Amount,
        taker_pays: Amount,
    ) -> (r: Self)
        ensures
            r == (TransactionBuilder {
                account,
                fee,
                sequence,
                account_txn_id: None,
                flags: None,
                last_ledger_sequence: None,
                memos: None,
                signers: None,
                source_tag: None,
                ticket_sequence: None,
                transaction_type: OfferCreate {
                    taker_gets,
                    taker_pays,
                    expiration: None,
                    offer_sequence: None,
                },
            }),
    {
        Self::init(
            account,
            sequence,
            fee,
            OfferCreate { taker_gets, taker_pays, expiration: None, offer_sequence: None },
        )
    }

    pub fn with_expiration(self, expiration: u32) -> (r: Self)
        ensures
            r == (TransactionBuilder {
                transaction_type: OfferCreate {
                    expiration: Some(expiration),
                    ..self.transaction_type
                },
                ..self
            }),
    {
        let mut b = self;
        b.transaction_type.expiration = Some(expiration);
        b
    }

    pub fn with_offer_sequence(self, offer_sequence: u32) -> (r: Self)
        ensures
            r == (TransactionBuilder {
                transaction_type: OfferCreate {
                    offer_sequence: Some(offer_sequence),
                    ..self.transaction_type
                },
                ..self
            }),
    {
        let mut b = self;
        b.transaction_type.offer_sequence = Some(offer_sequence);
        b
    }
}

impl TransactionTypeBuilder for OfferCreate {
    type TransactionType = TransactionType;

    /// Both amounts must be acceptable, the one given checked first.
    open spec fn rejection(&self) -> Option<BuildFailure> {
        match amount_rejection(self.taker_gets) {
            Some(f) => Some(f),
            None => amount_rejection(self.taker_pays),
        }
    }

    open spec fn made(self) -> TransactionType {
        TransactionType::OfferCreate {
            expiration: self.expiration,
            offer_sequence: self.offer_sequence,
            taker_gets: self.taker_gets,
            taker_pays: self.taker_pays,
        }
    }

    fn validate(&self) -> (r: Result<(), BuildError>) {
        match validate_amount(&self.taker_gets) {
            Ok(()) => {},
            Err(e) => return Err(e),
        }
        validate_amount(&self.taker_pays)
    }

    fn build_transaction_type(self) -> (r: Result<TransactionType, BuildError>) {
        Ok(
            TransactionType::OfferCreate {
                expiration: self.expiration,
                offer_sequence: self.offer_sequence,
                taker_gets: self.taker_gets,
                taker_pays: self.taker_pays,
            },
        )
    }
}

} // verus!
