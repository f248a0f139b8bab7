//! Payments: deliver an amount to a destination account.
use vstd::prelude::*;

use crate::amount::Amount;
use crate::builders::{
    address_rejection, amount_rejection, validate_address, validate_amount,
    BuildError, BuildFailure, TransactionBuilder, TransactionTypeBuilder,
};
use crate::transaction::{PathStep, TransactionType};

verus! {

pub struct Payment {
    pub destination: String,
    pub deliver_max: Amount,
    pub deliver_min: Option<Amount>,
    pub destination_tag: Option<u32>,
    pub invoice_id: Option<String>,
    pub paths: Option<Vec<Vec<PathStep>>>,
    pub send_max: Option<Amount>,
}

pub type PaymentBuilder = TransactionBuilder<Payment>;

impl PaymentBuilder {
    /// A payment of `deliver_max` from `account` to `destination`.
    pub fn new(
        account: String,
        destination: String,
        sequence: u32,
        fee: Amount,
        deliver_max: Amount,
    ) -> (r: Self)
        ensures
            r == (TransactionBuilder {
                account,
                fee,
                sequence,
                account_txn_id: None,
                flags: None,
                last_ledger_sequence: None,
                memos: None,
                signers: None,
                source_tag: None,
                ticket_sequence: None,
                transaction_type: Payment {
                    destination,
                    deliver_max,
                    deliver_min: None,
                    destination_tag: None,
                    invoice_id: None,
                    paths: None,
                    send_max: None,
                },
            }),
    {
        Self::init(
            account,
            sequence,
            fee,
            Payment {
                destination,
                deliver_max,
                deliver_min: None,
                destination_tag: None,
                invoice_id: None,
                paths: None,
                send_max: None,
            },
        )
    }

    pub fn with_destination_tag(self, tag: u32) -> (r: Self)
        ensures
            r == (TransactionBuilder {
                transaction_type: Payment { destination_tag: Some(tag), ..self.transaction_type },
                ..self
            }),
    {
        let mut b = self;
        b.transaction_type.destination_tag = Some(tag);
        b
    }

    pub fn with_invoice_id(self, id: String) -> (r: Self)
        ensures
            r == (TransactionBuilder {
                transaction_type: Payment { invoice_id: Some(id), ..self.transaction_type },
                ..self
            }),
    {
        let mut b = self;
        b.transaction_type.invoice_id = Some(id);
        b
    }

    pub fn with_deliver_min(self, amount: Amount) -> (r: Self)
        ensures
            r == (TransactionBuilder {
                transaction_type: Payment { deliver_min: Some(amount), ..self.transaction_type },
                ..self
            }),
    {
        let mut b = self;
        b.transaction_type.deliver_min = Some(amount);
        b
    }

    pub fn with_send_max(self, amount: Amount) -> (r: Self)
        ensures
            r == (TransactionBuilder {
                transaction_type: Payment { send_max: Some(amount), ..self.transaction_type },
                ..self
            }),
    {
        let mut b = self;
        b.transaction_type.send_max = Some(amount);
        b
    }

    /// Appends one path to the payment's paths.
    pub fn add_path(self, path: Vec<PathStep>) -> (r: Self)
        ensures
            r == (TransactionBuilder {
                transaction_type: Payment {
                    paths: r.transaction_type.paths,
                    ..self.transaction_type
                },
                ..self
            }),
            r.transaction_type.paths matches Some(ps) && ps@ == match self.transaction_type.paths {
                Some(before) => before@.push(path),
                None => seq![path],
            },
    {
        let mut b = self;
        let mut paths = match b.transaction_type.paths.take() {
            Some(ps) => ps,
            None => Vec::new(),
        };
        paths.push(path);
        b.transaction_type.paths = Some(paths);
        b
    }
}

impl TransactionTypeBuilder for Payment {
    type TransactionType = TransactionType;

    /// The amount must be acceptable, then the destination must look like an address.
    open spec fn rejection(&self) -> Option<BuildFailure> {
        match amount_rejection(self.deliver_max) {
            Some(f) => Some(f),
            None => address_rejection(self.destination@, "destination"@),
        }
    }

    /// The amount is both `amount` and `deliver_max` of the payment.
    open spec fn made(self) -> TransactionType {
        TransactionType::Payment {
            amount: Some(self.deliver_max),
            deliver_max: Some(self.deliver_max),
            deliver_min: self.deliver_min,
            destination: self.destination,
            destination_tag: self.destination_tag,
            invoice_id: self.invoice_id,
            paths: self.paths,
            send_max: self.send_max,
        }
    }

    fn validate(&self) -> (r: Result<(), BuildError>) {
        match validate_amount(&self.deliver_max) {
            Ok(()) => {},
            Err(e) => return Err(e),
        }
        validate_address(self.destination.as_str(), "destination")
    }

    fn build_transaction_type(self) -> (r: Result<TransactionType, BuildError>) {
        Ok(
            TransactionType::Payment {
                amount: Some(self.deliver_max.duplicate()),
                deliver_max: Some(self.deliver_max),
                deliver_min: self.deliver_min,
                destination: self.destination,
                destination_tag: self.destination_tag,
                invoice_id: self.invoice_id,
                paths: self.paths,
                send_max: self.send_max,
            },
        )
    }
}

} // verus!
