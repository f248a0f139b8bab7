//! Minting a non-fungible token.
use vstd::prelude::*;
use vstd::utf8::encode_utf8;

use crate::amount::Amount;
use crate::builders::{
    BuildError, BuildFailure, TransactionBuilder, TransactionTypeBuilder,
};
use crate::transaction::TransactionType;

verus! {

/// Largest transfer fee, in units of 1/100000 (so 50%).
pub const MAX_TRANSFER_FEE: u32 = 50000;

/// Longest URI, in bytes.
pub const MAX_URI_BYTES: usize = 512;

pub struct NFTokenMint {
    pub nftoken_taxon: u32,
    pub issuer: Option<String>,
    pub transfer_fee: Option<u32>,
    pub uri: Option<String>,
}

pub type NFTokenMintBuilder = TransactionBuilder<NFTokenMint>;

impl NFTokenMintBuilder {
    /// A mint by `account` in the taxon `nftoken_taxon`.
    pub fn new(account: String, sequence: u32, fee: Amount, nftoken_taxon: u32) -> (r: Self)
        ensures
            r == (TransactionBuilder {
                account,
                fee,
                sequence,
                account_txn_id: None,
                flags: None,
                last_ledger_sequence: None,
                memos: None,
                signers: None,
                source_tag: None,
                ticket_sequence: None,
                transaction_type: NFTokenMint {
                    nftoken_taxon,
                    issuer: None,
                    transfer_fee: None,
                    uri: None,
                },
            }),
    {
        Self::init(
            account,
            sequence,
            fee,
            NFTokenMint { nftoken_taxon, issuer: None, transfer_fee: None, uri: None },
        )
    }

    pub fn with_issuer(self, issuer: String) -> (r: Self)
        ensures
            r == (TransactionBuilder {
                transaction_type: NFTokenMint { issuer: Some(issuer), ..self.transaction_type },
                ..self
            }),
    {
        let mut b = self;
        b.transaction_type.issuer = Some(issuer);
        b
    }

    pub fn with_transfer_fee(self, transfer_fee: u32) -> (r: Self)
        ensures
            r == (TransactionBuilder {
                transaction_type: NFTokenMint {
                    transfer_fee: Some(transfer_fee),
                    ..self.transaction_type
                },
                ..self
            }),
    {
        let mut b = self;
        b.transaction_type.transfer_fee = Some(transfer_fee);
        b
    }

    pub fn with_uri(self, uri: String) -> (r: Self)
        ensures
            r == (TransactionBuilder {
                transaction_type: NFTokenMint { uri: Some(uri), ..self.transaction_type },
                ..self
            }),
    {
        let mut b = self;
        b.transaction_type.uri = Some(uri);
        b
    }
}

impl TransactionTypeBuilder for NFTokenMint {
    type TransactionType = TransactionType;

    /// The transfer fee, when set, is at most 50%; the URI, when set, is not
    /// empty and at most 512 bytes long.
    open spec fn rejection(&self) -> Option<BuildFailure> {
        if self.transfer_fee matches Some(f) && f > MAX_TRANSFER_FEE {
            Some(BuildFailure::InvalidField("transfer_fee cannot exceed 50000 (50%)"@))
        } else if self.uri matches Some(u) && u@.len() == 0 {
            Some(BuildFailure::InvalidField("URI cannot be empty if provided"@))
        } else if self.uri matches Some(u) && encode_utf8(u@).len() > MAX_URI_BYTES {
            Some(BuildFailure::InvalidField("URI cannot exceed 512 characters"@))
        } else {
            None
        }
    }

    open spec fn made(self) -> TransactionType {
        TransactionType::NFTokenMint {
            nftoken_taxon: self.nftoken_taxon,
            issuer: self.issuer,
            transfer_fee: self.transfer_fee,
            uri: self.uri,
        }
    }

    fn validate(&self) -> (r: Result<(), BuildError>) {
        if let Some(transfer_fee) = self.transfer_fee {
            if transfer_fee > MAX_TRANSFER_FEE {
                return Err(
                    BuildError::InvalidField("transfer_fee cannot exceed 50000 (50%)".to_string()),
                );
            }
        }
        if let Some(uri) = &self.uri {
            if uri.as_str().is_empty() {
                return Err(BuildError::InvalidField("URI cannot be empty if provided".to_string()));
            }
            if uri.as_str().as_bytes().len() > MAX_URI_BYTES {
                return Err(BuildError::InvalidField("URI cannot exceed 512 characters".to_string()));
            }
        }
        Ok(())
    }

    fn build_transaction_type(self) -> (r: Result<TransactionType, BuildError>) {
        Ok(
            TransactionType::NFTokenMint {
                nftoken_taxon: self.nftoken_taxon,
                issuer: self.issuer,
                transfer_fee: self.transfer_fee,
                uri: self.uri,
            },
        )
    }
}

} // verus!
