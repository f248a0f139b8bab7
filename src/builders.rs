//! Transaction builders: the fields every transaction has, validation, and
//! one builder per transaction kind.
use vstd::prelude::*;
use vstd::string::{StrSliceExecFns, StringExecFns};
use vstd::utf8::encode_utf8;

use crate::amount::Amount;
use crate::transaction::{Memo, MemoWrapper, Signer, SignerWrapper, Transaction, TransactionType};

pub mod nftoken_mint;
pub mod offer_create;
pub mod payment;
pub mod trust_set;

verus! {

/// Why a transaction could not be built.
#[derive(Debug)]
pub enum BuildError {
    FeeNotXRP,
    InvalidAmount(String),
    InvalidField(String),
}

/// `BuildError` with its messages as character sequences.
pub enum BuildFailure {
    FeeNotXRP,
    InvalidAmount(Seq<char>),
    InvalidField(Seq<char>),
}

impl View for BuildError {
    type V = BuildFailure;

    open spec fn view(&self) -> BuildFailure {
        match self {
            BuildError::FeeNotXRP => BuildFailure::FeeNotXRP,
            BuildError::InvalidAmount(m) => BuildFailure::InvalidAmount(m@),
            BuildError::InvalidField(m) => BuildFailure::InvalidField(m@),
        }
    }
}

/// The outcome of a validation as its contract states it: `None` when the
/// fields are accepted, the failure otherwise.
pub open spec fn outcome_matches(r: Result<(), BuildError>, expected: Option<BuildFailure>) -> bool {
    match r {
        Ok(_) => expected is None,
        Err(e) => expected == Some(e@),
    }
}

/// An account address as the builders accept it: starts with `r` and is
/// 25 to 34 bytes long.
pub open spec fn address_ok(a: Seq<char>) -> bool {
    &&& a.len() > 0
    &&& a[0] == 'r'
    &&& 25 <= encode_utf8(a).len() <= 34
}

/// The failure for a malformed address in the field named `field`.
pub open spec fn address_failure(field: Seq<char>) -> BuildFailure {
    BuildFailure::InvalidField("Invalid "@ + field + " address"@)
}

pub open spec fn address_rejection(a: Seq<char>, field: Seq<char>) -> Option<BuildFailure> {
    if address_ok(a) {
        None
    } else {
        Some(address_failure(field))
    }
}

/// Whether `c` is a three-letter code of ASCII capitals.
pub open spec fn currency_code_ok(c: Seq<char>) -> bool {
    c.len() == 3 && forall|i: int| 0 <= i < 3 ==> 'A' <= #[trigger] c[i] && c[i] <= 'Z'
}

/// Why an amount is refused, or `None` when it is acceptable.
pub open spec fn amount_rejection(a: Amount) -> Option<BuildFailure> {
    match a {
        Amount::Xrpl(v) => if v@.len() == 0 || v@ == "0"@ {
            Some(BuildFailure::InvalidAmount("XRP amount cannot be zero or empty"@))
        } else {
            None
        },
        Amount::IssuedCurrency { value, currency, issuer } => if value@.len() == 0 || value@
            == "0"@ {
            Some(BuildFailure::InvalidAmount("Token value cannot be zero or empty"@))
        } else if !currency_code_ok(currency@) {
            Some(BuildFailure::InvalidField("Currency must be exactly 3 uppercase ASCII characters"@))
        } else if currency@ == "XRP"@ {
            Some(BuildFailure::InvalidField("Currency code XRP is not allowed for issued currencies"@))
        } else {
            address_rejection(issuer@, "issuer"@)
        },
    }
}

/// Checks that `address` looks like an account address; `field` names it in the error.
pub fn validate_address(address: &str, field: &str) -> (r: Result<(), BuildError>)
    ensures
        outcome_matches(r, address_rejection(address@, field@)),
{
    let byte_len = address.as_bytes().len();
    if address.is_empty() || address.get_char(0) != 'r' || byte_len < 25 || byte_len > 34 {
        let mut message = String::from_str("Invalid ");
        message.append(field);
        message.append(" address");
        return Err(BuildError::InvalidField(message));
    }
    Ok(())
}

/// Whether `s` is exactly `"0"`.
fn is_zero_text(s: &str) -> (r: bool)
    ensures
        r == (s@ == "0"@),
{
    proof {
        reveal_strlit("0");
    }
    let n = s.unicode_len();
    if n != 1 {
        return false;
    }
    let c = s.get_char(0);
    if c == '0' {
        assert(s@ =~= "0"@);
    }
    c == '0'
}

/// Whether `s` is exactly `"XRP"`, given that it is a three-letter code.
fn is_xrp_code(s: &str) -> (r: bool)
    requires
        s@.len() == 3,
    ensures
        r == (s@ == "XRP"@),
{
    proof {
        reveal_strlit("XRP");
    }
    let r = s.get_char(0) == 'X' && s.get_char(1) == 'R' && s.get_char(2) == 'P';
    if r {
        assert(s@ =~= "XRP"@);
    }
    r
}

/// Whether `c` is a three-letter code of ASCII capitals.
fn is_currency_code(c: &str) -> (r: bool)
    ensures
        r == currency_code_ok(c@),
{
    let n = c.unicode_len();
    if n != 3 {
        return false;
    }
    let mut i: usize = 0;
    while i < 3
        invariant
            n == 3,
            c@.len() == 3,
            i <= 3,
            forall|j: int| 0 <= j < i ==> 'A' <= #[trigger] c@[j] && c@[j] <= 'Z',
        decreases 3 - i,
    {
        let ch = c.get_char(i);
        if !('A' <= ch && ch <= 'Z') {
            return false;
        }
        i = i + 1;
    }
    true
}

/// Checks that an amount is non-zero and, for a token, that its currency
/// code and issuer are well formed.
pub fn validate_amount(amount: &Amount) -> (r: Result<(), BuildError>)
    ensures
        outcome_matches(r, amount_rejection(*amount)),
{
    match amount {
        Amount::Xrpl(value) => {
            if value.as_str().is_empty() || is_zero_text(value.as_str()) {
                return Err(
                    BuildError::InvalidAmount(
                        String::from_str("XRP amount cannot be zero or empty"),
                    ),
                );
            }
            Ok(())
        },
        Amount::IssuedCurrency { value, currency, issuer } => {
            if value.as_str().is_empty() || is_zero_text(value.as_str()) {
                return Err(
                    BuildError::InvalidAmount(
                        String::from_str("Token value cannot be zero or empty"),
                    ),
                );
            }
            if !is_currency_code(currency.as_str()) {
                return Err(
                    BuildError::InvalidField(
                        String::from_str("Currency must be exactly 3 uppercase ASCII characters"),
                    ),
                );
            }
            if is_xrp_code(currency.as_str()) {
                return Err(
                    BuildError::InvalidField(
                        String::from_str("Currency code XRP is not allowed for issued currencies"),
                    ),
                );
            }
            validate_address(issuer.as_str(), "issuer")
        },
    }
}

/// The fields every transaction has, plus the kind-specific builder `T`.
pub struct TransactionBuilder<T> {
    pub account: String,
    pub fee: Amount,
    pub sequence: u32,
    pub account_txn_id: Option<String>,
    pub flags: Option<u32>,
    pub last_ledger_sequence: Option<u32>,
    pub memos: Option<Vec<MemoWrapper>>,
    pub signers: Option<Vec<SignerWrapper>>,
    pub source_tag: Option<u32>,
    pub ticket_sequence: Option<u32>,
    pub transaction_type: T,
}

/// The kind-specific part of a builder: its checks and the kind it makes.
pub trait TransactionTypeBuilder: Sized {
    type TransactionType;

    /// Why the fields are refused, or `None` when they are acceptable.
    spec fn rejection(&self) -> Option<BuildFailure>;

    /// The transaction kind these fields make.
    spec fn made(self) -> Self::TransactionType;

    fn validate(&self) -> (r: Result<(), BuildError>)
        ensures
            outcome_matches(r, self.rejection()),
    ;

    fn build_transaction_type(self) -> (r: Result<Self::TransactionType, BuildError>)
        ensures
            r matches Ok(t) && t == self.made(),
    ;
}

/// Wraps each memo, keeping the order.
fn wrap_memos(memos: Vec<Memo>) -> (r: Vec<MemoWrapper>)
    ensures
        r@.len() == memos@.len(),
        forall|i: int| 0 <= i < r@.len() ==> (#[trigger] r@[i]).memo == memos@[i],
{
    let ghost all = memos@;
    let mut rest = memos;
    let mut out: Vec<MemoWrapper> = Vec::new();
    while rest.len() > 0
        invariant
            out@.len() + rest@.len() == all.len(),
            forall|i: int| 0 <= i < out@.len() ==> (#[trigger] out@[i]).memo == all[i],
            forall|j: int| 0 <= j < rest@.len() ==> #[trigger] rest@[j] == all[out@.len() + j],
        decreases rest@.len(),
    {
        let memo = rest.remove(0);
        out.push(MemoWrapper { memo });
    }
    out
}

/// Wraps each signer, keeping the order.
fn wrap_signers(signers: Vec<Signer>) -> (r: Vec<SignerWrapper>)
    ensures
        r@.len() == signers@.len(),
        forall|i: int| 0 <= i < r@.len() ==> (#[trigger] r@[i]).signer == signers@[i],
{
    let ghost all = signers@;
    let mut rest = signers;
    let mut out: Vec<SignerWrapper> = Vec::new();
    while rest.len() > 0
        invariant
            out@.len() + rest@.len() == all.len(),
            forall|i: int| 0 <= i < out@.len() ==> (#[trigger] out@[i]).signer == all[i],
            forall|j: int| 0 <= j < rest@.len() ==> #[trigger] rest@[j] == all[out@.len() + j],
        decreases rest@.len(),
    {
        let signer = rest.remove(0);
        out.push(SignerWrapper { signer });
    }
    out
}

impl<T: TransactionTypeBuilder<TransactionType = TransactionType>> TransactionBuilder<T> {
    /// A builder with the required fields set and every optional one unset.
    pub fn init(account: String, sequence: u32, fee: Amount, transaction_type: T) -> (r: Self)
        ensures
            r == (TransactionBuilder {
                account,
                fee,
                sequence,
                account_txn_id: None,
                flags: None,
                last_ledger_sequence: None,
                memos: None,
                signers: None,
                source_tag: None,
                ticket_sequence: None,
                transaction_type,
            }),
    {
        TransactionBuilder {
            account,
            fee,
            sequence,
            account_txn_id: None,
            flags: None,
            last_ledger_sequence: None,
            memos: None,
            signers: None,
            source_tag: None,
            ticket_sequence: None,
            transaction_type,
        }
    }

    pub fn with_flags(self, flags: u32) -> (r: Self)
        ensures
            r == (TransactionBuilder { flags: Some(flags), ..self }),
    {
        TransactionBuilder { flags: Some(flags), ..self }
    }

    pub fn with_last_ledger_sequence(self, sequence: u32) -> (r: Self)
        ensures
            r == (TransactionBuilder { last_ledger_sequence: Some(sequence), ..self }),
    {
        TransactionBuilder { last_ledger_sequence: Some(sequence), ..self }
    }

    /// Sets the memos, each wrapped, in the order given.
    pub fn with_memos(self, memos: Vec<Memo>) -> (r: Self)
        ensures
            r == (TransactionBuilder { memos: r.memos, ..self }),
            r.memos matches Some(w) && w@.len() == memos@.len() && forall|i: int|
                0 <= i < w@.len() ==> (#[trigger] w@[i]).memo == memos@[i],
    {
        TransactionBuilder { memos: Some(wrap_memos(memos)), ..self }
    }

    /// Sets the signers, each wrapped, in the order given.
    pub fn with_signers(self, signers: Vec<Signer>) -> (r: Self)
        ensures
            r == (TransactionBuilder { signers: r.signers, ..self }),
            r.signers matches Some(w) && w@.len() == signers@.len() && forall|i: int|
                0 <= i < w@.len() ==> (#[trigger] w@[i]).signer == signers@[i],
    {
        TransactionBuilder { signers: Some(wrap_signers(signers)), ..self }
    }

    pub fn with_source_tag(self, tag: u32) -> (r: Self)
        ensures
            r == (TransactionBuilder { source_tag: Some(tag), ..self }),
    {
        TransactionBuilder { source_tag: Some(tag), ..self }
    }

    pub fn with_ticket_sequence(self, sequence: u32) -> (r: Self)
        ensures
            r == (TransactionBuilder { ticket_sequence: Some(sequence), ..self }),
    {
        TransactionBuilder { ticket_sequence: Some(sequence), ..self }
    }

    pub fn with_account_txn_id(self, id: String) -> (r: Self)
        ensures
            r == (TransactionBuilder { account_txn_id: Some(id), ..self }),
    {
        TransactionBuilder { account_txn_id: Some(id), ..self }
    }

    /// Why `build` refuses these fields, or `None` when it accepts them: the
    /// fee must be XRP, then the account must look like an address, then the
    /// kind's own checks apply.
    pub open spec fn rejection(&self) -> Option<BuildFailure> {
        if self.fee is IssuedCurrency {
            Some(BuildFailure::FeeNotXRP)
        } else if !address_ok(self.account@) {
            Some(address_failure("account"@))
        } else {
            self.transaction_type.rejection()
        }
    }

    /// Checks the fields and makes the transaction, unsigned.
    pub fn build(self) -> (r: Result<Transaction, BuildError>)
        ensures
            match r {
                Ok(tx) => {
                    &&& self.rejection() is None
                    &&& self.fee == Amount::Xrpl(tx.fee)
                    &&& tx == (Transaction {
                        account: self.account,
                        account_txn_id: self.account_txn_id,
                        fee: tx.fee,
                        flags: self.flags,
                        last_ledger_sequence: self.last_ledger_sequence,
                        memos: self.memos,
                        sequence: self.sequence,
                        signers: self.signers,
                        source_tag: self.source_tag,
                        ticket_sequence: self.ticket_sequence,
                        signing_pub_key: None,
                        txn_signature: None,
                        hash: None,
                        transaction_type: self.transaction_type.made(),
                    })
                },
                Err(e) => self.rejection() == Some(e@),
            },
    {
        let fee = match self.fee {
            Amount::IssuedCurrency { .. } => return Err(BuildError::FeeNotXRP),
            Amount::Xrpl(value) => value,
        };
        match validate_address(self.account.as_str(), "account") {
            Ok(()) => {},
            Err(e) => return Err(e),
        }
        match self.transaction_type.validate() {
            Ok(()) => {},
            Err(e) => return Err(e),
        }
        let transaction_type = match self.transaction_type.build_transaction_type() {
            Ok(t) => t,
            Err(e) => return Err(e),
        };
        Ok(Transaction {
            account: self.account,
            account_txn_id: self.account_txn_id,
            fee,
            flags: self.flags,
            last_ledger_sequence: self.last_ledger_sequence,
            memos: self.memos,
            sequence: self.sequence,
            signers: self.signers,
            source_tag: self.source_tag,
            ticket_sequence: self.ticket_sequence,
            signing_pub_key: None,
            txn_signature: None,
            hash: None,
            transaction_type,
        })
    }
}

} // verus!
