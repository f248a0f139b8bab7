//! Amounts: XRP in drops, written as a decimal string, or a token value with
//! its currency code and issuer.
use vstd::prelude::*;
use vstd::string::StringExecFns;

verus! {

/// `c` is an ASCII decimal digit.
pub open spec fn is_digit(c: char) -> bool {
    '0' <= c && c <= '9'
}

/// The value of the decimal digits `s`, most significant first.
pub open spec fn digits_value(s: Seq<char>) -> nat
    decreases s.len(),
{
    if s.len() == 0 {
        0
    } else {
        digits_value(s.drop_last()) * 10 + ((s.last() as int) - ('0' as int)) as nat
    }
}

/// What `str::parse::<u64>` makes of `s`: an optional `+`, then one or more
/// decimal digits whose value fits in a `u64`.
pub open spec fn decimal_u64(s: Seq<char>) -> Option<u64> {
    let d = if s.len() > 0 && s[0] == '+' {
        s.drop_first()
    } else {
        s
    };
    if d.len() > 0 && (forall|i: int| 0 <= i < d.len() ==> is_digit(#[trigger] d[i])) && digits_value(
        d,
    ) <= u64::MAX {
        Some(digits_value(d) as u64)
    } else {
        None
    }
}

/// The digit character for `d < 10`.
pub open spec fn digit_char(d: nat) -> char {
    if d == 0 {
        '0'
    } else if d == 1 {
        '1'
    } else if d == 2 {
        '2'
    } else if d == 3 {
        '3'
    } else if d == 4 {
        '4'
    } else if d == 5 {
        '5'
    } else if d == 6 {
        '6'
    } else if d == 7 {
        '7'
    } else if d == 8 {
        '8'
    } else {
        '9'
    }
}

/// `n` in decimal, without leading zeros.
pub open spec fn decimal_text(n: nat) -> Seq<char>
    decreases n,
{
    if n < 10 {
        seq![digit_char(n)]
    } else {
        decimal_text(n / 10).push(digit_char(n % 10))
    }
}

/// Relies on `str::parse::<u64>`, documented to accept exactly an optional
/// `+` followed by decimal digits whose value fits.
#[verifier::external_body]
fn parse_u64(s: &str) -> (r: Option<u64>)
    ensures
        r == decimal_u64(s@),
{
    s.parse::<u64>().ok()
}

/// Relies on `u64`'s `Display`: the decimal digits, no sign, no leading zeros.
#[verifier::external_body]
fn u64_text(n: u64) -> (r: String)
    ensures
        r@ == decimal_text(n as nat),
{
    n.to_string()
}

/// Relies on `i64`'s `Display`: a `-` for negatives, then the decimal digits
/// of the magnitude.
#[verifier::external_body]
fn i64_text(n: i64) -> (r: String)
    ensures
        r@ == if n < 0 {
            seq!['-'] + decimal_text((-n) as nat)
        } else {
            decimal_text(n as nat)
        },
{
    n.to_string()
}

/// Joins three pieces of text.
fn join3(a: &str, b: &str, c: &str) -> (r: String)
    ensures
        r@ == a@ + b@ + c@,
{
    let mut r = String::from_str(a);
    r.append(b);
    r.append(c);
    r
}

#[derive(Debug, Clone, PartialEq)]
pub enum Amount {
    /// XRP, in drops.
    Xrpl(String),
    /// A token: its value, three-letter currency code and issuing account.
    IssuedCurrency { value: String, currency: String, issuer: String },
}

impl Default for Amount {
    fn default() -> (r: Amount)
        ensures
            r matches Amount::Xrpl(v) && v@ == seq!['0'],
    {
        proof {
            reveal_strlit("0");
        }
        Amount::Xrpl(String::from_str("0"))
    }
}

/// Whether every character of `s` is a decimal digit.
pub open spec fn all_digits(s: Seq<char>) -> bool {
    forall|i: int| 0 <= i < s.len() ==> is_digit(#[trigger] s[i])
}

impl Amount {
    /// An XRP amount of `value` drops; `value` must read as a `u64`.
    pub fn drops(value: &str) -> (r: Result<Amount, String>)
        ensures
            decimal_u64(value@) is Some ==> (r matches Ok(Amount::Xrpl(v)) && v@ == value@),
            decimal_u64(value@) is None ==> (r matches Err(e) && e@ == "Failed to parse '"@
                + value@ + "' as drops"@),
    {
        match parse_u64(value) {
            Some(_) => Ok(Amount::Xrpl(String::from_str(value))),
            None => Err(join3("Failed to parse '", value, "' as drops")),
        }
    }

    /// An XRP amount of `drops` drops.
    pub fn from_drops(drops: u64) -> (r: Amount)
        ensures
            r matches Amount::Xrpl(v) && v@ == decimal_text(drops as nat),
    {
        Amount::Xrpl(u64_text(drops))
    }

    /// An XRP amount of `drops` drops, written with its sign.
    pub fn from_signed_drops(drops: i64) -> (r: Amount)
        ensures
            r matches Amount::Xrpl(v) && v@ == if drops < 0 {
                seq!['-'] + decimal_text((-drops) as nat)
            } else {
                decimal_text(drops as nat)
            },
    {
        Amount::Xrpl(i64_text(drops))
    }

    /// The amount's value as written.
    pub fn value(&self) -> (r: &str)
        ensures
            r@ == match self {
                Amount::Xrpl(v) => v@,
                Amount::IssuedCurrency { value, .. } => value@,
            },
    {
        match self {
            Amount::Xrpl(value) => value.as_str(),
            Amount::IssuedCurrency { value, .. } => value.as_str(),
        }
    }

    /// `"XRP"`, or the token's currency code.
    pub fn currency(&self) -> (r: &str)
        ensures
            r@ == match self {
                Amount::Xrpl(_) => "XRP"@,
                Amount::IssuedCurrency { currency, .. } => currency@,
            },
    {
        match self {
            Amount::Xrpl(_) => "XRP",
            Amount::IssuedCurrency { currency, .. } => currency.as_str(),
        }
    }

    /// The number of drops of an XRP amount whose value reads as a `u64`.
    pub fn to_drops(&self) -> (r: Option<u64>)
        ensures
            r == match self {
                Amount::Xrpl(v) => decimal_u64(v@),
                Amount::IssuedCurrency { .. } => None,
            },
    {
        match self {
            Amount::Xrpl(value) => parse_u64(value.as_str()),
            Amount::IssuedCurrency { .. } => None,
        }
    }

    /// The number of drops, or why there is none.
    pub fn into_drops(self) -> (r: Result<u64, String>)
        ensures
            match self {
                Amount::Xrpl(v) => match decimal_u64(v@) {
                    Some(n) => r == Ok::<u64, String>(n),
                    None => r matches Err(e) && e@ == "Invalid XRP amount"@,
                },
                Amount::IssuedCurrency { .. } => r matches Err(e) && e@
                    == "Cannot convert issued currency to u64"@,
            },
    {
        match self {
            Amount::Xrpl(value) => match parse_u64(value.as_str()) {
                Some(n) => Ok(n),
                None => Err(String::from_str("Invalid XRP amount")),
            },
            Amount::IssuedCurrency { .. } => Err(
                String::from_str("Cannot convert issued currency to u64"),
            ),
        }
    }

    /// An XRP amount from text made of decimal digits only.
    pub fn parse_drops_text(s: &str) -> (r: Result<Amount, String>)
        ensures
            all_digits(s@) ==> (r matches Ok(Amount::Xrpl(v)) && v@ == s@),
            !all_digits(s@) ==> (r matches Err(e) && e@ == "Cannot parse '"@ + s@
                + "' as Amount"@),
    {
        let n = s.unicode_len();
        let mut i: usize = 0;
        while i < n
            invariant
                n == s@.len(),
                i <= n,
                forall|j: int| 0 <= j < i ==> is_digit(#[trigger] s@[j]),
            decreases n - i,
        {
            let c = s.get_char(i);
            if !('0' <= c && c <= '9') {
                return Err(join3("Cannot parse '", s, "' as Amount"));
            }
            i = i + 1;
        }
        Ok(Amount::Xrpl(String::from_str(s)))
    }

    /// A copy of this amount.
    pub fn duplicate(&self) -> (r: Amount)
        ensures
            r == *self,
    {
        match self {
            Amount::Xrpl(v) => Amount::Xrpl(v.clone()),
            Amount::IssuedCurrency { value, currency, issuer } => Amount::IssuedCurrency {
                value: value.clone(),
                currency: currency.clone(),
                issuer: issuer.clone(),
            },
        }
    }
}

// The conversions below promise nothing beyond what the named functions
// they call state: `from_drops`, `from_signed_drops`, `into_drops`.
impl From<u64> for Amount {
    fn from(drops: u64) -> (r: Amount) {
        Amount::from_drops(drops)
    }
}

impl vstd::std_specs::convert::FromSpecImpl<u64> for Amount {
    open spec fn obeys_from_spec() -> bool {
        false
    }

    open spec fn from_spec(v: u64) -> Amount {
        arbitrary()
    }
}

impl From<i64> for Amount {
    fn from(drops: i64) -> (r: Amount) {
        Amount::from_signed_drops(drops)
    }
}

impl vstd::std_specs::convert::FromSpecImpl<i64> for Amount {
    open spec fn obeys_from_spec() -> bool {
        false
    }

    open spec fn from_spec(v: i64) -> Amount {
        arbitrary()
    }
}

impl std::str::FromStr for Amount {
    type Err = String;

    fn from_str(s: &str) -> (r: Result<Amount, String>) {
        Amount::parse_drops_text(s)
    }
}

impl TryFrom<Amount> for u64 {
    type Error = String;

    fn try_from(amount: Amount) -> (r: Result<u64, String>) {
        amount.into_drops()
    }
}

impl vstd::std_specs::convert::TryFromSpecImpl<Amount> for u64 {
    open spec fn obeys_try_from_spec() -> bool {
        false
    }

    open spec fn try_from_spec(v: Amount) -> Result<u64, String> {
        arbitrary()
    }
}

} // verus!
