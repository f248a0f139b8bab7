use xrpl::amount::Amount;

#[test]
fn drops_must_read_as_a_number() {
    assert_eq!(Amount::drops("1000000"), Ok(Amount::Xrpl("1000000".to_string())));
    assert_eq!(Amount::drops("1.5"), Err("Failed to parse '1.5' as drops".to_string()));
    assert!(Amount::drops("18446744073709551616").is_err());
    assert!(Amount::drops("18446744073709551615").is_ok());
}

#[test]
fn conversions_without_floats() {
    let a = Amount::from(1_000_000u64);
    let b = Amount::from(1_000_000i64);
    assert_eq!(a, b);
    assert_eq!(Amount::from(-5i64), Amount::Xrpl("-5".to_string()));
    assert_eq!(a.to_drops(), Some(1_000_000));
    assert_eq!(a.currency(), "XRP");
    assert_eq!(a.value(), "1000000");
    let drops: u64 = a.clone().try_into().unwrap();
    assert_eq!(drops, 1_000_000);
    assert_eq!(Amount::default(), Amount::Xrpl("0".to_string()));
    assert_eq!(Amount::from(0u64).to_drops(), Some(0));
}

#[test]
fn token_amounts() {
    let usd = Amount::IssuedCurrency {
        value: "100.5".to_string(),
        currency: "USD".to_string(),
        issuer: "rXXXXXXXXXXXXXXXXXXXXXXXXXXXX".to_string(),
    };
    assert_eq!(usd.currency(), "USD");
    assert_eq!(usd.value(), "100.5");
    assert_eq!(usd.to_drops(), None);
    let r: Result<u64, String> = usd.try_into();
    assert_eq!(r, Err("Cannot convert issued currency to u64".to_string()));
}

#[test]
fn parsing_digit_text() {
    let a: Amount = "12345".parse().unwrap();
    assert_eq!(a, Amount::Xrpl("12345".to_string()));
    let e: Result<Amount, String> = "12a".parse();
    assert_eq!(e, Err("Cannot parse '12a' as Amount".to_string()));
    assert_eq!(Amount::Xrpl("+7".to_string()).to_drops(), Some(7));
    assert_eq!(Amount::Xrpl("".to_string()).to_drops(), None);
}
