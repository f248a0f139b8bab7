use xrpl::amount::Amount;
use xrpl::builders::nftoken_mint::NFTokenMintBuilder;
use xrpl::builders::offer_create::OfferCreateBuilder;
use xrpl::builders::payment::PaymentBuilder;
use xrpl::builders::trust_set::TrustSetBuilder;
use xrpl::builders::{validate_address, validate_amount, BuildError};
use xrpl::transaction::{Memo, PathStep, TransactionType};

const SEQUENCE: u32 = 1;
const ACCOUNT: &str = "rHb9CJAWyB4rj91VRWn96DkukG4bwdtyTh";
const DESTINATION: &str = "rPT1Sjq2YGrBMTttX4GZHjKu9dyfzbpAYe";

fn one_xrp() -> Amount {
    Amount::from(1_000_000u64)
}

#[test]
fn test_nftoken_mint_basic() {
    let mint = NFTokenMintBuilder::new(ACCOUNT.to_string(), SEQUENCE, Amount::from(10u64), 0)
        .build()
        .expect("Should build valid NFT mint");

    if let TransactionType::NFTokenMint { nftoken_taxon, .. } = mint.transaction_type {
        assert_eq!(nftoken_taxon, 0);
    } else {
        panic!("Expected NFTokenMint transaction type");
    }
}

#[test]
fn test_nftoken_mint_with_transfer_fee() {
    let mint = NFTokenMintBuilder::new(ACCOUNT.to_string(), SEQUENCE, Amount::from(10u64), 0)
        .with_transfer_fee(5000)
        .build()
        .expect("Should build valid NFT mint with transfer fee");

    if let TransactionType::NFTokenMint { transfer_fee, .. } = mint.transaction_type {
        assert_eq!(transfer_fee, Some(5000));
    } else {
        panic!("Expected NFTokenMint transaction type");
    }
}

#[test]
fn test_nftoken_mint_transfer_fee_too_high() {
    let result = NFTokenMintBuilder::new(ACCOUNT.to_string(), SEQUENCE, Amount::from(10u64), 0)
        .with_transfer_fee(50_001)
        .build();

    assert!(matches!(result, Err(BuildError::InvalidField(_))));
}

#[test]
fn test_nftoken_mint_with_uri() {
    let mint = NFTokenMintBuilder::new(ACCOUNT.to_string(), SEQUENCE, Amount::from(10u64), 0)
        .with_uri("68747470733a2f2f6578616d706c652e636f6d2f6e6674".to_string())
        .build()
        .expect("Should build valid NFT mint with URI");

    if let TransactionType::NFTokenMint { uri, .. } = mint.transaction_type {
        assert!(uri.is_some());
    } else {
        panic!("Expected NFTokenMint transaction type");
    }
}

#[test]
fn test_nftoken_mint_invalid_account() {
    let result =
        NFTokenMintBuilder::new("not_an_address".to_string(), SEQUENCE, Amount::from(10u64), 0)
            .build();

    assert!(matches!(result, Err(BuildError::InvalidField(_))));
}

fn usd(value: &str, issuer: &str) -> Amount {
    Amount::IssuedCurrency {
        value: value.to_string(),
        currency: "USD".to_string(),
        issuer: issuer.to_string(),
    }
}

#[test]
fn test_offer_create_builder_xrp_to_iou() {
    let offer = OfferCreateBuilder::new(
        ACCOUNT.to_string(),
        SEQUENCE,
        Amount::from(10u64),
        Amount::from(1_000_000u64),
        usd("100", DESTINATION),
    )
    .build()
    .expect("Should build valid offer");

    if let TransactionType::OfferCreate { taker_gets, taker_pays, .. } = offer.transaction_type {
        assert_eq!(taker_gets, Amount::Xrpl("1000000".to_string()));
        if let Amount::IssuedCurrency { currency, .. } = taker_pays {
            assert_eq!(currency, "USD");
        } else {
            panic!("Expected IssuedCurrency for taker_pays");
        }
    } else {
        panic!("Expected OfferCreate transaction type");
    }
}

#[test]
fn test_offer_create_builder_with_expiration() {
    let offer = OfferCreateBuilder::new(
        ACCOUNT.to_string(),
        SEQUENCE,
        Amount::from(10u64),
        Amount::from(1_000_000u64),
        usd("100", DESTINATION),
    )
    .with_expiration(12345)
    .build()
    .expect("Should build valid offer with expiration");

    if let TransactionType::OfferCreate { expiration, .. } = offer.transaction_type {
        assert_eq!(expiration, Some(12345));
    } else {
        panic!("Expected OfferCreate transaction type");
    }
}

#[test]
fn test_offer_create_builder_invalid_account() {
    let result = OfferCreateBuilder::new(
        "not_an_address".to_string(),
        SEQUENCE,
        Amount::from(10u64),
        Amount::from(1_000_000u64),
        usd("100", DESTINATION),
    )
    .build();

    assert!(matches!(result, Err(BuildError::InvalidField(_))));
}

#[test]
fn test_payment_builder_basic() {
    let payment = PaymentBuilder::new(
        ACCOUNT.to_string(),
        DESTINATION.to_string(),
        SEQUENCE,
        Amount::from(10u64),
        one_xrp(),
    )
    .build()
    .expect("Should build valid payment");

    assert_eq!(payment.sequence, 1);
    assert_eq!(payment.fee, "10");

    if let TransactionType::Payment { destination, amount, deliver_max, .. } =
        payment.transaction_type
    {
        assert_eq!(destination, DESTINATION);
        assert_eq!(amount, deliver_max);
        assert_eq!(amount, Some(Amount::Xrpl("1000000".to_string())));
    } else {
        panic!("Expected Payment transaction type");
    }
}

#[test]
fn test_payment_builder_with_memo() {
    let memo = Memo {
        memo_data: Some("48656c6c6f".to_string()),
        memo_format: None,
        memo_type: None,
    };

    let payment = PaymentBuilder::new(
        ACCOUNT.to_string(),
        DESTINATION.to_string(),
        SEQUENCE,
        Amount::from(10u64),
        one_xrp(),
    )
    .with_memos(vec![memo])
    .build()
    .expect("Should build valid payment");

    assert_eq!(payment.memos.unwrap().len(), 1);
}

#[test]
fn test_payment_builder_with_destination_tag() {
    let payment = PaymentBuilder::new(
        ACCOUNT.to_string(),
        DESTINATION.to_string(),
        SEQUENCE,
        Amount::from(10u64),
        one_xrp(),
    )
    .with_destination_tag(12345)
    .build()
    .expect("Should build valid payment");

    if let TransactionType::Payment { destination_tag, .. } = payment.transaction_type {
        assert_eq!(destination_tag, Some(12345));
    } else {
        panic!("Expected Payment transaction type");
    }
}

#[test]
fn test_payment_builder_invalid_account() {
    let result = PaymentBuilder::new(
        "not_an_address".to_string(),
        DESTINATION.to_string(),
        SEQUENCE,
        Amount::from(10u64),
        one_xrp(),
    )
    .build();

    assert!(matches!(result, Err(BuildError::InvalidField(_))));
}

#[test]
fn test_payment_builder_invalid_destination() {
    let result = PaymentBuilder::new(
        ACCOUNT.to_string(),
        "not_an_address".to_string(),
        SEQUENCE,
        Amount::from(10u64),
        one_xrp(),
    )
    .build();

    assert!(matches!(result, Err(BuildError::InvalidField(_))));
}

#[test]
fn test_payment_builder_with_issued_currency() {
    let payment = PaymentBuilder::new(
        ACCOUNT.to_string(),
        DESTINATION.to_string(),
        SEQUENCE,
        Amount::from(10u64),
        usd("100.50", ACCOUNT),
    )
    .build()
    .expect("Should build valid payment with issued currency");

    if let TransactionType::Payment { amount, .. } = payment.transaction_type {
        if let Some(Amount::IssuedCurrency { value, currency, issuer }) = amount {
            assert_eq!(value, "100.50");
            assert_eq!(currency, "USD");
            assert_eq!(issuer, ACCOUNT);
        } else {
            panic!("Expected IssuedCurrency amount");
        }
    } else {
        panic!("Expected Payment transaction type");
    }
}

#[test]
fn test_trust_set_builder_basic() {
    let trust_set = TrustSetBuilder::new(
        ACCOUNT.to_string(),
        SEQUENCE,
        Amount::from(10u64),
        usd("1000", DESTINATION),
    )
    .build()
    .expect("Should build valid trust set");

    if let TransactionType::TrustSet { limit_amount, .. } = trust_set.transaction_type {
        if let Amount::IssuedCurrency { currency, value, .. } = limit_amount {
            assert_eq!(currency, "USD");
            assert_eq!(value, "1000");
        } else {
            panic!("Expected IssuedCurrency");
        }
    } else {
        panic!("Expected TrustSet transaction type");
    }
}

#[test]
fn test_trust_set_rejects_xrp() {
    let result = TrustSetBuilder::new(
        ACCOUNT.to_string(),
        SEQUENCE,
        Amount::from(10u64),
        Amount::from(1000u64),
    )
    .build();

    assert!(matches!(result, Err(BuildError::InvalidField(_))));
}

#[test]
fn fee_in_a_token_is_refused() {
    let result = PaymentBuilder::new(
        ACCOUNT.to_string(),
        DESTINATION.to_string(),
        SEQUENCE,
        usd("1", DESTINATION),
        one_xrp(),
    )
    .build();
    assert!(matches!(result, Err(BuildError::FeeNotXRP)));
}

#[test]
fn zero_amount_is_refused() {
    let result = PaymentBuilder::new(
        ACCOUNT.to_string(),
        DESTINATION.to_string(),
        SEQUENCE,
        Amount::from(10u64),
        Amount::Xrpl("0".to_string()),
    )
    .build();
    match result {
        Err(BuildError::InvalidAmount(m)) => assert_eq!(m, "XRP amount cannot be zero or empty"),
        other => panic!("unexpected {:?}", other),
    }
}

#[test]
fn address_messages_name_the_field() {
    match validate_address("xyz", "destination") {
        Err(BuildError::InvalidField(m)) => assert_eq!(m, "Invalid destination address"),
        other => panic!("unexpected {:?}", other),
    }
    // 34 bytes is the longest accepted, 35 is refused.
    let longest = format!("r{}", "a".repeat(33));
    assert!(validate_address(&longest, "account").is_ok());
    let too_long = format!("r{}", "a".repeat(34));
    assert!(validate_address(&too_long, "account").is_err());
    // Length counts bytes: 25 characters of which some take two bytes.
    let wide = format!("r{}", "é".repeat(24));
    assert!(validate_address(&wide, "account").is_err());
}

#[test]
fn token_amount_checks() {
    assert!(validate_amount(&usd("5", ACCOUNT)).is_ok());
    let lower = Amount::IssuedCurrency {
        value: "5".to_string(),
        currency: "usd".to_string(),
        issuer: ACCOUNT.to_string(),
    };
    assert!(matches!(validate_amount(&lower), Err(BuildError::InvalidField(_))));
    let xrp_code = Amount::IssuedCurrency {
        value: "5".to_string(),
        currency: "XRP".to_string(),
        issuer: ACCOUNT.to_string(),
    };
    match validate_amount(&xrp_code) {
        Err(BuildError::InvalidField(m)) => {
            assert_eq!(m, "Currency code XRP is not allowed for issued currencies")
        }
        other => panic!("unexpected {:?}", other),
    }
    assert!(matches!(validate_amount(&usd("", ACCOUNT)), Err(BuildError::InvalidAmount(_))));
    assert!(matches!(validate_amount(&usd("1", "bad")), Err(BuildError::InvalidField(_))));
}

#[test]
fn uri_limits() {
    let empty = NFTokenMintBuilder::new(ACCOUNT.to_string(), SEQUENCE, Amount::from(10u64), 0)
        .with_uri(String::new())
        .build();
    assert!(matches!(empty, Err(BuildError::InvalidField(_))));
    let long = NFTokenMintBuilder::new(ACCOUNT.to_string(), SEQUENCE, Amount::from(10u64), 0)
        .with_uri("a".repeat(513))
        .build();
    assert!(matches!(long, Err(BuildError::InvalidField(_))));
    let edge = NFTokenMintBuilder::new(ACCOUNT.to_string(), SEQUENCE, Amount::from(10u64), 0)
        .with_uri("a".repeat(512))
        .with_transfer_fee(50_000)
        .build();
    assert!(edge.is_ok());
}

#[test]
fn paths_are_appended_in_order() {
    let step = |a: &str| PathStep { account: Some(a.to_string()), currency: None, issuer: None };
    let payment = PaymentBuilder::new(
        ACCOUNT.to_string(),
        DESTINATION.to_string(),
        SEQUENCE,
        Amount::from(10u64),
        one_xrp(),
    )
    .add_path(vec![step("first")])
    .add_path(vec![step("second")])
    .build()
    .unwrap();
    if let TransactionType::Payment { paths: Some(paths), .. } = payment.transaction_type {
        assert_eq!(paths.len(), 2);
        assert_eq!(paths[0][0].account.as_deref(), Some("first"));
        assert_eq!(paths[1][0].account.as_deref(), Some("second"));
    } else {
        panic!("Expected paths");
    }
}
