use eth_transfer::{
    build_view_call, format_wei, parse_display_amount, Address, Amount, ErrorKind,
    UnsignedTransaction,
};

const GOOD: &str = "0x51F14ab69C8f748F72b6DB1Aa66875faf7c24Bd2";

#[test]
fn canonical_address_parses_to_its_bytes() {
    let a = Address::parse(GOOD).unwrap();
    assert_eq!(a.bytes.len(), 20);
    assert_eq!(a.bytes[0], 0x51);
    assert_eq!(a.bytes[1], 0xF1);
    assert_eq!(a.bytes[19], 0xD2);
}

#[test]
fn address_parsing_rejects_any_noncanonical_string() {
    // One hex digit short of the canonical forty.
    let short = &GOOD[..GOOD.len() - 1];
    assert!(Address::parse(short).is_none());
    // One hex digit beyond the canonical forty.
    let long = format!("{GOOD}a");
    assert!(Address::parse(&long).is_none());
    // Missing or wrong prefix.
    assert!(Address::parse(&GOOD[2..]).is_none());
    assert!(Address::parse(&format!("0X{}", &GOOD[2..])).is_none());
    // A byte that is not a hexadecimal digit.
    let bad = format!("0xg{}", &GOOD[3..]);
    assert!(Address::parse(&bad).is_none());
    // Degenerate strings.
    assert!(Address::parse("").is_none());
    assert!(Address::parse("0x").is_none());
}

#[test]
fn equal_addresses_compare_equal() {
    let a = Address::parse(GOOD).unwrap();
    let lowered = GOOD.to_lowercase();
    let b = Address::parse(&lowered).unwrap();
    assert!(a.same_as(&b));
    let c = Address::parse("0x741CD80d41eDE318feD4010E296704a061f4115a").unwrap();
    assert!(!a.same_as(&c));
}

#[test]
fn built_transaction_reads_back_unchanged() {
    let t = UnsignedTransaction::build(
        GOOD,
        Amount::from_wei(123456789),
        21000,
        Amount::from_wei(42),
        421614,
    )
    .unwrap();
    let r = Address::parse(GOOD).unwrap();
    assert!(t.recipient().same_as(&r));
    assert_eq!(t.value().wei, 123456789);
    assert_eq!(t.gas_limit(), 21000);
    assert_eq!(t.gas_price().wei, 42);
    assert_eq!(t.chain_id(), 421614);
}

#[test]
fn building_with_a_bad_recipient_reports_the_string() {
    let r = UnsignedTransaction::build(
        "not-an-address",
        Amount::from_wei(1),
        21000,
        Amount::from_wei(1),
        1,
    );
    match r {
        Err(ErrorKind::InvalidAddress(s)) => assert_eq!(s, "not-an-address"),
        _ => panic!("expected an invalid-address error"),
    }
}

#[test]
fn display_amounts_parse_to_exact_wei() {
    assert_eq!(parse_display_amount("0.001").unwrap().wei, 10u128.pow(15));
    assert_eq!(parse_display_amount("1").unwrap().wei, 10u128.pow(18));
    assert_eq!(parse_display_amount("1.5").unwrap().wei, 15 * 10u128.pow(17));
    assert_eq!(parse_display_amount("0.000000000000000001").unwrap().wei, 1);
    assert_eq!(parse_display_amount("0").unwrap().wei, 0);
    assert_eq!(
        parse_display_amount("12.250").unwrap().wei,
        12_250_000_000_000_000_000
    );
}

#[test]
fn malformed_display_amounts_are_rejected() {
    for bad in [
        "", ".", "1.", ".5", "1..2", "0.001.2", "abc", "1e3", "-1", "1 ",
        // Nineteen fractional digits: one more than the denomination holds.
        "0.0000000000000000001",
    ] {
        assert!(parse_display_amount(bad).is_none(), "accepted {bad:?}");
    }
}

#[test]
fn display_amounts_too_large_to_represent_are_rejected() {
    // 2^128 - 1 wei is representable; a full unit more is not.
    assert!(parse_display_amount("340282366920938463463.374607431768211455").is_some());
    assert!(parse_display_amount("340282366920938463464").is_none());
    assert!(parse_display_amount("999999999999999999999999999999999999999").is_none());
}

#[test]
fn formatting_renders_all_eighteen_fraction_digits() {
    let s = |wei: u128| String::from_utf8(format_wei(Amount::from_wei(wei))).unwrap();
    assert_eq!(s(0), "0.000000000000000000");
    assert_eq!(s(1), "0.000000000000000001");
    assert_eq!(s(10u128.pow(15)), "0.001000000000000000");
    assert_eq!(s(15 * 10u128.pow(17)), "1.500000000000000000");
    assert_eq!(s(u128::MAX), "340282366920938463463.374607431768211455");
}

#[test]
fn formatting_then_parsing_returns_the_same_wei() {
    for wei in [
        0u128,
        1,
        999,
        10u128.pow(15),
        10u128.pow(18),
        12_345_678_901_234_567_890,
        u128::MAX,
    ] {
        let text = String::from_utf8(format_wei(Amount::from_wei(wei))).unwrap();
        assert_eq!(parse_display_amount(&text).unwrap().wei, wei);
    }
}

#[test]
fn view_call_keeps_the_contract_and_method() {
    let c = build_view_call("0x75faf114eafb1BDbe2F0316DF893fd58CE46AA4d", "name").unwrap();
    assert_eq!(c.method, "name");
    assert_eq!(c.contract.bytes[0], 0x75);
    assert_eq!(c.contract.bytes[19], 0x4d);
}

#[test]
fn view_call_rejects_a_bad_contract_address() {
    match build_view_call("0x75faf", "symbol") {
        Err(ErrorKind::InvalidAddress(s)) => assert_eq!(s, "0x75faf"),
        _ => panic!("expected an invalid-address error"),
    }
}
