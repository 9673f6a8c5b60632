use eth_transfer::{estimate_fee, validate_sufficient, Amount};

fn amt(wei: u128) -> Amount {
    Amount::from_wei(wei)
}

#[test]
fn validation_succeeds_exactly_at_the_boundary() {
    assert!(validate_sufficient(amt(300005), amt(5), amt(300000)).is_ok());
    assert!(validate_sufficient(amt(300006), amt(5), amt(300000)).is_ok());
    assert!(validate_sufficient(amt(300004), amt(5), amt(300000)).is_err());
}

#[test]
fn validation_reports_the_exact_shortfall() {
    let d = validate_sufficient(amt(10), amt(5), amt(300000)).unwrap_err();
    assert_eq!(d.balance.wei, 10);
    assert_eq!(d.amount.wei, 5);
    assert_eq!(d.fee.wei, 300000);
    assert!(!d.required_carry);
    assert_eq!(d.required_low, 300005);
    assert!(!d.shortfall_carry);
    assert_eq!(d.shortfall_low, 299995);
}

#[test]
fn validation_detects_overflow_at_the_maximum_amount() {
    // amount + fee equals 2^128, one past the largest representable amount:
    // even the largest balance cannot cover it, and the wide accounting is
    // exact.
    let d = validate_sufficient(amt(u128::MAX), amt(u128::MAX), amt(1)).unwrap_err();
    assert!(d.required_carry);
    assert_eq!(d.required_low, 0);
    assert!(!d.shortfall_carry);
    assert_eq!(d.shortfall_low, 1);

    let d = validate_sufficient(amt(0), amt(u128::MAX), amt(u128::MAX)).unwrap_err();
    assert!(d.required_carry);
    assert_eq!(d.required_low, u128::MAX - 1);
    assert!(d.shortfall_carry);
    assert_eq!(d.shortfall_low, u128::MAX - 1);
}

#[test]
fn validation_agrees_with_wide_arithmetic_on_pseudorandom_triples() {
    // A deterministic pseudorandom walk over triples, including values close
    // to the maximum representable amount.
    let mut x: u128 = 0x243F6A8885A308D313198A2E03707344;
    let mut next = || {
        x ^= x << 13;
        x ^= x >> 7;
        x ^= x << 17;
        // Half the draws sit within an ordinary range, half near the top.
        if x & 1 == 0 {
            x % 1_000_000_000_000
        } else {
            u128::MAX - (x % 1_000_000)
        }
    };
    for _ in 0..1000 {
        let b = next();
        let a = next();
        let f = next();
        let sum_fits = a.checked_add(f);
        let ok = validate_sufficient(amt(b), amt(a), amt(f)).is_ok();
        match sum_fits {
            Some(s) => assert_eq!(ok, b >= s),
            None => assert!(!ok),
        }
        if !ok {
            let d = validate_sufficient(amt(b), amt(a), amt(f)).unwrap_err();
            // required == a + f and shortfall == a + f - b, both as
            // carry/low pairs.
            let wide_required = (d.required_carry as u128, d.required_low);
            let (lo, carry) = a.overflowing_add(f);
            assert_eq!(wide_required, (carry as u128, lo));
            let (slo, sborrow) = lo.overflowing_sub(b);
            let scarry = carry as u128 - sborrow as u128;
            assert_eq!((d.shortfall_carry as u128, d.shortfall_low), (scarry, slo));
        }
    }
}

#[test]
fn fee_is_price_times_limit() {
    assert_eq!(estimate_fee(amt(2), 21000).unwrap().wei, 42000);
    assert_eq!(estimate_fee(amt(0), 300000).unwrap().wei, 0);
    assert_eq!(estimate_fee(amt(1), 300000).unwrap().wei, 300000);
}

#[test]
fn fee_overflow_is_reported_not_wrapped() {
    assert!(estimate_fee(amt(u128::MAX), 2).is_none());
    assert!(estimate_fee(amt(u128::MAX), 1).is_some());
}

#[test]
fn fee_is_monotonic_in_the_gas_limit() {
    let price = amt(37);
    let mut prev: u128 = 0;
    for limit in [0u64, 1, 21000, 100_000, 300_000, 1_000_000] {
        let fee = estimate_fee(price, limit).unwrap().wei;
        assert!(fee >= prev);
        prev = fee;
    }
}
