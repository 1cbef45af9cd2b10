use faucet::wei::Wei;

#[test]
fn from_u64_and_is_zero() {
    let z = Wei::zero();
    assert!(z.is_zero());
    let one = Wei::from_u64(1);
    assert!(!one.is_zero());
    assert_eq!(one.limb0, 1);
    assert_eq!(one.limb1, 0);
    assert_eq!(one.limb2, 0);
    assert_eq!(one.limb3, 0);
}

#[test]
fn lt_compares_across_limbs() {
    let small = Wei::from_u64(u64::MAX);
    let big = Wei::from_limbs(0, 1, 0, 0);
    assert!(small.lt(&big));
    assert!(!big.lt(&small));
    assert!(!big.lt(&big));
    let high = Wei::from_limbs(0, 0, 0, 1);
    assert!(big.lt(&high));
    let mixed_a = Wei::from_limbs(5, 9, 0, 0);
    let mixed_b = Wei::from_limbs(7, 9, 0, 0);
    assert!(mixed_a.lt(&mixed_b));
    assert!(!mixed_b.lt(&mixed_a));
}

#[test]
fn from_decimal_one_ether() {
    let w = Wei::from_decimal("1000000000000000000").unwrap();
    assert_eq!(w.limb0, 1_000_000_000_000_000_000);
    assert_eq!(w.limb1, 0);
    assert_eq!(w.limb2, 0);
    assert_eq!(w.limb3, 0);
}

#[test]
fn from_decimal_zero_and_carries() {
    let z = Wei::from_decimal("0").unwrap();
    assert!(z.is_zero());
    // 2^64 = 18446744073709551616 lands exactly in the second limb.
    let w = Wei::from_decimal("18446744073709551616").unwrap();
    assert_eq!(w.limb0, 0);
    assert_eq!(w.limb1, 1);
    assert_eq!(w.limb2, 0);
    assert_eq!(w.limb3, 0);
}

#[test]
fn from_decimal_bounds() {
    // 2^256 - 1 is the largest accepted amount.
    let max = Wei::from_decimal(
        "115792089237316195423570985008687907853269984665640564039457584007913129639935",
    )
    .unwrap();
    assert_eq!(max.limb0, u64::MAX);
    assert_eq!(max.limb1, u64::MAX);
    assert_eq!(max.limb2, u64::MAX);
    assert_eq!(max.limb3, u64::MAX);
    // 2^256 does not fit.
    assert!(Wei::from_decimal(
        "115792089237316195423570985008687907853269984665640564039457584007913129639936",
    )
    .is_none());
}

#[test]
fn from_decimal_rejects_malformed() {
    assert!(Wei::from_decimal("").is_none());
    assert!(Wei::from_decimal("12a4").is_none());
    assert!(Wei::from_decimal("-5").is_none());
    assert!(Wei::from_decimal(" 5").is_none());
}
