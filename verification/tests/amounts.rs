use frontrunner_bot::amount::{clears_profit_bar, gas_cost_of, Amount, RISK_SCALE};

#[test]
fn from_u128_splits_limbs() {
    let a = Amount::from_u128(0x0000_0000_0000_0001_0000_0000_0000_0002);
    assert_eq!(a, Amount { l0: 2, l1: 1, l2: 0, l3: 0 });
    assert_eq!(Amount::from_u64(7), Amount { l0: 7, l1: 0, l2: 0, l3: 0 });
    assert_eq!(Amount::zero(), Amount { l0: 0, l1: 0, l2: 0, l3: 0 });
}

#[test]
fn comparison_orders_across_limbs() {
    let small = Amount { l0: u64::MAX, l1: u64::MAX, l2: 0, l3: 0 };
    let big = Amount { l0: 0, l1: 0, l2: 1, l3: 0 };
    assert!(small.lt(&big));
    assert!(!big.lt(&small));
    assert!(!big.lt(&big));
    assert_eq!(small.min_of(&big), small);
    assert_eq!(big.min_of(&small), small);
}

#[test]
fn gas_cost_multiplies_exactly() {
    assert_eq!(gas_cost_of(3, 21_000), Amount::from_u64(63_000));
    // fee cap of 2^64 with 2 gas units lands exactly in the second limb
    assert_eq!(
        gas_cost_of(0x1_0000_0000_0000_0000, 2),
        Amount { l0: 0, l1: 2, l2: 0, l3: 0 },
    );
    // a full 128-bit fee cap times a full 64-bit gas count carries into the
    // third limb
    assert_eq!(
        gas_cost_of(u128::MAX, u64::MAX),
        Amount { l0: 1, l1: u64::MAX, l2: u64::MAX - 1, l3: 0 },
    );
}

#[test]
fn profit_bar_is_strict() {
    // 100 * 0.9 = 90 equals the cost of 90: not strictly greater.
    assert!(!clears_profit_bar(&Amount::from_u64(100), &Amount::from_u64(90), 1_000));
    assert!(clears_profit_bar(&Amount::from_u64(101), &Amount::from_u64(90), 1_000));
}

#[test]
fn profit_bar_matches_reference_scenarios() {
    // 500 * 0.9 = 450 > 50
    assert!(clears_profit_bar(&Amount::from_u64(500), &Amount::from_u64(50), 1_000));
    // 60 * 0.5 = 30 > 50 fails
    assert!(!clears_profit_bar(&Amount::from_u64(60), &Amount::from_u64(50), 5_000));
}

#[test]
fn profit_bar_spans_all_limbs() {
    let huge = Amount { l0: 0, l1: 0, l2: 0, l3: 1 };
    let slightly_less = Amount { l0: u64::MAX, l1: u64::MAX, l2: u64::MAX, l3: 0 };
    // 2^192 against 2^192 - 1 at equal discount: decided in the top limbs
    assert!(clears_profit_bar(&huge, &slightly_less, 0));
    assert!(!clears_profit_bar(&slightly_less, &huge, 0));
    // at full risk the discounted profit is zero
    assert!(!clears_profit_bar(&huge, &Amount::zero(), RISK_SCALE));
}
