use menu_catalog::price::{Price, INFINITY_BITS, SIGN_BIT};

fn price(amount: f64) -> Price {
    Price::from_bits(amount.to_bits())
}

/// Numbers that cover both signs, both zeros, the smallest and largest finite
/// values, both infinities and two NaN patterns.
fn samples() -> Vec<f64> {
    vec![
        0.0,
        -0.0,
        1.0,
        -1.0,
        2.0,
        8.0,
        9.5,
        -9.5,
        0.1,
        0.30000000000000004,
        1e-320,
        -1e-320,
        f64::MIN_POSITIVE,
        -f64::MIN_POSITIVE,
        f64::MAX,
        f64::MIN,
        f64::INFINITY,
        f64::NEG_INFINITY,
        f64::NAN,
        -f64::NAN,
        f64::from_bits(0x7FF0_0000_0000_0001),
        f64::from_bits(0xFFFF_FFFF_FFFF_FFFF),
        f64::EPSILON,
        1.0 + f64::EPSILON,
    ]
}

#[test]
fn bits_round_trip() {
    for amount in samples() {
        assert_eq!(price(amount).to_bits(), amount.to_bits());
    }
    assert_eq!(Price::from_bits(0x4023_0000_0000_0000).to_bits(), 9.5f64.to_bits());
    assert_eq!(price(9.5).bits, 0x4023_0000_0000_0000);
}

#[test]
fn at_most_agrees_with_the_numbers() {
    for a in samples() {
        for b in samples() {
            assert_eq!(price(a).at_most(&price(b)), a <= b, "{a:?} <= {b:?}");
        }
    }
}

#[test]
fn at_least_agrees_with_the_numbers() {
    for a in samples() {
        for b in samples() {
            assert_eq!(price(a).at_least(&price(b)), a >= b, "{a:?} >= {b:?}");
        }
    }
}

#[test]
fn same_amount_agrees_with_the_numbers() {
    for a in samples() {
        for b in samples() {
            assert_eq!(price(a).same_amount(&price(b)), a == b, "{a:?} == {b:?}");
        }
    }
}

#[test]
fn not_a_number_is_recognised() {
    for a in samples() {
        assert_eq!(price(a).is_not_a_number(), a.is_nan(), "{a:?}");
    }
    assert!(!Price::from_bits(INFINITY_BITS).is_not_a_number());
    assert!(Price::from_bits(INFINITY_BITS + 1).is_not_a_number());
    assert!(!Price::from_bits(SIGN_BIT + INFINITY_BITS).is_not_a_number());
    assert!(Price::from_bits(SIGN_BIT + INFINITY_BITS + 1).is_not_a_number());
}

#[test]
fn the_two_zeros_are_the_same_amount_but_different_patterns() {
    assert!(price(0.0).same_amount(&price(-0.0)));
    assert!(price(0.0).at_most(&price(-0.0)));
    assert!(price(-0.0).at_most(&price(0.0)));
    assert_ne!(price(0.0), price(-0.0));
    assert_eq!(price(-0.0).to_bits(), SIGN_BIT);
}

#[test]
fn limit_is_included_on_both_sides() {
    assert!(price(8.0).at_most(&price(8.0)));
    assert!(price(8.0).at_least(&price(8.0)));
    assert!(!price(8.0).at_most(&price(7.999999999999999)));
    assert!(!price(8.0).at_least(&price(8.000000000000002)));
    assert!(price(2.0).at_most(&price(9.5)));
    assert!(!price(9.5).at_most(&price(2.0)));
}

#[test]
fn at_most_and_at_least_together_mean_the_same_amount() {
    for a in samples() {
        for b in samples() {
            let both = price(a).at_most(&price(b)) && price(a).at_least(&price(b));
            assert_eq!(both, price(a).same_amount(&price(b)));
        }
    }
}
