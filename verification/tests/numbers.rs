use batch_estimation::binary64::{
    is_non_decreasing, less_or_equal, not_a_number, INFINITY, ONE, SIGN_BIT, ZERO,
};

fn samples() -> Vec<f64> {
    vec![
        0.0,
        -0.0,
        1.0,
        -1.0,
        0.1,
        0.25,
        -0.25,
        1.5e300,
        -1.5e300,
        f64::MIN_POSITIVE,
        -f64::MIN_POSITIVE,
        5e-324,
        -5e-324,
        f64::MAX,
        f64::MIN,
        f64::INFINITY,
        f64::NEG_INFINITY,
        f64::NAN,
        -f64::NAN,
        f64::from_bits(0x7FF0_0000_0000_0001),
        f64::from_bits(0xFFFF_FFFF_FFFF_FFFF),
    ]
}

#[test]
fn constants_are_the_patterns_of_the_doubles() {
    assert_eq!(ZERO, 0.0f64.to_bits());
    assert_eq!(ONE, 1.0f64.to_bits());
    assert_eq!(SIGN_BIT, (-0.0f64).to_bits());
    assert_eq!(INFINITY, f64::INFINITY.to_bits());
}

#[test]
fn not_a_number_agrees_with_the_doubles() {
    for value in samples() {
        assert_eq!(not_a_number(value.to_bits()), value.is_nan(), "{value}");
    }
}

#[test]
fn order_agrees_with_the_doubles() {
    for a in samples() {
        for b in samples() {
            assert_eq!(less_or_equal(a.to_bits(), b.to_bits()), a <= b, "{a} <= {b}");
        }
    }
}

#[test]
fn order_of_chosen_patterns() {
    assert!(less_or_equal(0.1f64.to_bits(), 0.25f64.to_bits()));
    assert!(!less_or_equal(0.25f64.to_bits(), 0.1f64.to_bits()));
    assert!(less_or_equal(ZERO, SIGN_BIT));
    assert!(less_or_equal(SIGN_BIT, ZERO));
    assert!(less_or_equal((-2.0f64).to_bits(), (-1.0f64).to_bits()));
    assert!(!less_or_equal((-1.0f64).to_bits(), (-2.0f64).to_bits()));
    assert!(!less_or_equal(f64::NAN.to_bits(), f64::NAN.to_bits()));
}

#[test]
fn non_decreasing_runs() {
    let bits = |values: &[f64]| values.iter().map(|value| value.to_bits()).collect::<Vec<u64>>();
    assert!(is_non_decreasing(&bits(&[])));
    assert!(is_non_decreasing(&bits(&[3.0])));
    assert!(is_non_decreasing(&bits(&[f64::NAN])));
    assert!(is_non_decreasing(&bits(&[0.0, 0.1, 0.25])));
    assert!(is_non_decreasing(&bits(&[-2.0, -1.0, -0.0, 0.0, 0.0, 7.0])));
    assert!(!is_non_decreasing(&bits(&[0.0, 0.25, 0.1])));
    assert!(!is_non_decreasing(&bits(&[1.0, 0.0])));
    assert!(!is_non_decreasing(&bits(&[0.0, f64::NAN, 1.0])));
    assert!(!is_non_decreasing(&bits(&[0.0, 1.0, f64::NAN])));
}
