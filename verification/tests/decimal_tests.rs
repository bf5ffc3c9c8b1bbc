use bracket_arb::decimal::{DecimalPct, MAX_MANTISSA, MAX_SCALE};
use bracket_arb::text::{decimal_string, digit_str, push_decimal, push_signed, text_eq};
use rust_decimal::Decimal;

fn value(pct: DecimalPct) -> Decimal {
    Decimal::from_i128_with_scale(pct.mantissa, pct.scale)
}

#[test]
fn a_decimal_fits_96_bits_and_28_digits() {
    assert_eq!(MAX_SCALE, 28);
    assert_eq!(MAX_MANTISSA, (1i128 << 96) - 1);
    assert_eq!(DecimalPct::new(15, 1), Some(DecimalPct { mantissa: 15, scale: 1 }));
    assert_eq!(
        DecimalPct::new(MAX_MANTISSA, 28),
        Some(DecimalPct { mantissa: MAX_MANTISSA, scale: 28 })
    );
    assert!(DecimalPct::new(-MAX_MANTISSA, 0).is_some());
    assert_eq!(DecimalPct::new(MAX_MANTISSA + 1, 0), None);
    assert_eq!(DecimalPct::new(-MAX_MANTISSA - 1, 0), None);
    assert_eq!(DecimalPct::new(1, 29), None);
    assert_eq!(DecimalPct::zero(), DecimalPct { mantissa: 0, scale: 0 });
    assert_eq!(DecimalPct::from_int(-7), DecimalPct { mantissa: -7, scale: 0 });
}

#[test]
fn a_ratio_is_the_decimal_quotient() {
    assert_eq!(value(DecimalPct::ratio(37300, 500)), Decimal::new(746, 1));
    assert_eq!(value(DecimalPct::ratio(1, 4)), Decimal::new(25, 2));
    assert_eq!(value(DecimalPct::ratio(-1, 4)), Decimal::new(-25, 2));
    assert_eq!(value(DecimalPct::ratio(1, -4)), Decimal::new(-25, 2));
    assert_eq!(value(DecimalPct::ratio(0, 9)), Decimal::ZERO);
    assert_eq!(value(DecimalPct::ratio(5300, 447)), Decimal::from(5300) / Decimal::from(447));
    let third = DecimalPct::ratio(1, 3);
    assert_eq!(third.scale, 28);
    assert_eq!(third.mantissa, 3_333_333_333_333_333_333_333_333_333);
    let extreme = DecimalPct::ratio(i64::MIN, 1);
    assert_eq!(value(extreme), Decimal::from(i64::MIN));
    let tiny = DecimalPct::ratio(1, i64::MAX);
    assert!(tiny.scale <= 28);
    assert!(value(tiny) > Decimal::ZERO);
}

#[test]
fn decimals_are_ordered_by_value() {
    let one = DecimalPct { mantissa: 1, scale: 0 };
    let one_point_zero = DecimalPct { mantissa: 100, scale: 2 };
    let less = DecimalPct { mantissa: 99, scale: 2 };
    let negative = DecimalPct { mantissa: -5, scale: 1 };
    assert!(one.at_least(&one_point_zero));
    assert!(one_point_zero.at_least(&one));
    assert!(one.at_least(&less));
    assert!(!less.at_least(&one));
    assert!(less.at_least(&negative));
    assert!(!negative.at_least(&less));
    assert!(DecimalPct::zero().at_least(&DecimalPct { mantissa: 0, scale: 28 }));
    let big = DecimalPct { mantissa: MAX_MANTISSA, scale: 0 };
    let small = DecimalPct { mantissa: MAX_MANTISSA, scale: 28 };
    assert!(big.at_least(&small));
    assert!(!small.at_least(&big));
    assert!(!DecimalPct { mantissa: -MAX_MANTISSA, scale: 0 }.at_least(&small));
}

#[test]
fn texts_are_equal_by_their_characters() {
    assert!(text_eq("", ""));
    assert!(text_eq("active", "active"));
    assert!(!text_eq("active", "Active"));
    assert!(!text_eq("active", "activ"));
    assert!(!text_eq("activ", "active"));
    assert!(!text_eq("a", "b"));
    assert!(text_eq("gr\u{fc}n", "gr\u{fc}n"));
    assert!(!text_eq("gr\u{fc}n", "grun"));
}

#[test]
fn numerals_are_decimal_without_leading_zeros() {
    assert_eq!(decimal_string(0), "0");
    assert_eq!(decimal_string(7), "7");
    assert_eq!(decimal_string(10), "10");
    assert_eq!(decimal_string(1_700_000_000_000), "1700000000000");
    assert_eq!(decimal_string(u64::MAX), "18446744073709551615");
    for d in 0..10u8 {
        assert_eq!(digit_str(d), d.to_string());
    }
    let mut out = "n=".to_string();
    push_decimal(&mut out, 405);
    assert_eq!(out, "n=405");
    push_signed(&mut out, -12);
    assert_eq!(out, "n=405-12");
    push_signed(&mut out, 0);
    assert_eq!(out, "n=405-120");
    let mut min = String::new();
    push_signed(&mut min, i64::MIN);
    assert_eq!(min, "-9223372036854775808");
    let mut max = String::new();
    push_signed(&mut max, i64::MAX);
    assert_eq!(max, "9223372036854775807");
}
