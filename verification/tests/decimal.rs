use bitcharge::decimal::Decimal;

#[test]
fn parse_reads_digits_and_scale() {
    assert_eq!(Decimal::parse("1234.56"), Some(Decimal { unscaled: 123456, scale: 2 }));
    assert_eq!(Decimal::parse("-0.3575"), Some(Decimal { unscaled: -3575, scale: 4 }));
    assert_eq!(Decimal::parse("0.90"), Some(Decimal { unscaled: 90, scale: 2 }));
    assert_eq!(Decimal::parse("42"), Some(Decimal { unscaled: 42, scale: 0 }));
}

#[test]
fn parse_writes_out_a_positive_exponent() {
    assert_eq!(Decimal::parse("1.5e3"), Some(Decimal { unscaled: 1500, scale: 0 }));
    assert_eq!(Decimal::parse("12e-1"), Some(Decimal { unscaled: 12, scale: 1 }));
}

#[test]
fn parse_rejects_what_is_no_number() {
    assert_eq!(Decimal::parse(""), None);
    assert_eq!(Decimal::parse("abc"), None);
    assert_eq!(Decimal::parse("1.2.3"), None);
}

#[test]
fn parse_rejects_more_digits_than_fit() {
    assert_eq!(Decimal::parse("170141183460469231731687303715884105727"), Some(Decimal { unscaled: i128::MAX, scale: 0 }));
    assert_eq!(Decimal::parse("170141183460469231731687303715884105728"), None);
    assert_eq!(Decimal::parse("1e39"), None);
}

#[test]
fn comparison_is_by_value() {
    let a = Decimal { unscaled: 10, scale: 1 };
    let b = Decimal { unscaled: 100, scale: 2 };
    let c = Decimal { unscaled: 101, scale: 2 };
    assert!(!a.gt(&b));
    assert!(!b.gt(&a));
    assert!(c.gt(&a));
    assert!(!a.gt(&c));
    assert!(Decimal { unscaled: 1, scale: 0 }.gt(&Decimal { unscaled: -1, scale: 50 }));
    assert!(Decimal { unscaled: 1, scale: 60 }.gt(&Decimal { unscaled: 0, scale: 0 }));
    assert!(!Decimal { unscaled: -1, scale: 60 }.gt(&Decimal { unscaled: 0, scale: 0 }));
    assert!(Decimal { unscaled: i128::MAX, scale: 0 }.gt(&Decimal { unscaled: i128::MAX, scale: 1 }));
}

#[test]
fn zero_is_zero_at_any_scale() {
    assert!(Decimal { unscaled: 0, scale: 0 }.is_zero());
    assert!(Decimal { unscaled: 0, scale: 8 }.is_zero());
    assert!(!Decimal { unscaled: 1, scale: 8 }.is_zero());
    assert!(!Decimal { unscaled: -1, scale: 0 }.is_zero());
}

#[test]
fn subtraction_is_exact() {
    let a = Decimal { unscaled: 100, scale: 0 };
    let fee = Decimal { unscaled: 90, scale: 2 };
    assert_eq!(a.checked_sub(&fee), Some(Decimal { unscaled: 9910, scale: 2 }));
    assert_eq!(fee.checked_sub(&a), Some(Decimal { unscaled: -9910, scale: 2 }));
    let fine = Decimal { unscaled: 12345, scale: 4 };
    assert_eq!(fine.checked_sub(&fee), Some(Decimal { unscaled: 3345, scale: 4 }));
    assert_eq!(Decimal { unscaled: i128::MAX, scale: 0 }.checked_sub(&fee), None);
    assert_eq!(
        Decimal { unscaled: i128::MIN, scale: 0 }.checked_sub(&Decimal { unscaled: 1, scale: 0 }),
        None
    );
}

#[test]
fn shifting_cuts_off_toward_zero() {
    let d = Decimal { unscaled: 123456789, scale: 9 };
    assert_eq!(d.shifted_trunc_u64(8), Some(12345678));
    assert_eq!(d.shifted_trunc_u64(9), Some(123456789));
    assert_eq!(d.shifted_trunc_u64(10), Some(1234567890));
    assert_eq!(d.shifted_trunc_u64(0), Some(0));
    let negative = Decimal { unscaled: -19, scale: 1 };
    assert_eq!(negative.shifted_trunc_i128(0), Some(-1));
    assert_eq!(negative.shifted_trunc_u64(0), None);
    assert_eq!(Decimal { unscaled: -9, scale: 1 }.shifted_trunc_u64(0), Some(0));
    assert_eq!(Decimal { unscaled: 5, scale: u64::MAX }.shifted_trunc_u64(2), Some(0));
    assert_eq!(Decimal { unscaled: i128::MAX, scale: 0 }.shifted_trunc_i128(1), None);
}

#[test]
fn parts_with_a_negative_scale_are_written_out() {
    assert_eq!(Decimal::from_parts(15, -2), Some(Decimal { unscaled: 1500, scale: 0 }));
    assert_eq!(Decimal::from_parts(15, 3), Some(Decimal { unscaled: 15, scale: 3 }));
    assert_eq!(Decimal::from_parts(0, i64::MIN), Some(Decimal { unscaled: 0, scale: 0 }));
    assert_eq!(Decimal::from_parts(1, -39), None);
    assert_eq!(Decimal::from_parts(1, i64::MIN), None);
    assert_eq!(Decimal::new(5, 2), Decimal { unscaled: 5, scale: 2 });
}
