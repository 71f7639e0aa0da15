use financial_analyzer::decimal::Amount;
use rust_decimal::Decimal;

fn dec(a: Amount) -> Decimal {
    Decimal::from_i128_with_scale(a.mantissa(), a.scale())
}

#[test]
fn amount_new_keeps_mantissa_and_scale() {
    let a = Amount::new(-3141, 3);
    assert_eq!(a.mantissa(), -3141);
    assert_eq!(a.scale(), 3);
    assert_eq!(a.to_text(), "-3.141");
}

#[test]
fn amount_from_parts_checks_the_range() {
    let max: i128 = 0xFFFF_FFFF_FFFF_FFFF_FFFF_FFFF;
    assert!(Amount::from_parts(max, 28).is_some());
    assert!(Amount::from_parts(-max, 0).is_some());
    assert!(Amount::from_parts(max + 1, 0).is_none());
    assert!(Amount::from_parts(-max - 1, 0).is_none());
    assert!(Amount::from_parts(1, 29).is_none());
    let a = Amount::from_parts(12345, 2).unwrap();
    assert_eq!(a.mantissa(), 12345);
    assert_eq!(a.scale(), 2);
}

#[test]
fn amount_zero_and_one() {
    assert!(Amount::zero().is_zero());
    assert!(!Amount::one().is_zero());
    assert_eq!(Amount::zero().mantissa(), 0);
    assert_eq!(Amount::zero().scale(), 0);
    assert_eq!(Amount::one().mantissa(), 1);
    assert_eq!(Amount::one().scale(), 0);
    assert!(Amount::new(0, 5).is_zero());
}

#[test]
fn amount_equality_is_by_value() {
    assert_eq!(Amount::new(10, 1), Amount::new(1, 0));
    assert_eq!(Amount::new(100, 2), Amount::new(1000, 3));
    assert_ne!(Amount::new(10, 1), Amount::new(11, 1));
    assert!(Amount::new(10, 1).same_value(&Amount::new(1, 0)));
    assert!(!Amount::new(1, 1).same_value(&Amount::new(1, 0)));
}

#[test]
fn amount_ordering_is_by_value() {
    let small = Amount::new(1, 4);
    let large = Amount::new(1, 3);
    assert!(small.less_than(&large));
    assert!(!large.less_than(&small));
    assert!(large.greater_than(&small));
    assert!(!small.greater_than(&large));
    assert!(small.at_most(&large));
    assert!(small.at_most(&Amount::new(10, 5)));
    assert!(!large.at_most(&small));
    assert!(Amount::new(-5, 0).less_than(&Amount::new(-49, 1)));
    assert!(Amount::new(-1, 2).less_than(&Amount::zero()));
    assert!(!Amount::new(15, 1).less_than(&Amount::new(150, 2)));
}

#[test]
fn amount_abs_clears_the_sign() {
    let a = Amount::new(-3141, 3).abs();
    assert_eq!(a.mantissa(), 3141);
    assert_eq!(a.scale(), 3);
    let b = Amount::new(27, 1).abs();
    assert_eq!(b.mantissa(), 27);
    assert_eq!(b.scale(), 1);
    assert!(Amount::new(0, 2).abs().is_zero());
}

#[test]
fn amount_addition_is_exact_on_small_values() {
    let a = Amount::new(125, 2);
    let b = Amount::new(5, 1);
    let sum = a.checked_add(b).unwrap();
    assert_eq!(sum, Amount::new(175, 2));
    assert_eq!(sum.to_text(), "1.75");
}

#[test]
fn amount_subtraction_is_exact_on_small_values() {
    let d = Amount::new(5_000_000, 0).checked_sub(Amount::new(3_000_000, 0)).unwrap();
    assert_eq!(d, Amount::new(2_000_000, 0));
    let e = Amount::new(1, 0).checked_sub(Amount::new(25, 1)).unwrap();
    assert_eq!(e, Amount::new(-15, 1));
}

#[test]
fn amount_multiplication_is_exact_on_small_values() {
    let p = Amount::new(11, 1).checked_mul(Amount::new(11, 1)).unwrap();
    assert_eq!(p, Amount::new(121, 2));
    assert_eq!(p.to_text(), "1.21");
}

#[test]
fn amount_division_rounds_as_rust_decimal_does() {
    let q = Amount::new(1, 0).checked_div(Amount::new(4, 2)).unwrap();
    assert_eq!(q, Amount::new(25, 0));
    let third = Amount::new(1, 0).checked_div(Amount::new(3, 0)).unwrap();
    let expected = Decimal::ONE / Decimal::new(3, 0);
    assert_eq!(dec(third), expected);
    assert_eq!(third.mantissa(), expected.mantissa());
    assert_eq!(third.scale(), expected.scale());
}

#[test]
fn amount_arithmetic_agrees_with_rust_decimal() {
    let a = Amount::new(123_456_789, 4);
    let b = Amount::new(-987, 2);
    let x = Decimal::new(123_456_789, 4);
    let y = Decimal::new(-987, 2);
    assert_eq!(dec(a.checked_add(b).unwrap()), x + y);
    assert_eq!(dec(a.checked_sub(b).unwrap()), x - y);
    assert_eq!(dec(a.checked_mul(b).unwrap()), x * y);
    assert_eq!(dec(a.checked_div(b).unwrap()), x / y);
    assert_eq!(a.to_text(), x.to_string());
}

#[test]
fn amount_overflow_gives_none() {
    let max = Amount::from_parts(0xFFFF_FFFF_FFFF_FFFF_FFFF_FFFF, 0).unwrap();
    assert!(max.checked_add(Amount::one()).is_none());
    assert!(max.checked_mul(Amount::new(2, 0)).is_none());
    let min = Amount::from_parts(-0xFFFF_FFFF_FFFF_FFFF_FFFF_FFFF, 0).unwrap();
    assert!(min.checked_sub(Amount::one()).is_none());
    assert!(max.checked_div(Amount::new(1, 1)).is_none());
}

#[test]
fn amount_division_by_zero_gives_none() {
    assert!(Amount::one().checked_div(Amount::zero()).is_none());
    assert!(Amount::zero().checked_div(Amount::new(0, 3)).is_none());
}
