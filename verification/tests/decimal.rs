use skybot::decimal::{Decimal, SCALE_LIMIT};

fn dec(text: &str) -> Decimal {
    Decimal::parse(text).expect("a decimal")
}

#[test]
fn parse_keeps_digits_and_scale() {
    let amount = dec("100.00");
    assert_eq!(amount.scale(), 2);
    assert_eq!(amount.to_text(), "100.00");
    let whole = dec("30");
    assert_eq!(whole.scale(), 0);
    assert_eq!(whole.to_text(), "30");
}

#[test]
fn parse_rejects_what_is_no_decimal() {
    assert!(Decimal::parse("abc").is_none());
    assert!(Decimal::parse("").is_none());
    assert!(Decimal::parse("1.2.3").is_none());
    assert!(Decimal::parse("12 ").is_none());
}

#[test]
fn parse_reads_signs_and_exponents() {
    assert_eq!(dec("-5").to_text(), "-5");
    assert!(!dec("-5").is_positive());
    assert_eq!(dec("1e3").scale(), -3);
    assert_eq!(dec("1.5e-2").scale(), 3);
    assert_eq!(dec("1.5e-2").to_text(), "0.015");
}

#[test]
fn parse_bounds_the_scale() {
    assert!(Decimal::parse("1e-16383").is_some());
    assert!(Decimal::parse("1e-16384").is_none());
    assert!(Decimal::parse("1e16383").is_some());
    assert!(Decimal::parse("1e16384").is_none());
    assert!(Decimal::parse("1e-9223372036854775807").is_none());
    assert_eq!(dec("1e-16383").scale(), SCALE_LIMIT);
}

#[test]
fn zero_is_zero_at_scale_zero() {
    let zero = Decimal::zero();
    assert_eq!(zero.scale(), 0);
    assert_eq!(zero.to_text(), "0");
    assert!(!zero.is_positive());
}

#[test]
fn sum_takes_the_larger_scale() {
    let a = dec("5.00");
    let b = dec("30");
    assert_eq!(a.plus(&b).to_text(), "35.00");
    assert_eq!(b.plus(&a).to_text(), "35.00");
    assert_eq!(a.plus(&b).scale(), 2);
    assert_eq!(dec("0.1").plus(&dec("0.02")).to_text(), "0.12");
    assert_eq!(dec("0").plus(&dec("1.50")).to_text(), "1.50");
    assert_eq!(dec("1").plus(&dec("0.00")).to_text(), "1.00");
}

#[test]
fn difference_takes_the_larger_scale() {
    assert_eq!(dec("100.00").minus(&dec("30")).to_text(), "70.00");
    assert_eq!(dec("30").minus(&dec("100.00")).to_text(), "-70.00");
    assert_eq!(dec("1.5").minus(&dec("0.25")).to_text(), "1.25");
    let nothing = dec("1.5").minus(&dec("1.50"));
    assert_eq!(nothing.scale(), 2);
    assert_eq!(nothing.to_text(), "0");
    assert!(!nothing.is_positive());
}

#[test]
fn difference_with_a_zero_operand_keeps_the_other_as_it_is() {
    assert_eq!(dec("5").minus(&dec("0.00")).to_text(), "5");
    assert_eq!(dec("5").minus(&dec("0.00")).scale(), 0);
    assert_eq!(dec("0.000").minus(&dec("2.5")).to_text(), "-2.5");
    assert_eq!(dec("0.000").minus(&dec("2.5")).scale(), 1);
}

#[test]
fn order_is_by_number_not_by_digits() {
    assert!(dec("1.0").at_most(&dec("1.00")));
    assert!(dec("1.00").at_most(&dec("1.0")));
    assert!(dec("75.00").at_most(&dec("75")));
    assert!(!dec("75.00").at_most(&dec("50.00")));
    assert!(dec("50.00").at_most(&dec("75")));
    assert!(dec("-1").at_most(&dec("0.5")));
    assert!(!dec("0.5").at_most(&dec("-1")));
    assert!(dec("9").at_most(&dec("10")));
    assert!(!dec("1e2").at_most(&dec("99.999")));
}

#[test]
fn positive_means_above_zero() {
    assert!(dec("0.01").is_positive());
    assert!(dec("1e-10").is_positive());
    assert!(!dec("0").is_positive());
    assert!(!dec("0.00").is_positive());
    assert!(!dec("-0.01").is_positive());
}

#[test]
fn arithmetic_is_exact_beyond_machine_integers() {
    let big = dec("340282366920938463463374607431768211456");
    let sum = big.plus(&dec("0.000000000000000000000000000001"));
    assert_eq!(sum.to_text(), "340282366920938463463374607431768211456.000000000000000000000000000001");
    let rest = sum.minus(&big);
    assert_eq!(rest.scale(), 30);
    assert_eq!(rest.to_text(), "1E-30");
    assert!(rest.at_most(&dec("0.000000000000000000000000000001")));
    assert!(dec("0.000000000000000000000000000001").at_most(&rest));
}

#[test]
fn from_parts_reads_little_endian_bytes() {
    let amount = Decimal::from_parts(false, vec![0x10, 0x27], 2).unwrap();
    assert_eq!(amount.to_text(), "100.00");
    let negative = Decimal::from_parts(true, vec![5], 0).unwrap();
    assert_eq!(negative.to_text(), "-5");
    assert!(Decimal::from_parts(false, vec![1], SCALE_LIMIT + 1).is_none());
    assert!(Decimal::from_parts(false, vec![1], -SCALE_LIMIT - 1).is_none());
    assert!(Decimal::from_parts(false, vec![], 0).is_some());
    assert_eq!(Decimal::from_parts(true, vec![0, 0], 0).unwrap().to_text(), "0");
}

#[test]
fn clone_is_the_same_amount() {
    let amount = dec("12.340");
    let copy = amount.clone();
    assert_eq!(copy.to_text(), "12.340");
    assert_eq!(copy.scale(), 3);
}

#[test]
fn parts_make_up_the_same_amount() {
    for text in ["0", "100.00", "-5", "0.000001", "1e3", "340282366920938463463374607431768211456.5"] {
        let amount = dec(text);
        let (negative, magnitude, scale) = amount.to_parts();
        assert_eq!(scale, amount.scale());
        let again = Decimal::from_parts(negative, magnitude, scale).unwrap();
        assert_eq!(again.to_text(), amount.to_text());
        assert!(again.at_most(&amount) && amount.at_most(&again));
    }
    assert_eq!(dec("100.00").to_parts(), (false, vec![0x10, 0x27], 2));
    assert_eq!(dec("-256").to_parts(), (true, vec![0, 1], 0));
}
