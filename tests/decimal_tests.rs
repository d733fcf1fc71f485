use equilibria_smart_contracts::fixed::Decimal;

#[test]
fn test_decimal_math() {
    let a = Decimal::percent(50);
    let b = Decimal::percent(20);
    assert_eq!(a.add(b), Decimal::percent(70));
    assert_eq!(a.sub(b), Decimal::percent(30));
    assert_eq!(a.mul_amount(100), Some(50));
}

#[test]
fn correct_test_test_decimal_operations() {
    let one = Decimal::one();
    let half = Decimal::percent(50);
    assert_eq!(half.add(half), one);
    assert_eq!(one.sub(half), half);
}

#[test]
fn test_uint128_with_decimal() {
    let amount = 100u128;
    assert_eq!(Decimal::percent(50).mul_amount(amount), Some(50));
    assert_eq!(Decimal::percent(110).mul_amount(amount), Some(110));
}

#[test]
fn simple_math_test_decimal_multiplication() {
    assert_eq!(Decimal::percent(110).mul_amount(100), Some(110));
}

#[test]
fn working_tests_test_decimal_multiplication() {
    assert_eq!(Decimal::percent(110).mul_amount(100), Some(110));
}

#[test]
fn test_decimal_percentage() {
    assert_eq!(Decimal::percent(110), Decimal::one().add(Decimal::percent(10)));
}

#[test]
fn simple_fixed_basic_tests_test_basic_calculations() {
    let amount = 100u128;
    let fee_amount = Decimal::percent(1).mul_amount(amount).unwrap();
    assert_eq!(fee_amount, 1);
    assert_eq!(amount - fee_amount, 99);
}

#[test]
fn test_basic_math() {
    let amount = 100u128;
    let fee_amount = Decimal::percent(1).mul_amount(amount).unwrap();
    assert_eq!(fee_amount, 1);
    assert_eq!(amount - fee_amount, 99);
}

#[test]
fn test_fee_calculation() {
    let amount = 1_000_000u128;
    let fee_amount = Decimal::percent(1).mul_amount(amount).unwrap();
    assert_eq!(fee_amount, 10_000);
    assert_eq!(amount - fee_amount, 990_000);
    let fee_amount = Decimal::percent(5).mul_amount(amount).unwrap();
    assert_eq!(fee_amount, 50_000);
    assert_eq!(amount - fee_amount, 950_000);
}

#[test]
fn decimal_constructors_and_rounding() {
    assert_eq!(Decimal::one().atomics(), 1_000_000_000_000_000_000);
    assert_eq!(Decimal::permille(5), Decimal::raw(5_000_000_000_000_000));
    assert!(Decimal::zero().is_zero());
    // rounding is always down
    assert_eq!(Decimal::percent(1).mul_amount(199), Some(1));
    assert_eq!(Decimal::percent(200).mul_amount(u128::MAX), None);
    assert_eq!(Decimal::raw(u128::MAX).checked_add(Decimal::raw(1)), None);
    assert_eq!(Decimal::percent(3).abs_diff(Decimal::percent(5)), Decimal::percent(2));
    assert_eq!(Decimal::percent(3).min(Decimal::percent(5)), Decimal::percent(3));
}
