use rust_core::fixed::{product_gt, Fixed, SCALE};
use rust_core::gate::{check_order, is_safe_entry, validate_order, Verdict};
use rust_core::order::{Order, Side};

fn n(v: i32) -> Fixed {
    Fixed::from_int(v)
}

fn validate(price: Fixed, amount: Fixed, min: Fixed, max: Fixed, balance: Fixed) -> (bool, String) {
    validate_order(price, amount, min, max, balance)
}

#[test]
fn valid_order_is_accepted() {
    assert_eq!(validate(n(100), n(5), n(1), n(10), n(1000)), (true, "Valid".to_string()));
}

#[test]
fn amount_below_minimum_is_rejected() {
    let half = Fixed::Finite(SCALE / 2);
    assert_eq!(
        validate(n(100), half, n(1), n(10), n(1000)),
        (false, "Amount below minimum limit".to_string())
    );
}

#[test]
fn amount_above_maximum_is_rejected() {
    assert_eq!(
        validate(n(100), n(20), n(1), n(10), n(1000)),
        (false, "Amount exceeds maximum limit".to_string())
    );
}

#[test]
fn negative_price_is_rejected() {
    assert_eq!(
        validate(n(-5), n(5), n(1), n(10), n(1000)),
        (false, "Price must be positive".to_string())
    );
}

#[test]
fn zero_price_is_rejected() {
    assert_eq!(
        validate(n(0), n(5), n(1), n(10), n(1000)),
        (false, "Price must be positive".to_string())
    );
}

#[test]
fn insufficient_balance_is_rejected() {
    assert_eq!(
        validate(n(100), n(10), n(1), n(10), n(500)),
        (false, "Insufficient balance".to_string())
    );
}

#[test]
fn exact_balance_is_accepted() {
    assert_eq!(validate(n(100), n(10), n(1), n(10), n(1000)), (true, "Valid".to_string()));
}

#[test]
fn one_unit_short_of_balance_is_rejected() {
    let balance = Fixed::Finite(1000 * SCALE - 1);
    assert_eq!(check_order(n(100), n(10), n(1), n(10), balance), Verdict::InsufficientBalance);
}

#[test]
fn amount_at_minimum_is_accepted() {
    assert_eq!(check_order(n(100), n(1), n(1), n(10), n(1000)), Verdict::Valid);
}

#[test]
fn first_failing_rule_decides() {
    // below minimum and non-positive price and over balance: the minimum rule wins
    assert_eq!(check_order(n(-5), Fixed::Finite(1), n(1), n(10), n(0)), Verdict::BelowMinimum);
    // above maximum and non-positive price: the maximum rule wins
    assert_eq!(check_order(n(0), n(20), n(1), n(10), n(1000)), Verdict::AboveMaximum);
}

#[test]
fn fractional_notional_is_exact() {
    // 0.1 * 0.2 = 0.02 exactly
    let a = Fixed::Finite(SCALE / 10);
    let p = Fixed::Finite(SCALE / 5);
    assert!(!product_gt(a, p, Fixed::Finite(SCALE / 50)));
    assert!(product_gt(a, p, Fixed::Finite(SCALE / 50 - 1)));
}

#[test]
fn nan_amount_passes_every_rule() {
    assert_eq!(check_order(n(100), Fixed::NaN, n(1), n(10), n(1000)), Verdict::Valid);
}

#[test]
fn infinite_price_exceeds_balance() {
    assert_eq!(
        check_order(Fixed::PosInf, n(5), n(1), n(10), n(1000)),
        Verdict::InsufficientBalance
    );
    assert_eq!(check_order(Fixed::PosInf, n(5), n(1), n(10), Fixed::PosInf), Verdict::Valid);
}

#[test]
fn infinity_times_zero_is_not_above_balance() {
    assert!(!product_gt(Fixed::PosInf, n(0), n(-1)));
    assert!(product_gt(Fixed::NegInf, n(-2), n(1)));
    assert!(!product_gt(Fixed::NegInf, n(2), n(1)));
}

#[test]
fn within_limits_is_safe() {
    assert!(is_safe_entry(n(100), n(1), n(2), n(1), n(2)));
    assert!(is_safe_entry(n(100), n(0), n(0), n(1), n(2)));
}

#[test]
fn wide_spread_is_unsafe() {
    assert!(!is_safe_entry(n(100), n(3), n(0), n(2), n(5)));
    assert!(!is_safe_entry(n(100), n(3), Fixed::NaN, n(2), n(5)));
}

#[test]
fn high_volatility_is_unsafe() {
    assert!(!is_safe_entry(n(100), n(1), Fixed::Finite(5 * SCALE + 1), n(2), n(5)));
}

#[test]
fn nan_spread_is_treated_as_safe() {
    assert!(is_safe_entry(n(100), Fixed::NaN, n(1), n(2), n(5)));
}

#[test]
fn repeated_calls_agree() {
    let first = validate(n(100), n(10), n(1), n(10), n(500));
    let second = validate(n(100), n(10), n(1), n(10), n(500));
    assert_eq!(first, second);
    assert_eq!(
        is_safe_entry(n(1), n(3), n(1), n(2), n(5)),
        is_safe_entry(n(1), n(3), n(1), n(2), n(5))
    );
}

#[test]
fn comparisons_follow_ieee() {
    assert!(n(1).lt(&n(2)));
    assert!(Fixed::NegInf.lt(&n(-1000)));
    assert!(n(1000).lt(&Fixed::PosInf));
    assert!(!Fixed::NaN.lt(&n(1)));
    assert!(!Fixed::NaN.le(&Fixed::NaN));
    assert!(n(2).le(&n(2)));
    assert!(n(3).gt(&n(2)));
    assert!(Fixed::NaN.is_nan());
    assert_eq!(Fixed::from_int(-7), Fixed::Finite(-7 * SCALE));
}

#[test]
fn verdict_messages() {
    assert_eq!(Verdict::Valid.message(), "Valid");
    assert_eq!(Verdict::BelowMinimum.message(), "Amount below minimum limit");
    assert_eq!(Verdict::AboveMaximum.message(), "Amount exceeds maximum limit");
    assert_eq!(Verdict::NonPositivePrice.message(), "Price must be positive");
    assert_eq!(Verdict::InsufficientBalance.message(), "Insufficient balance");
}

#[test]
fn sides_parse_and_print() {
    assert_eq!(Side::parse("buy"), Some(Side::Buy));
    assert_eq!(Side::parse("sell"), Some(Side::Sell));
    assert_eq!(Side::parse("Buy"), None);
    assert_eq!(Side::parse("sel"), None);
    assert_eq!(Side::parse(""), None);
    assert_eq!(Side::Buy.label(), "buy");
    assert_eq!(Side::Sell.label(), "sell");
}

#[test]
fn order_validates_its_own_fields() {
    let order = Order::new("o-1".to_string(), n(100), n(10), Side::Buy);
    assert_eq!(order.validate(n(1), n(10), n(500)), (false, "Insufficient balance".to_string()));
    assert_eq!(order.validate(n(1), n(10), n(1000)), (true, "Valid".to_string()));
    assert_eq!(order.id, "o-1");
}
