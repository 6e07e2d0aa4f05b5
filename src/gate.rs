use vstd::prelude::*;
use crate::fixed::{Fixed, Extended, ext_gt, ext_le, ext_lt, ext_mul, product_gt};

verus! {

/// The outcome of the order-validity rules: acceptance, or the first rule
/// that the order breaks.
#[derive(Clone, Copy, Debug, PartialEq, Eq, Structural)]
pub enum Verdict {
    Valid,
    BelowMinimum,
    AboveMaximum,
    NonPositivePrice,
    InsufficientBalance,
}

/// The text reported for each verdict; callers match on it verbatim.
pub open spec fn reason(v: Verdict) -> Seq<char> {
    match v {
        Verdict::Valid => "Valid"@,
        Verdict::BelowMinimum => "Amount below minimum limit"@,
        Verdict::AboveMaximum => "Amount exceeds maximum limit"@,
        Verdict::NonPositivePrice => "Price must be positive"@,
        Verdict::InsufficientBalance => "Insufficient balance"@,
    }
}

/// Market conditions are safe when neither the spread nor the volatility is
/// above its ceiling (ceilings are inclusive).
pub open spec fn market_safe(spread: Fixed, volatility: Fixed, max_spread: Fixed, max_volatility: Fixed) -> bool {
    !ext_gt(spread@, max_spread@) && !ext_gt(volatility@, max_volatility@)
}

/// The order rules, tried in order; the first that fails decides.
pub open spec fn order_verdict(price: Fixed, amount: Fixed, min_amount: Fixed, max_amount: Fixed, balance: Fixed) -> Verdict {
    if ext_lt(amount@, min_amount@) {
        Verdict::BelowMinimum
    } else if ext_gt(amount@, max_amount@) {
        Verdict::AboveMaximum
    } else if ext_le(price@, Extended::Finite(0)) {
        Verdict::NonPositivePrice
    } else if ext_gt(ext_mul(amount, price), balance@) {
        Verdict::InsufficientBalance
    } else {
        Verdict::Valid
    }
}

impl Verdict {
    /// Whether the order is accepted.
    pub fn is_valid(&self) -> (r: bool)
        ensures
            r == (*self == Verdict::Valid),
    {
        match self {
            Verdict::Valid => true,
            _ => false,
        }
    }

    /// The human-readable reason for this verdict.
    pub fn message(&self) -> (r: String)
        ensures
            r@ == reason(*self),
    {
        match self {
            Verdict::Valid => String::from_str("Valid"),
            Verdict::BelowMinimum => String::from_str("Amount below minimum limit"),
            Verdict::AboveMaximum => String::from_str("Amount exceeds maximum limit"),
            Verdict::NonPositivePrice => String::from_str("Price must be positive"),
            Verdict::InsufficientBalance => String::from_str("Insufficient balance"),
        }
    }
}

/// Market-condition check: rejects when the spread, or else the volatility,
/// is above its ceiling. `current_price` takes no part in the decision.
pub fn is_safe_entry(
    current_price: Fixed,
    spread: Fixed,
    volatility: Fixed,
    max_spread: Fixed,
    max_volatility: Fixed,
) -> (r: bool)
    ensures
        r == market_safe(spread, volatility, max_spread, max_volatility),
{
    if spread.gt(&max_spread) {
        return false;
    }
    if volatility.gt(&max_volatility) {
        return false;
    }
    true
}

/// Order-validity check, giving the verdict of the first rule that fails.
pub fn check_order(price: Fixed, amount: Fixed, min_amount: Fixed, max_amount: Fixed, balance: Fixed) -> (r: Verdict)
    ensures
        r == order_verdict(price, amount, min_amount, max_amount, balance),
{
    if amount.lt(&min_amount) {
        return Verdict::BelowMinimum;
    }
    if amount.gt(&max_amount) {
        return Verdict::AboveMaximum;
    }
    if price.le(&Fixed::zero()) {
        return Verdict::NonPositivePrice;
    }
    if product_gt(amount, price, balance) {
        return Verdict::InsufficientBalance;
    }
    Verdict::Valid
}

/// Order-validity check: whether the order is accepted, and the reason.
pub fn validate_order(price: Fixed, amount: Fixed, min_amount: Fixed, max_amount: Fixed, balance: Fixed) -> (r: (bool, String))
    ensures
        r.0 == (order_verdict(price, amount, min_amount, max_amount, balance) == Verdict::Valid),
        r.1@ == reason(order_verdict(price, amount, min_amount, max_amount, balance)),
{
    let v = check_order(price, amount, min_amount, max_amount, balance);
    (v.is_valid(), v.message())
}

/// Within both ceilings, the market is safe.
pub proof fn lemma_within_limits_is_safe(spread: Fixed, volatility: Fixed, max_spread: Fixed, max_volatility: Fixed)
    requires
        ext_le(spread@, max_spread@),
        ext_le(volatility@, max_volatility@),
    ensures
        market_safe(spread, volatility, max_spread, max_volatility),
{
}

/// A spread above its ceiling makes the market unsafe, whatever the volatility.
pub proof fn lemma_wide_spread_is_unsafe(spread: Fixed, volatility: Fixed, max_spread: Fixed, max_volatility: Fixed)
    requires
        ext_gt(spread@, max_spread@),
    ensures
        !market_safe(spread, volatility, max_spread, max_volatility),
{
}

/// The order check depends on its arguments alone: equal arguments give
/// equal results, on every call.
pub proof fn lemma_order_check_is_pure(
    price: Fixed,
    amount: Fixed,
    min_amount: Fixed,
    max_amount: Fixed,
    balance: Fixed,
    price2: Fixed,
    amount2: Fixed,
    min_amount2: Fixed,
    max_amount2: Fixed,
    balance2: Fixed,
)
    requires
        price == price2,
        amount == amount2,
        min_amount == min_amount2,
        max_amount == max_amount2,
        balance == balance2,
    ensures
        order_verdict(price, amount, min_amount, max_amount, balance) == order_verdict(
            price2,
            amount2,
            min_amount2,
            max_amount2,
            balance2,
        ),
        reason(order_verdict(price, amount, min_amount, max_amount, balance)) == reason(
            order_verdict(price2, amount2, min_amount2, max_amount2, balance2),
        ),
{
}

/// The market check depends on its arguments alone: equal arguments give
/// equal results, on every call.
pub proof fn lemma_market_check_is_pure(
    spread: Fixed,
    volatility: Fixed,
    max_spread: Fixed,
    max_volatility: Fixed,
    spread2: Fixed,
    volatility2: Fixed,
    max_spread2: Fixed,
    max_volatility2: Fixed,
)
    requires
        spread == spread2,
        volatility == volatility2,
        max_spread == max_spread2,
        max_volatility == max_volatility2,
    ensures
        market_safe(spread, volatility, max_spread, max_volatility) == market_safe(
            spread2,
            volatility2,
            max_spread2,
            max_volatility2,
        ),
{
}

} // verus!
