use vstd::prelude::*;
use crate::fixed::Fixed;
use crate::gate::{Verdict, check_order, order_verdict, reason};

verus! {

/// The direction of an order.
#[derive(Clone, Copy, Debug, PartialEq, Eq, Structural)]
pub enum Side {
    Buy,
    Sell,
}

/// The text that names each side.
pub open spec fn side_label(s: Side) -> Seq<char> {
    match s {
        Side::Buy => "buy"@,
        Side::Sell => "sell"@,
    }
}

/// Whether two strings hold the same characters.
fn same_text(a: &str, b: &str) -> (r: bool)
    ensures
        r == (a@ == b@),
{
    let n = a.unicode_len();
    if n != b.unicode_len() {
        return false;
    }
    let mut i: usize = 0;
    while i < n
        invariant
            n == a@.len(),
            n == b@.len(),
            i <= n,
            forall|j: int| 0 <= j < i ==> a@[j] == b@[j],
        decreases n - i,
    {
        if a.get_char(i) != b.get_char(i) {
            return false;
        }
        i = i + 1;
    }
    assert(a@ =~= b@);
    true
}

impl Side {
    /// The side that `text` names, if it names one.
    pub fn parse(text: &str) -> (r: Option<Side>)
        ensures
            r matches Some(s) ==> side_label(s) == text@,
            r is None ==> text@ != side_label(Side::Buy) && text@ != side_label(Side::Sell),
    {
        if same_text(text, "buy") {
            Some(Side::Buy)
        } else if same_text(text, "sell") {
            Some(Side::Sell)
        } else {
            None
        }
    }

    /// The text that names this side.
    pub fn label(&self) -> (r: String)
        ensures
            r@ == side_label(*self),
    {
        match self {
            Side::Buy => String::from_str("buy"),
            Side::Sell => String::from_str("sell"),
        }
    }
}

/// A candidate trade request. The risk checks test its fields; they assume nothing
/// of them.
#[derive(Clone, Debug)]
pub struct Order {
    /// Caller-assigned identifier; not checked for uniqueness.
    pub id: String,
    /// Quote currency per unit.
    pub price: Fixed,
    /// Quantity of the traded unit.
    pub amount: Fixed,
    pub side: Side,
}

impl Order {
    /// An order with the given fields.
    pub fn new(id: String, price: Fixed, amount: Fixed, side: Side) -> (r: Order)
        ensures
            r.id@ == id@,
            r.price == price,
            r.amount == amount,
            r.side == side,
    {
        Order { id, price, amount, side }
    }

    /// Runs the order-validity check on this order's price and amount.
    pub fn validate(&self, min_amount: Fixed, max_amount: Fixed, balance: Fixed) -> (r: (bool, String))
        ensures
            r.0 == (order_verdict(self.price, self.amount, min_amount, max_amount, balance)
                == Verdict::Valid),
            r.1@ == reason(order_verdict(self.price, self.amount, min_amount, max_amount, balance)),
    {
        let v = check_order(self.price, self.amount, min_amount, max_amount, balance);
        (v.is_valid(), v.message())
    }
}

} // verus!
