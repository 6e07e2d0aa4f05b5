use vstd::prelude::*;

verus! {

/// Units per whole: a `Fixed::Finite(u)` stands for `u / SCALE`.
pub const SCALE: i64 = 100_000_000;

/// A quote-currency or quantity value: an exact decimal with eight places, or
/// one of the three non-finite values that a double can hold. Ordering
/// comparisons follow IEEE 754: any comparison with `NaN` is false.
///
/// `==` compares representations (so `NaN == NaN` holds); use `lt`, `gt` and
/// `le` for numeric comparison.
#[derive(Clone, Copy, Debug, PartialEq, Eq, Structural)]
pub enum Fixed {
    Finite(i64),
    PosInf,
    NegInf,
    NaN,
}

/// A value on the extended real line, finite ones counted in units of
/// `1 / (SCALE * SCALE)`, fine enough to hold a product of two `Fixed` values.
pub ghost enum Extended {
    Finite(int),
    PosInf,
    NegInf,
    NaN,
}

/// Where a non-NaN value lies: below, among, or above the finite values.
pub open spec fn tier(x: Extended) -> int {
    match x {
        Extended::NegInf => -1,
        Extended::PosInf => 1,
        _ => 0,
    }
}

/// `x < y` under IEEE 754.
pub open spec fn ext_lt(x: Extended, y: Extended) -> bool {
    &&& !(x is NaN)
    &&& !(y is NaN)
    &&& (tier(x) < tier(y) || (x matches Extended::Finite(a) && y matches Extended::Finite(b)
        && a < b))
}

/// `x > y` under IEEE 754.
pub open spec fn ext_gt(x: Extended, y: Extended) -> bool {
    ext_lt(y, x)
}

/// `x <= y` under IEEE 754: false as soon as either side is NaN.
pub open spec fn ext_le(x: Extended, y: Extended) -> bool {
    &&& !(x is NaN)
    &&& !(y is NaN)
    &&& !ext_lt(y, x)
}

/// The sign of a non-NaN value: -1, 0 or 1.
pub open spec fn sign(x: Fixed) -> int {
    match x {
        Fixed::Finite(u) => if u > 0 { 1 } else if u < 0 { -1 } else { 0 },
        Fixed::PosInf => 1,
        _ => -1,
    }
}

/// The exact product of two values, with IEEE 754's rules for the
/// non-finite ones: NaN in, NaN out; infinity times zero is NaN; otherwise an
/// infinite factor gives an infinity of the product's sign.
pub open spec fn ext_mul(x: Fixed, y: Fixed) -> Extended {
    match (x, y) {
        (Fixed::NaN, _) | (_, Fixed::NaN) => Extended::NaN,
        (Fixed::Finite(a), Fixed::Finite(b)) => Extended::Finite(a * b),
        _ => if sign(x) * sign(y) == 0 {
            Extended::NaN
        } else if sign(x) * sign(y) > 0 {
            Extended::PosInf
        } else {
            Extended::NegInf
        },
    }
}

impl View for Fixed {
    type V = Extended;

    open spec fn view(&self) -> Extended {
        match *self {
            Fixed::Finite(u) => Extended::Finite(u * SCALE),
            Fixed::PosInf => Extended::PosInf,
            Fixed::NegInf => Extended::NegInf,
            Fixed::NaN => Extended::NaN,
        }
    }
}

/// Where a non-NaN value lies, as `tier` gives it.
fn tier_of(x: Fixed) -> (r: i8)
    requires
        !(x is NaN),
    ensures
        r == tier(x@),
{
    match x {
        Fixed::NegInf => -1,
        Fixed::PosInf => 1,
        _ => 0,
    }
}

impl Fixed {
    /// The whole number `n`.
    pub fn from_int(n: i32) -> (r: Fixed)
        ensures
            r matches Fixed::Finite(u) && u == n * SCALE,
    {
        Fixed::Finite(n as i64 * SCALE)
    }

    /// Zero.
    pub fn zero() -> (r: Fixed)
        ensures
            r@ == Extended::Finite(0),
    {
        Fixed::Finite(0)
    }

    /// `self < other`, as IEEE 754 compares.
    pub fn lt(&self, other: &Fixed) -> (r: bool)
        ensures
            r == ext_lt(self@, other@),
    {
        if self.is_nan() || other.is_nan() {
            return false;
        }
        match (*self, *other) {
            (Fixed::Finite(a), Fixed::Finite(b)) => a < b,
            _ => tier_of(*self) < tier_of(*other),
        }
    }

    /// `self > other`, as IEEE 754 compares.
    pub fn gt(&self, other: &Fixed) -> (r: bool)
        ensures
            r == ext_gt(self@, other@),
    {
        other.lt(self)
    }

    /// `self <= other`, as IEEE 754 compares.
    pub fn le(&self, other: &Fixed) -> (r: bool)
        ensures
            r == ext_le(self@, other@),
    {
        !self.is_nan() && !other.is_nan() && !other.lt(self)
    }

    /// Whether this is the not-a-number value.
    pub fn is_nan(&self) -> (r: bool)
        ensures
            r == (*self is NaN),
    {
        match self {
            Fixed::NaN => true,
            _ => false,
        }
    }
}

/// Whether `x * y > limit`, as IEEE 754 compares, with the product taken
/// exactly (a finite product never rounds or overflows to infinity).
pub fn product_gt(x: Fixed, y: Fixed, limit: Fixed) -> (r: bool)
    ensures
        r == ext_gt(ext_mul(x, y), limit@),
{
    if x.is_nan() || y.is_nan() || limit.is_nan() {
        return false;
    }
    match (x, y) {
        (Fixed::Finite(a), Fixed::Finite(b)) => {
            proof {
                lemma_product_fits(a as int, b as int);
            }
            let p: i128 = a as i128 * b as i128;
            match limit {
                Fixed::Finite(c) => p > c as i128 * SCALE as i128,
                Fixed::PosInf => false,
                _ => true,
            }
        },
        _ => {
            let (sx, sy): (i8, i8) = (sign_of(x), sign_of(y));
            if sx == 0 || sy == 0 {
                false
            } else if sx == sy {
                assert(sign(x) * sign(y) > 0) by (nonlinear_arith)
                    requires
                        sign(x) == sign(y),
                        sign(x) != 0,
                ;
                !matches!(limit, Fixed::PosInf)
            } else {
                assert(sign(x) * sign(y) < 0) by (nonlinear_arith)
                    requires
                        sign(x) == -sign(y),
                        sign(x) != 0,
                ;
                false
            }
        },
    }
}

/// The product of two `i64` values fits in an `i128`.
proof fn lemma_product_fits(a: int, b: int)
    requires
        i64::MIN <= a <= i64::MAX,
        i64::MIN <= b <= i64::MAX,
    ensures
        i128::MIN <= a * b <= i128::MAX,
{
    assert(-0x4000_0000_0000_0000_0000_0000_0000_0000 <= a * b <= 0x4000_0000_0000_0000_0000_0000_0000_0000)
        by (nonlinear_arith)
        requires
            -0x8000_0000_0000_0000 <= a <= 0x8000_0000_0000_0000,
            -0x8000_0000_0000_0000 <= b <= 0x8000_0000_0000_0000,
    ;
}

/// The sign of a non-NaN value, as `sign` gives it.
fn sign_of(x: Fixed) -> (r: i8)
    requires
        !(x is NaN),
    ensures
        r == sign(x),
{
    match x {
        Fixed::Finite(u) => if u > 0 { 1 } else if u < 0 { -1 } else { 0 },
        Fixed::PosInf => 1,
        _ => -1,
    }
}

} // verus!
