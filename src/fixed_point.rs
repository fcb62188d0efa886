//! Non-negative decimal quantities held as integers scaled by one thousand.

use vstd::prelude::*;
use vstd::std_specs::cmp::PartialOrdSpec;
use vstd::std_specs::ops::{AddSpec, DivSpec, MulSpec, SubSpec};

verus! {

/// Scale factor: three decimal digits of precision.
pub const SCALE: u128 = 1000;

/// A decimal value `v` held as the integer `v * SCALE`.
#[derive(Copy, Clone, Debug, PartialEq, Eq, Structural, Ord)]
pub struct FixedPoint(pub u128);

/// Product of two scaled values, rescaled by truncating division.
pub open spec fn fp_mul(a: int, b: int) -> int {
    a * b / SCALE as int
}

/// Quotient of two scaled values, rescaled before truncating division.
pub open spec fn fp_div(a: int, b: int) -> int {
    a * SCALE as int / b
}

impl FixedPoint {
    /// The scaled integer that this value holds.
    pub open spec fn raw(self) -> int {
        self.0 as int
    }

    /// Wraps a scaled integer amount as it stands.
    pub fn new(value: u64) -> (r: FixedPoint)
        ensures
            r.raw() == value,
    {
        FixedPoint(value as u128)
    }

    /// The scaled integer amount; the value must fit in 64 bits.
    pub fn to_u64(&self) -> (r: u64)
        requires
            self.raw() <= u64::MAX,
        ensures
            r == self.raw(),
    {
        self.0 as u64
    }

    /// The value 1.000.
    pub fn one() -> (r: FixedPoint)
        ensures
            r.raw() == SCALE,
    {
        FixedPoint(SCALE)
    }

    /// Exact sum, or `None` where it does not fit.
    pub fn checked_add(self, other: FixedPoint) -> (r: Option<FixedPoint>)
        ensures
            r == (if self.raw() + other.raw() <= u128::MAX {
                Some(FixedPoint((self.raw() + other.raw()) as u128))
            } else {
                None::<FixedPoint>
            }),
    {
        match self.0.checked_add(other.0) {
            Some(v) => Some(FixedPoint(v)),
            None => None,
        }
    }

    /// Exact difference, or `None` where `other` exceeds `self`.
    pub fn checked_sub(self, other: FixedPoint) -> (r: Option<FixedPoint>)
        ensures
            r == (if other.raw() <= self.raw() {
                Some(FixedPoint((self.raw() - other.raw()) as u128))
            } else {
                None::<FixedPoint>
            }),
    {
        if other.0 <= self.0 {
            Some(FixedPoint(self.0 - other.0))
        } else {
            None
        }
    }

    /// Rescaled product, or `None` where the product of the scaled
    /// integers does not fit.
    pub fn checked_mul(self, rhs: FixedPoint) -> (r: Option<FixedPoint>)
        ensures
            r == (if self.raw() * rhs.raw() <= u128::MAX {
                Some(FixedPoint(fp_mul(self.raw(), rhs.raw()) as u128))
            } else {
                None::<FixedPoint>
            }),
    {
        match self.0.checked_mul(rhs.0) {
            Some(p) => Some(FixedPoint(p / SCALE)),
            None => None,
        }
    }

    /// Rescaled quotient, or `None` where `rhs` is zero or the rescaled
    /// dividend does not fit.
    pub fn checked_div(self, rhs: FixedPoint) -> (r: Option<FixedPoint>)
        ensures
            r == (if rhs.raw() != 0 && self.raw() * SCALE <= u128::MAX {
                Some(FixedPoint(fp_div(self.raw(), rhs.raw()) as u128))
            } else {
                None::<FixedPoint>
            }),
    {
        if rhs.0 == 0 {
            return None;
        }
        match self.0.checked_mul(SCALE) {
            Some(p) => Some(FixedPoint(p / rhs.0)),
            None => None,
        }
    }

    /// The integer amount, or `None` where it does not fit in 64 bits.
    pub fn checked_to_u64(&self) -> (r: Option<u64>)
        ensures
            r == (if self.raw() <= u64::MAX {
                Some(self.0 as u64)
            } else {
                None::<u64>
            }),
    {
        if self.0 <= u64::MAX as u128 {
            Some(self.0 as u64)
        } else {
            None
        }
    }

    /// The decimal text of the value, with three fractional digits
    /// (`1234.567`).
    pub fn to_decimal_string(&self) -> (r: String)
        ensures
            r@ == decimal_text(self.0 as nat),
    {
        format_scaled(self.0 / SCALE, self.0 % SCALE)
    }
}

/// The digit character for `d`, which is below ten.
pub open spec fn digit_char(d: nat) -> char {
    seq!['0', '1', '2', '3', '4', '5', '6', '7', '8', '9'][d as int]
}

/// Decimal digits of `n`, without leading zeros.
pub open spec fn decimal_digits(n: nat) -> Seq<char>
    decreases n,
{
    if n < 10 {
        seq![digit_char(n)]
    } else {
        decimal_digits(n / 10).push(digit_char(n % 10))
    }
}

/// `f`, which is below one thousand, as exactly three digits.
pub open spec fn three_digits(f: nat) -> Seq<char> {
    seq![digit_char(f / 100), digit_char((f / 10) % 10), digit_char(f % 10)]
}

/// The text of the decimal value held by the scaled integer `v`.
pub open spec fn decimal_text(v: nat) -> Seq<char> {
    decimal_digits(v / SCALE as nat) + seq!['.'] + three_digits(v % SCALE as nat)
}

/// Relies on std's `format!`: `{}` writes an integer in decimal digits and
/// `{:03}` pads it with zeros to three digits.
#[verifier::external_body]
fn format_scaled(whole: u128, fraction: u128) -> (r: String)
    requires
        fraction < 1000,
    ensures
        r@ == decimal_digits(whole as nat) + seq!['.'] + three_digits(fraction as nat),
{
    format!("{}.{:03}", whole, fraction)
}

impl core::ops::Add for FixedPoint {
    type Output = FixedPoint;

    /// Exact sum.
    fn add(self, other: FixedPoint) -> (r: FixedPoint) {
        FixedPoint(self.0 + other.0)
    }
}

impl vstd::std_specs::ops::AddSpecImpl for FixedPoint {
    open spec fn obeys_add_spec() -> bool {
        true
    }

    open spec fn add_req(self, other: FixedPoint) -> bool {
        self.raw() + other.raw() <= u128::MAX
    }

    open spec fn add_spec(self, other: FixedPoint) -> FixedPoint {
        FixedPoint((self.raw() + other.raw()) as u128)
    }
}

impl core::ops::Sub for FixedPoint {
    type Output = FixedPoint;

    /// Exact difference; the right operand may not exceed the left.
    fn sub(self, other: FixedPoint) -> (r: FixedPoint) {
        FixedPoint(self.0 - other.0)
    }
}

impl vstd::std_specs::ops::SubSpecImpl for FixedPoint {
    open spec fn obeys_sub_spec() -> bool {
        true
    }

    open spec fn sub_req(self, other: FixedPoint) -> bool {
        other.raw() <= self.raw()
    }

    open spec fn sub_spec(self, other: FixedPoint) -> FixedPoint {
        FixedPoint((self.raw() - other.raw()) as u128)
    }
}

impl core::ops::Mul for FixedPoint {
    type Output = FixedPoint;

    /// Product of the scaled integers, with one scale factor divided out.
    fn mul(self, rhs: FixedPoint) -> (r: FixedPoint) {
        FixedPoint((self.0 * rhs.0) / SCALE)
    }
}

impl vstd::std_specs::ops::MulSpecImpl for FixedPoint {
    open spec fn obeys_mul_spec() -> bool {
        true
    }

    open spec fn mul_req(self, rhs: FixedPoint) -> bool {
        self.raw() * rhs.raw() <= u128::MAX
    }

    open spec fn mul_spec(self, rhs: FixedPoint) -> FixedPoint {
        FixedPoint(fp_mul(self.raw(), rhs.raw()) as u128)
    }
}

impl core::ops::Div for FixedPoint {
    type Output = FixedPoint;

    /// Quotient, with one scale factor multiplied in before dividing.
    fn div(self, rhs: FixedPoint) -> (r: FixedPoint) {
        FixedPoint(self.0 * SCALE / rhs.0)
    }
}

impl vstd::std_specs::ops::DivSpecImpl for FixedPoint {
    open spec fn obeys_div_spec() -> bool {
        true
    }

    open spec fn div_req(self, rhs: FixedPoint) -> bool {
        rhs.raw() != 0 && self.raw() * SCALE <= u128::MAX
    }

    open spec fn div_spec(self, rhs: FixedPoint) -> FixedPoint {
        FixedPoint(fp_div(self.raw(), rhs.raw()) as u128)
    }
}

impl PartialOrd for FixedPoint {
    /// Orders by the scaled integers.
    fn partial_cmp(&self, other: &FixedPoint) -> (r: Option<core::cmp::Ordering>) {
        if self.0 < other.0 {
            Some(core::cmp::Ordering::Less)
        } else if self.0 == other.0 {
            Some(core::cmp::Ordering::Equal)
        } else {
            Some(core::cmp::Ordering::Greater)
        }
    }
}

impl vstd::std_specs::cmp::PartialOrdSpecImpl for FixedPoint {
    open spec fn obeys_partial_cmp_spec() -> bool {
        true
    }

    open spec fn partial_cmp_spec(&self, other: &FixedPoint) -> Option<core::cmp::Ordering> {
        if self.raw() < other.raw() {
            Some(core::cmp::Ordering::Less)
        } else if self.raw() == other.raw() {
            Some(core::cmp::Ordering::Equal)
        } else {
            Some(core::cmp::Ordering::Greater)
        }
    }
}

impl From<u64> for FixedPoint {
    /// Takes an integer amount as the scaled integer, as `new` does.
    fn from(value: u64) -> (r: FixedPoint) {
        FixedPoint::new(value)
    }
}

impl vstd::std_specs::convert::FromSpecImpl<u64> for FixedPoint {
    open spec fn obeys_from_spec() -> bool {
        true
    }

    open spec fn from_spec(value: u64) -> FixedPoint {
        FixedPoint(value as u128)
    }
}

impl From<FixedPoint> for u64 {
    /// The scaled integer as an integer amount, saturating at `u64::MAX`;
    /// `FixedPoint::to_u64` is the exact conversion.
    fn from(value: FixedPoint) -> (r: u64) {
        if value.0 <= u64::MAX as u128 {
            value.0 as u64
        } else {
            u64::MAX
        }
    }
}

impl vstd::std_specs::convert::FromSpecImpl<FixedPoint> for u64 {
    open spec fn obeys_from_spec() -> bool {
        true
    }

    open spec fn from_spec(value: FixedPoint) -> u64 {
        if value.raw() <= u64::MAX {
            value.0 as u64
        } else {
            u64::MAX
        }
    }
}

/// Multiplying by a nonzero `b` and then dividing by `b` gives back `a` to
/// within less than one scale unit, and never more than `a`.
pub proof fn lemma_mul_div_within_one_unit(a: FixedPoint, b: FixedPoint)
    requires
        b.raw() != 0,
        a.mul_req(b),
    ensures
        a.mul_spec(b).div_req(b),
        a.raw() - SCALE < a.mul_spec(b).div_spec(b).raw() <= a.raw(),
{
    let x = a.raw();
    let y = b.raw();
    let p = x * y;
    let q = p / 1000;
    assert(q * 1000 <= p && p - 1000 < q * 1000) by (nonlinear_arith)
        requires
            q == p / 1000,
            p >= 0,
    ;
    assert(q * 1000 <= u128::MAX);
    assert(a.mul_spec(b).raw() == q);
    let r = (q * 1000) / y;
    assert(r <= x) by (nonlinear_arith)
        requires
            r == (q * 1000) / y,
            q * 1000 <= x * y,
            y > 0,
            q >= 0,
            x >= 0,
    ;
    assert(x - 1000 < r) by (nonlinear_arith)
        requires
            r == (q * 1000) / y,
            x * y - 1000 < q * 1000,
            y > 0,
            q >= 0,
            x >= 0,
    ;
}

/// Adding `b` and then subtracting it gives back `a` exactly.
pub proof fn lemma_add_sub_round_trip(a: FixedPoint, b: FixedPoint)
    requires
        a.add_req(b),
    ensures
        a.add_spec(b).sub_req(b),
        a.add_spec(b).sub_spec(b) == a,
{
}

/// The order of fixed-point values is the order of their scaled integers.
pub proof fn lemma_order_is_raw_order(a: FixedPoint, b: FixedPoint)
    ensures
        a.partial_cmp_spec(&b) == Some(core::cmp::Ordering::Less) <==> a.raw() < b.raw(),
        a.partial_cmp_spec(&b) == Some(core::cmp::Ordering::Equal) <==> a.raw() == b.raw(),
        a.partial_cmp_spec(&b) == Some(core::cmp::Ordering::Greater) <==> a.raw() > b.raw(),
        a.partial_cmp_spec(&b) is Some,
{
}

} // verus!
