//! Fixed-point real numbers.
use vstd::prelude::*;

verus! {

/// Number of raw units in one whole: values are kept in millionths.
pub const ONE: i64 = 1_000_000;

/// Clamps a mathematical integer into the range of `i64`.
pub open spec fn clamp_i64(x: int) -> int {
    if x < i64::MIN {
        i64::MIN as int
    } else if x > i64::MAX {
        i64::MAX as int
    } else {
        x
    }
}

/// Clamps a mathematical integer into the range of `i32`.
pub open spec fn clamp_i32(x: int) -> int {
    if x < i32::MIN {
        i32::MIN as int
    } else if x > i32::MAX {
        i32::MAX as int
    } else {
        x
    }
}

/// Division rounding toward zero, as Rust's integer division does.
pub open spec fn div_trunc(a: int, d: int) -> int
    recommends
        d > 0,
{
    if a >= 0 {
        a / d
    } else {
        -((-a) / d)
    }
}

/// Quotient rounding toward zero, for a divisor of either sign.
pub open spec fn quot_trunc(a: int, b: int) -> int
    recommends
        b != 0,
{
    if b > 0 {
        div_trunc(a, b)
    } else {
        -div_trunc(a, -b)
    }
}

/// The product of two fixed-point values given in raw units, rounded toward
/// zero and saturated.
pub open spec fn mul_raw(a: int, b: int) -> int {
    clamp_i64(div_trunc(a * b, ONE as int))
}

/// A real number as a count of millionths. Arithmetic saturates at the
/// bounds of `i64` instead of overflowing.
#[derive(Clone, Copy, Debug, PartialEq, Eq, Structural)]
pub struct Fixed {
    /// The value in millionths.
    pub micros: i64,
}

impl Fixed {
    /// The value as a mathematical integer of millionths.
    pub open spec fn raw(self) -> int {
        self.micros as int
    }

    /// A value given in millionths.
    pub fn from_micros(micros: i64) -> (r: Fixed)
        ensures
            r.raw() == micros,
    {
        Fixed { micros }
    }

    /// A whole number.
    pub fn from_int(n: i32) -> (r: Fixed)
        ensures
            r.raw() == n * ONE,
    {
        Fixed { micros: n as i64 * ONE }
    }

    /// Zero.
    pub fn zero() -> (r: Fixed)
        ensures
            r.raw() == 0,
    {
        Fixed { micros: 0 }
    }

    /// One, in specifications.
    pub open spec fn one_spec() -> Fixed {
        Fixed { micros: ONE }
    }

    /// One.
    pub fn one() -> (r: Fixed)
        ensures
            r.raw() == ONE,
            r == Fixed::one_spec(),
    {
        Fixed { micros: ONE }
    }

    /// The value in millionths.
    pub fn micros(self) -> (r: i64)
        ensures
            r == self.raw(),
    {
        self.micros
    }

    /// Sum, saturated.
    pub fn saturating_add(self, other: Fixed) -> (r: Fixed)
        ensures
            r.raw() == clamp_i64(self.raw() + other.raw()),
    {
        let s: i128 = self.micros as i128 + other.micros as i128;
        Fixed { micros: saturate(s) }
    }

    /// Difference, saturated.
    pub fn saturating_sub(self, other: Fixed) -> (r: Fixed)
        ensures
            r.raw() == clamp_i64(self.raw() - other.raw()),
    {
        let s: i128 = self.micros as i128 - other.micros as i128;
        Fixed { micros: saturate(s) }
    }

    /// Negation, saturated.
    pub fn saturating_neg(self) -> (r: Fixed)
        ensures
            r.raw() == clamp_i64(-self.raw()),
    {
        let s: i128 = -(self.micros as i128);
        Fixed { micros: saturate(s) }
    }

    /// Absolute value, saturated.
    pub fn saturating_abs(self) -> (r: Fixed)
        ensures
            r.raw() == clamp_i64(if self.raw() < 0 { -self.raw() } else { self.raw() }),
            r.raw() >= 0,
    {
        if self.micros < 0 {
            self.saturating_neg()
        } else {
            self
        }
    }

    /// Product, rounded toward zero and saturated.
    pub fn saturating_mul(self, other: Fixed) -> (r: Fixed)
        ensures
            r.raw() == mul_raw(self.raw(), other.raw()),
    {
        proof {
            lemma_product_bound(self.raw(), other.raw());
        }
        let p: i128 = self.micros as i128 * other.micros as i128;
        let q: i128 = div_trunc_exec(p, ONE as i128);
        Fixed { micros: saturate(q) }
    }

    /// Quotient, rounded toward zero and saturated.
    pub fn saturating_div(self, other: Fixed) -> (r: Fixed)
        requires
            other.raw() != 0,
        ensures
            r.raw() == clamp_i64(quot_trunc(self.raw() * ONE, other.raw())),
    {
        proof {
            lemma_product_bound(self.raw(), ONE as int);
        }
        let n: i128 = self.micros as i128 * ONE as i128;
        let q: i128 = if other.micros > 0 {
            div_trunc_exec(n, other.micros as i128)
        } else {
            -div_trunc_exec(n, -(other.micros as i128))
        };
        Fixed { micros: saturate(q) }
    }

    /// Half, rounded toward zero.
    pub fn half(self) -> (r: Fixed)
        ensures
            r.raw() == div_trunc(self.raw(), 2),
    {
        Fixed { micros: div_trunc_exec(self.micros as i128, 2) as i64 }
    }

    /// The whole part, rounded toward zero.
    pub fn trunc(self) -> (r: i64)
        ensures
            r == div_trunc(self.raw(), ONE as int),
    {
        div_trunc_exec(self.micros as i128, ONE as i128) as i64
    }

    /// The whole part, rounded toward zero and saturated into `i32`.
    pub fn trunc_i32(self) -> (r: i32)
        ensures
            r == clamp_i32(div_trunc(self.raw(), ONE as int)),
    {
        let q: i128 = div_trunc_exec(self.micros as i128, ONE as i128);
        if q < i32::MIN as i128 {
            i32::MIN
        } else if q > i32::MAX as i128 {
            i32::MAX
        } else {
            q as i32
        }
    }
}

/// The product of two `i64` values is well within `i128`.
proof fn lemma_product_bound(a: int, b: int)
    requires
        i64::MIN <= a <= i64::MAX,
        i64::MIN <= b <= i64::MAX,
    ensures
        -0x4000_0000_0000_0000_0000_0000_0000_0000 <= a * b <= 0x4000_0000_0000_0000_0000_0000_0000_0000,
{
    assert(-0x8000_0000_0000_0000 <= a <= 0x8000_0000_0000_0000);
    assert(-0x8000_0000_0000_0000 <= b <= 0x8000_0000_0000_0000);
    assert(-0x4000_0000_0000_0000_0000_0000_0000_0000 <= a * b <= 0x4000_0000_0000_0000_0000_0000_0000_0000)
        by (nonlinear_arith)
        requires
            -0x8000_0000_0000_0000 <= a <= 0x8000_0000_0000_0000,
            -0x8000_0000_0000_0000 <= b <= 0x8000_0000_0000_0000,
    ;
}

/// Saturates an `i128` into `i64`.
fn saturate(x: i128) -> (r: i64)
    ensures
        r == clamp_i64(x as int),
{
    if x < i64::MIN as i128 {
        i64::MIN
    } else if x > i64::MAX as i128 {
        i64::MAX
    } else {
        x as i64
    }
}

/// Division rounding toward zero of a product of two `i64` values.
pub(crate) fn div_trunc_exec(a: i128, d: i128) -> (r: i128)
    requires
        d > 0,
        -0x7fff_ffff_ffff_ffff_ffff_ffff_ffff_ffff <= a,
    ensures
        r == div_trunc(a as int, d as int),
{
    if a >= 0 {
        ((a as u128) / (d as u128)) as i128
    } else {
        let q: u128 = ((-a) as u128) / (d as u128);
        -(q as i128)
    }
}

} // verus!
