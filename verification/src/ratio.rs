//! Exact fractions for normalised readings.

use vstd::prelude::*;

verus! {

/// An exact fraction `num / den`.
///
/// Every fraction the library hands out has a positive denominator, so its
/// sign is the sign of `num`, and it lies in `[0, 1]` exactly when
/// `0 <= num <= den`. Fractions are not reduced to lowest terms, and `==`
/// compares numerator and denominator: `1/2` and `2/4` are different values
/// of the type though the same number. Compare numbers with
/// [`Ratio::same_value_as`].
#[derive(Clone, Copy, Debug, PartialEq, Eq, Hash, Structural)]
pub struct Ratio {
    pub num: i32,
    pub den: i32,
}

impl Ratio {
    /// The denominator is positive.
    pub open spec fn wf(self) -> bool {
        self.den > 0
    }

    /// The fraction lies in the closed unit interval.
    pub open spec fn in_unit(self) -> bool {
        self.wf() && 0 <= self.num <= self.den
    }

    /// `self` and `other` stand for the same number.
    pub open spec fn same_value(self, other: Ratio) -> bool {
        self.num * other.den == other.num * self.den
    }

    /// Whether `self` and `other` stand for the same number (`1/2` and `2/4`
    /// do).
    pub fn same_value_as(self, other: Ratio) -> (r: bool)
        ensures
            r == self.same_value(other),
    {
        let (a, b, c, d) = (self.num as i64, self.den as i64, other.num as i64, other.den as i64);
        proof {
            lemma_product_fits(a as int, d as int);
            lemma_product_fits(c as int, b as int);
        }
        let lhs: i64 = a * d;
        let rhs: i64 = c * b;
        lhs == rhs
    }

    pub open spec fn zero() -> Ratio {
        Ratio { num: 0, den: 1 }
    }

    pub open spec fn one() -> Ratio {
        Ratio { num: 1, den: 1 }
    }
}

proof fn lemma_product_fits(x: int, y: int)
    requires
        i32::MIN <= x <= i32::MAX,
        i32::MIN <= y <= i32::MAX,
    ensures
        i64::MIN <= x * y <= i64::MAX,
{
    assert(-0x8000_0000 * 0x8000_0000 <= x * y <= 0x8000_0000 * 0x8000_0000) by (nonlinear_arith)
        requires
            -0x8000_0000 <= x <= 0x7fff_ffff,
            -0x8000_0000 <= y <= 0x7fff_ffff,
    ;
}

/// `v` clamped to `[0, 1]`: below zero gives `0/1`, above one gives `1/1`,
/// anything else is `v` itself.
pub open spec fn clamp01_spec(v: Ratio) -> Ratio {
    if v.num < 0 {
        Ratio::zero()
    } else if v.num > v.den {
        Ratio::one()
    } else {
        v
    }
}

/// The quotient `n / d` clamped to `[0, 1]`.
///
/// A negative divisor is moved into the numerator's sign. A zero divisor
/// leaves no width to measure against: a dividend above it counts as past the
/// end (one), anything else as at the start (zero), so the result is always a
/// number of the unit interval.
pub open spec fn clamped_quotient_spec(n: int, d: int) -> Ratio {
    if d == 0 {
        if n > 0 {
            Ratio::one()
        } else {
            Ratio::zero()
        }
    } else if d > 0 {
        clamp01_spec(Ratio { num: n as i32, den: d as i32 })
    } else {
        clamp01_spec(Ratio { num: -n as i32, den: -d as i32 })
    }
}

/// Clamp a fraction with positive denominator to `[0, 1]`.
pub fn clamp01(v: Ratio) -> (r: Ratio)
    requires
        v.wf(),
    ensures
        r == clamp01_spec(v),
        r.in_unit(),
{
    if v.num < 0 {
        Ratio { num: 0, den: 1 }
    } else if v.num > v.den {
        Ratio { num: 1, den: 1 }
    } else {
        v
    }
}

/// `n / d` clamped to `[0, 1]`; see [`clamped_quotient_spec`].
pub fn clamped_quotient(n: i32, d: i32) -> (r: Ratio)
    requires
        i32::MIN < n,
        i32::MIN < d,
    ensures
        r == clamped_quotient_spec(n as int, d as int),
        r.in_unit(),
{
    if d == 0 {
        if n > 0 {
            Ratio { num: 1, den: 1 }
        } else {
            Ratio { num: 0, den: 1 }
        }
    } else if d > 0 {
        clamp01(Ratio { num: n, den: d })
    } else {
        clamp01(Ratio { num: -n, den: -d })
    }
}

} // verus!
