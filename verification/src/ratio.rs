//! Whole-number arithmetic for interpolation.
//!
//! Property values are signed 64-bit counts of whatever unit the caller
//! picked (pixels, thousandths of a pixel, colour steps...). A stage moves a
//! value by a fraction of its delta; that fraction is a [`Ratio`]. Products
//! are taken exactly, quotients round down, and sums that leave the 64-bit
//! range stop at its ends.

use vstd::prelude::*;
use vstd::arithmetic::div_mod::lemma_fundamental_div_mod_converse;

verus! {

/// The fraction `num / den`, negated when `negative` is set.
///
/// A zero denominator stands for the fraction zero, so every bit pattern is a
/// usable ratio.
#[derive(Clone, Copy, Debug, PartialEq, Eq, Structural)]
pub struct Ratio {
    pub negative: bool,
    pub num: u64,
    pub den: u64,
}

impl Ratio {
    /// The numerator with its sign.
    pub open spec fn signed_num(self) -> int {
        if self.negative {
            -(self.num as int)
        } else {
            self.num as int
        }
    }

    /// Whether the fraction is exactly one.
    pub open spec fn is_one(self) -> bool {
        !self.negative && self.den > 0 && self.num == self.den
    }

    /// Whether the fraction is exactly zero.
    pub open spec fn is_zero(self) -> bool {
        self.den == 0 || self.num == 0
    }

    /// Whether the fraction lies in the half-open interval from zero to one.
    pub open spec fn in_unit_interval(self) -> bool {
        self.is_zero() || (!self.negative && self.num < self.den)
    }

    /// The fraction `num / den` of a signed numerator.
    pub fn new(num: i64, den: u64) -> (r: Ratio)
        ensures
            r.signed_num() == num,
            r.den == den,
            r.negative == (num < 0),
    {
        if num < 0 {
            let wide: i128 = num as i128;
            let magnitude: i128 = -wide;
            Ratio { negative: true, num: magnitude as u64, den }
        } else {
            Ratio { negative: false, num: num as u64, den }
        }
    }

    /// The fraction zero.
    pub fn zero() -> (r: Ratio)
        ensures
            r == (Ratio { negative: false, num: 0, den: 1 }),
            r.is_zero(),
    {
        Ratio { negative: false, num: 0, den: 1 }
    }

    /// The fraction one.
    pub fn one() -> (r: Ratio)
        ensures
            r == (Ratio { negative: false, num: 1, den: 1 }),
            r.is_one(),
    {
        Ratio { negative: false, num: 1, den: 1 }
    }
}

/// `x` brought into the range of a signed 64-bit value.
pub open spec fn clamp(x: int) -> int {
    if x < i64::MIN {
        i64::MIN as int
    } else if x > i64::MAX {
        i64::MAX as int
    } else {
        x
    }
}

/// The part `r` of `delta`, rounded down to a whole number.
pub open spec fn scaled(delta: int, r: Ratio) -> int {
    if r.den == 0 {
        0
    } else {
        (delta * r.signed_num()) / (r.den as int)
    }
}

/// The value a field takes when it has moved the part `r` of `delta` away
/// from `start`.
pub open spec fn lerp_value(start: int, delta: int, r: Ratio) -> int {
    clamp(start + scaled(delta, r))
}

/// A whole delta is added at ratio one.
pub proof fn lemma_scaled_one(delta: int, r: Ratio)
    requires
        r.is_one(),
    ensures
        scaled(delta, r) == delta,
{
    let d = r.den as int;
    assert(delta * d == delta * d + 0);
    lemma_fundamental_div_mod_converse(delta * d, d, delta, 0);
}

/// Nothing is added at ratio zero.
pub proof fn lemma_scaled_zero(delta: int, r: Ratio)
    requires
        r.is_zero(),
    ensures
        scaled(delta, r) == 0,
{
    if r.den != 0 {
        assert(delta * r.signed_num() == 0) by (nonlinear_arith)
            requires
                r.signed_num() == 0,
        ;
        lemma_fundamental_div_mod_converse(0, r.den as int, 0, 0);
    }
}

/// `a + b`, stopping at the ends of the 64-bit range.
pub fn add_clamped(a: i64, b: i64) -> (v: i64)
    ensures
        v == clamp(a + b),
{
    let sum: i128 = a as i128 + b as i128;
    if sum > i64::MAX as i128 {
        i64::MAX
    } else if sum < i64::MIN as i128 {
        i64::MIN
    } else {
        sum as i64
    }
}

/// Splits the product `delta * r` into the sign of the product and the whole
/// and fractional parts of its magnitude over `r.den`.
fn split_product(delta: i64, r: Ratio) -> (out: (bool, u128, bool))
    requires
        r.den > 0,
    ensures
        ({
            let (below_zero, whole, exact) = out;
            let p = delta * r.signed_num();
            let m = if p < 0 {
                -p
            } else {
                p
            };
            &&& below_zero == (p < 0)
            &&& whole == m / (r.den as int)
            &&& exact == (m % (r.den as int) == 0)
            &&& whole <= m <= 0x8000_0000_0000_0000 * 0xffff_ffff_ffff_ffff
        }),
{
    let wide: i128 = delta as i128;
    let size: u128 = if wide < 0 {
        (-wide) as u128
    } else {
        wide as u128
    };
    let num: u128 = r.num as u128;
    let den: u128 = r.den as u128;
    assert(size * num <= 0x8000_0000_0000_0000 * 0xffff_ffff_ffff_ffff) by (nonlinear_arith)
        requires
            size <= 0x8000_0000_0000_0000,
            num <= 0xffff_ffff_ffff_ffff,
    ;
    let magnitude: u128 = size * num;
    let below_zero: bool = magnitude != 0 && ((delta < 0) != r.negative);
    proof {
        let p = delta * r.signed_num();
        assert(p == if (delta < 0) != r.negative {
            -(size * num)
        } else {
            size * num
        }) by (nonlinear_arith)
            requires
                p == delta * r.signed_num(),
                size == (if delta < 0 {
                    -delta
                } else {
                    delta as int
                }),
                r.signed_num() == (if r.negative {
                    -(num as int)
                } else {
                    num as int
                }),
        ;
    }
    proof {
        vstd::arithmetic::div_mod::lemma_div_is_ordered_by_denominator(
            magnitude as int,
            1,
            den as int,
        );
    }
    (below_zero, magnitude / den, magnitude % den == 0)
}

/// Moves `start` by the part `r` of `delta`.
pub fn lerp(start: i64, delta: i64, r: Ratio) -> (v: i64)
    ensures
        v == lerp_value(start as int, delta as int, r),
{
    if r.den == 0 {
        return start;
    }
    let (below_zero, whole, exact) = split_product(delta, r);
    let ghost p = delta * r.signed_num();
    let ghost d = r.den as int;
    let ghost m = if p < 0 {
        -p
    } else {
        p
    };
    proof {
        vstd::arithmetic::div_mod::lemma_fundamental_div_mod(m, d);
        vstd::arithmetic::div_mod::lemma_mod_bound(m, d);
        assert(d * (m / d) == (m / d) * d) by (nonlinear_arith);
    }
    if !below_zero {
        if whole > 0x1_0000_0000_0000_0000 {
            i64::MAX
        } else {
            let sum: i128 = start as i128 + whole as i128;
            if sum > i64::MAX as i128 {
                i64::MAX
            } else {
                sum as i64
            }
        }
    } else {
        let steps: u128 = if exact {
            whole
        } else {
            whole + 1
        };
        proof {
            if exact {
                assert(p == (-(m / d)) * d + 0) by (nonlinear_arith)
                    requires
                        p == -m,
                        m == (m / d) * d + m % d,
                        m % d == 0,
                ;
                lemma_fundamental_div_mod_converse(p, d, -(m / d), 0);
            } else {
                assert(p == (-(m / d) - 1) * d + (d - m % d)) by (nonlinear_arith)
                    requires
                        p == -m,
                        m == (m / d) * d + m % d,
                ;
                lemma_fundamental_div_mod_converse(p, d, -(m / d) - 1, d - m % d);
            }
            assert(p / d == -(steps as int));
        }
        if steps > 0x1_0000_0000_0000_0000 {
            i64::MIN
        } else {
            let sum: i128 = start as i128 - steps as i128;
            if sum < i64::MIN as i128 {
                i64::MIN
            } else {
                sum as i64
            }
        }
    }
}

} // verus!
