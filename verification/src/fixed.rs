//! Bounded decimal fixed-point numbers.
//!
//! Every quantity of the rig (lengths, angles, speeds, seconds) is a whole
//! number of millionths, kept within one million units either side of zero.
//! Arithmetic is exact on the integers and saturates at that bound, so no
//! operation can overflow or yield a value that is not a number.

use vstd::prelude::*;

verus! {

/// Raw steps per unit: a `Fixed` counts millionths.
pub const SCALE: i64 = 1_000_000;

/// Largest magnitude a `Fixed` holds, in raw steps (one million units).
pub const LIMIT: i64 = 1_000_000_000_000;

/// Whether a raw value lies within the bound of `Fixed`.
pub open spec fn in_range(v: int) -> bool {
    -LIMIT <= v <= LIMIT
}

/// The nearest raw value within the bound of `Fixed`.
pub open spec fn saturate(v: int) -> int {
    if v < -LIMIT {
        -(LIMIT as int)
    } else if v > LIMIT {
        LIMIT as int
    } else {
        v
    }
}

/// Quotient rounded toward zero, for a positive divisor.
pub open spec fn quot(a: int, b: int) -> int
    recommends
        b > 0,
{
    if a >= 0 {
        a / b
    } else {
        -((-a) / b)
    }
}

/// Product of two raw values, as a raw value rounded toward zero.
pub open spec fn scaled_product(a: int, b: int) -> int {
    quot(a * b, SCALE as int)
}

/// Magnitude of an integer.
pub open spec fn magnitude(v: int) -> int {
    if v < 0 {
        -v
    } else {
        v
    }
}

/// `v` limited to the interval from `lo` to `hi`.
pub open spec fn limited(v: int, lo: int, hi: int) -> int
    recommends
        lo <= hi,
{
    if v < lo {
        lo
    } else if v > hi {
        hi
    } else {
        v
    }
}

/// Whether `r` is the largest non-negative integer whose square is at most `n`.
pub open spec fn is_floor_sqrt(n: int, r: int) -> bool {
    0 <= r && r * r <= n < (r + 1) * (r + 1)
}

/// The floor of the square root of `n`.
pub open spec fn floor_sqrt(n: int) -> int
    recommends
        n >= 0,
{
    choose|r: int| is_floor_sqrt(n, r)
}

/// A product is bounded by the product of the bounds of its factors.
pub proof fn lemma_product_bound(a: int, b: int, bound_a: int, bound_b: int)
    by (nonlinear_arith)
    requires
        -bound_a <= a <= bound_a,
        -bound_b <= b <= bound_b,
    ensures
        -(bound_a * bound_b) <= a * b <= bound_a * bound_b,
{
}

/// A quotient rounded toward zero keeps the sign of the dividend and is no
/// larger in magnitude; multiplied back it falls short by less than the
/// divisor.
pub proof fn lemma_quot_bounds(a: int, b: int)
    requires
        b > 0,
    ensures
        a >= 0 ==> 0 <= quot(a, b) <= a,
        a <= 0 ==> a <= quot(a, b) <= 0,
        a >= 0 ==> quot(a, b) * b <= a < quot(a, b) * b + b,
        a <= 0 ==> quot(a, b) * b - b < a <= quot(a, b) * b,
{
    if a >= 0 {
        assert(0 <= a / b <= a && (a / b) * b <= a < (a / b) * b + b) by (nonlinear_arith)
            requires
                a >= 0,
                b > 0,
        ;
    } else {
        let n = -a;
        assert(0 <= n / b <= n && (n / b) * b <= n < (n / b) * b + b) by (nonlinear_arith)
            requires
                n >= 0,
                b > 0,
        ;
        assert((-(n / b)) * b == -((n / b) * b)) by (nonlinear_arith);
    }
}

/// A dividend within `k` divisors of zero has a quotient within `k` of zero.
pub proof fn lemma_quot_scaled_bound(a: int, b: int, k: int)
    requires
        b > 0,
        k >= 0,
        -(k * b) <= a <= k * b,
    ensures
        -k <= quot(a, b) <= k,
{
    lemma_quot_bounds(a, b);
    let q = quot(a, b);
    if q > k {
        assert(q * b >= (k + 1) * b) by (nonlinear_arith)
            requires
                q >= k + 1,
                b > 0,
        ;
        assert((k + 1) * b == k * b + b) by (nonlinear_arith);
    } else if q < -k {
        assert(q * b <= (-k - 1) * b) by (nonlinear_arith)
            requires
                q <= -k - 1,
                b > 0,
        ;
        assert((-k - 1) * b == -(k * b) - b) by (nonlinear_arith);
    }
}

/// Every non-negative integer has a floor of its square root.
pub proof fn lemma_floor_sqrt_exists(n: int)
    requires
        n >= 0,
    ensures
        is_floor_sqrt(n, floor_sqrt(n)),
    decreases n,
{
    if n == 0 {
        assert(is_floor_sqrt(0, 0));
    } else {
        lemma_floor_sqrt_exists(n - 1);
        let r = floor_sqrt(n - 1);
        if (r + 1) * (r + 1) <= n {
            assert((r + 2) * (r + 2) > n) by (nonlinear_arith)
                requires
                    r >= 0,
                    n - 1 < (r + 1) * (r + 1),
            ;
            assert(is_floor_sqrt(n, r + 1));
        } else {
            assert(is_floor_sqrt(n, r));
        }
    }
}

/// There is exactly one floor of the square root of a non-negative integer.
pub proof fn lemma_floor_sqrt_unique(n: int, r: int)
    requires
        is_floor_sqrt(n, r),
    ensures
        floor_sqrt(n) == r,
{
    let s = floor_sqrt(n);
    assert(is_floor_sqrt(n, s));
    if s < r {
        assert((s + 1) * (s + 1) <= r * r) by (nonlinear_arith)
            requires
                0 <= s,
                s + 1 <= r,
        ;
    } else if s > r {
        assert((r + 1) * (r + 1) <= s * s) by (nonlinear_arith)
            requires
                0 <= r,
                r + 1 <= s,
        ;
    }
}

/// A number of millionths between minus and plus one million units.
#[derive(Clone, Copy, Debug, PartialEq, Eq, Structural)]
pub struct Fixed {
    raw: i64,
}

impl Fixed {
    #[verifier::type_invariant]
    spec fn bounded(self) -> bool {
        -LIMIT <= self.raw <= LIMIT
    }

    /// The value in millionths.
    pub closed spec fn view(self) -> int {
        self.raw as int
    }

    /// The value of `raw` millionths, saturated at the bound.
    pub fn from_micros(raw: i64) -> (r: Fixed)
        ensures
            r@ == saturate(raw as int),
    {
        if raw < -LIMIT {
            Fixed { raw: -LIMIT }
        } else if raw > LIMIT {
            Fixed { raw: LIMIT }
        } else {
            Fixed { raw }
        }
    }

    /// The value of `units` whole units, saturated at the bound.
    pub fn from_units(units: i32) -> (r: Fixed)
        ensures
            r@ == saturate(units * SCALE),
    {
        let wide: i64 = units as i64;
        Fixed::from_micros(wide * SCALE)
    }

    /// Zero.
    pub fn zero() -> (r: Fixed)
        ensures
            r@ == 0,
    {
        Fixed { raw: 0 }
    }

    /// The number of millionths.
    pub fn micros(self) -> (r: i64)
        ensures
            r == self@,
            in_range(self@),
    {
        proof {
            use_type_invariant(&self);
        }
        self.raw
    }

    /// The number of millionths, widened for exact intermediate arithmetic.
    pub(crate) fn wide(self) -> (r: i128)
        ensures
            r == self@,
            in_range(self@),
    {
        proof {
            use_type_invariant(&self);
        }
        self.raw as i128
    }

    /// The value of `v` millionths, saturated at the bound.
    pub(crate) fn narrow(v: i128) -> (r: Fixed)
        ensures
            r@ == saturate(v as int),
    {
        if v < -(LIMIT as i128) {
            Fixed { raw: -LIMIT }
        } else if v > LIMIT as i128 {
            Fixed { raw: LIMIT }
        } else {
            Fixed { raw: v as i64 }
        }
    }

    /// Whether the value is above zero.
    pub fn is_positive(self) -> (r: bool)
        ensures
            r == (self@ > 0),
    {
        self.raw > 0
    }

    /// Whether the value is below zero.
    pub fn is_negative(self) -> (r: bool)
        ensures
            r == (self@ < 0),
    {
        self.raw < 0
    }

    /// Whether the value is zero.
    pub fn is_zero(self) -> (r: bool)
        ensures
            r == (self@ == 0),
    {
        self.raw == 0
    }

    /// Whether `self` is below `other`.
    pub fn is_below(self, other: Fixed) -> (r: bool)
        ensures
            r == (self@ < other@),
    {
        self.raw < other.raw
    }

    /// Sum, saturated at the bound.
    pub fn plus(self, other: Fixed) -> (r: Fixed)
        ensures
            r@ == saturate(self@ + other@),
    {
        Fixed::narrow(self.wide() + other.wide())
    }

    /// Difference, saturated at the bound.
    pub fn minus(self, other: Fixed) -> (r: Fixed)
        ensures
            r@ == saturate(self@ - other@),
    {
        Fixed::narrow(self.wide() - other.wide())
    }

    /// The value with its sign reversed.
    pub fn negated(self) -> (r: Fixed)
        ensures
            r@ == -self@,
    {
        Fixed::narrow(-self.wide())
    }

    /// Product rounded toward zero, saturated at the bound.
    pub fn times(self, other: Fixed) -> (r: Fixed)
        ensures
            r@ == saturate(scaled_product(self@, other@)),
    {
        let a: i128 = self.wide();
        let b: i128 = other.wide();
        proof {
            lemma_product_bound(a as int, b as int, LIMIT as int, LIMIT as int);
        }
        Fixed::narrow(quot_exec(a * b, SCALE as i128))
    }

    /// The value limited to the interval from `lo` to `hi`.
    pub fn clamp(self, lo: Fixed, hi: Fixed) -> (r: Fixed)
        requires
            lo@ <= hi@,
        ensures
            r@ == limited(self@, lo@, hi@),
    {
        if self.raw < lo.raw {
            lo
        } else if self.raw > hi.raw {
            hi
        } else {
            self
        }
    }
}

/// Quotient rounded toward zero.
pub(crate) fn quot_exec(a: i128, b: i128) -> (r: i128)
    requires
        b > 0,
    ensures
        r == quot(a as int, b as int),
{
    a / b
}

/// The floor of the square root of `n`, by bisection.
pub(crate) fn isqrt(n: u128) -> (r: u128)
    requires
        n < 0x4000_0000_0000_0000_0000_0000_0000_0000,
    ensures
        r == floor_sqrt(n as int),
        is_floor_sqrt(n as int, r as int),
        r < 0x8000_0000_0000_0000,
{
    let mut lo: u128 = 0;
    let mut hi: u128 = 0x8000_0000_0000_0000;
    assert(0x8000_0000_0000_0000u128 * 0x8000_0000_0000_0000u128
        == 0x4000_0000_0000_0000_0000_0000_0000_0000u128) by (nonlinear_arith);
    while hi - lo > 1
        invariant
            lo < hi <= 0x8000_0000_0000_0000,
            lo * lo <= n < hi * hi,
        decreases hi - lo,
    {
        let mid: u128 = lo + (hi - lo) / 2;
        assert(mid * mid < 0x8000_0000_0000_0000 * 0x8000_0000_0000_0000) by (nonlinear_arith)
            requires
                mid < 0x8000_0000_0000_0000,
        ;
        if mid * mid <= n {
            lo = mid;
        } else {
            hi = mid;
        }
    }
    proof {
        lemma_floor_sqrt_unique(n as int, lo as int);
    }
    lo
}

} // verus!
