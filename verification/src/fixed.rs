use vstd::prelude::*;

verus! {

/// Number of raw units in one whole: a [`Fixed`] counts millionths.
pub const SCALE: i64 = 1_000_000;

/// The integer nearest to `x` that an `i64` can hold.
pub open spec fn sat(x: int) -> i64 {
    if x < i64::MIN as int {
        i64::MIN
    } else if x > i64::MAX as int {
        i64::MAX
    } else {
        x as i64
    }
}

/// The largest `r` with `r * r <= n`.
pub open spec fn is_sqrt(n: nat, r: nat) -> bool {
    r * r <= n && n < (r + 1) * (r + 1)
}

/// The integer square root, as a function.
pub open spec fn sqrt_floor(n: nat) -> nat {
    choose|r: nat| is_sqrt(n, r)
}

/// Squaring is monotone on the naturals.
pub proof fn lemma_square_monotone(a: nat, b: nat)
    requires
        a <= b,
    ensures
        a * a <= b * b,
{
    assert(a * a <= b * b) by (nonlinear_arith)
        requires
            a <= b,
    ;
}

/// There is exactly one integer square root.
pub proof fn lemma_sqrt_unique(n: nat, r: nat)
    requires
        is_sqrt(n, r),
    ensures
        sqrt_floor(n) == r,
{
    let s = sqrt_floor(n);
    assert(is_sqrt(n, s));
    if s < r {
        lemma_square_monotone(s + 1, r);
    }
    if r < s {
        lemma_square_monotone(r + 1, s);
    }
}

/// Saturating `i64` addition.
pub fn sat_add(a: i64, b: i64) -> (r: i64)
    ensures
        r == sat(a + b),
{
    let s: i128 = a as i128 + b as i128;
    clamp_wide(s)
}

/// Saturating `i64` subtraction.
pub fn sat_sub(a: i64, b: i64) -> (r: i64)
    ensures
        r == sat(a - b),
{
    let s: i128 = a as i128 - b as i128;
    clamp_wide(s)
}

/// Saturating `i64` negation.
pub fn sat_neg(a: i64) -> (r: i64)
    ensures
        r == sat(-a),
{
    if a == i64::MIN {
        i64::MAX
    } else {
        -a
    }
}

/// Saturating absolute value.
pub fn sat_abs(a: i64) -> (r: i64)
    ensures
        r == sat(if a < 0 { -a } else { a as int }),
        r >= 0,
{
    if a < 0 {
        sat_neg(a)
    } else {
        a
    }
}

/// Sign of an integer: -1, 0 or 1.
pub open spec fn spec_signum(a: int) -> int {
    if a < 0 {
        -1
    } else if a > 0 {
        1
    } else {
        0
    }
}

/// Sign of an integer: -1, 0 or 1.
pub fn signum(a: i64) -> (r: i64)
    ensures
        r == spec_signum(a as int),
{
    if a < 0 {
        -1
    } else if a > 0 {
        1
    } else {
        0
    }
}

/// Brings a wide integer into the range of `i64`.
pub fn clamp_wide(x: i128) -> (r: i64)
    ensures
        r == sat(x as int),
{
    if x < i64::MIN as i128 {
        i64::MIN
    } else if x > i64::MAX as i128 {
        i64::MAX
    } else {
        x as i64
    }
}

/// Division rounding toward negative infinity, for a positive divisor.
pub fn floor_div(n: i128, d: i128) -> (q: i128)
    requires
        d > 0,
        -0x4000_0000_0000_0000_0000_0000_0000_0000 <= n <= 0x4000_0000_0000_0000_0000_0000_0000_0000,
        d <= 0x4000_0000_0000_0000_0000_0000_0000_0000,
    ensures
        q == n as int / d as int,
{
    if n >= 0 {
        n / d
    } else {
        let m: i128 = -n - 1;
        let c: i128 = m / d;
        proof {
            let ni = n as int;
            let di = d as int;
            let ci = c as int;
            assert(-ci - 1 == ni / di) by (nonlinear_arith)
                requires
                    di > 0,
                    ni < 0,
                    ci == (-ni - 1) / di,
            ;
        }
        -c - 1
    }
}

/// Integer square root by bisection.
pub fn isqrt(n: u128) -> (r: u128)
    ensures
        is_sqrt(n as nat, r as nat),
        r as nat == sqrt_floor(n as nat),
        r <= 0xFFFF_FFFF_FFFF_FFFF,
{
    let mut lo: u128 = 0;
    let mut hi: u128 = 0x1_0000_0000_0000_0000;
    proof {
        assert(0x1_0000_0000_0000_0000u128 * 0x1_0000_0000_0000_0000u128 > n) by (nonlinear_arith);
    }
    while hi - lo > 1
        invariant
            lo < hi <= 0x1_0000_0000_0000_0000,
            lo * lo <= n,
            n < hi * hi,
        decreases hi - lo,
    {
        let mid: u128 = lo + (hi - lo) / 2;
        assert(mid * mid <= 0xFFFF_FFFF_FFFF_FFFF * 0xFFFF_FFFF_FFFF_FFFF) by (nonlinear_arith)
            requires
                mid <= 0xFFFF_FFFF_FFFF_FFFF,
        ;
        if mid * mid <= n {
            lo = mid;
        } else {
            hi = mid;
        }
    }
    proof {
        assert(hi == lo + 1);
        lemma_sqrt_unique(n as nat, lo as nat);
    }
    lo
}

/// A real number held as a whole count of millionths, in an `i64`.
///
/// Every operation is total: a result that the `i64` cannot hold is replaced by
/// the nearest value that it can hold, and a quotient or product that is not a
/// whole count of millionths is rounded toward negative infinity.
#[derive(Debug, Clone, Copy, PartialEq, Eq, Structural, PartialOrd, Ord, Hash)]
pub struct Fixed {
    /// The count of millionths.
    pub raw: i64,
}

impl Fixed {
    /// The product of two numbers, in millionths.
    pub open spec fn spec_mul(self, other: Fixed) -> Fixed {
        Fixed { raw: sat((self.raw as int * other.raw as int) / (SCALE as int)) }
    }

    /// The quotient of two numbers, in millionths. Dividing by zero gives the
    /// largest or smallest number by the sign of the dividend, and zero for zero.
    pub open spec fn spec_div(self, other: Fixed) -> Fixed {
        if other.raw == 0 {
            Fixed {
                raw: if self.raw > 0 {
                    i64::MAX
                } else if self.raw < 0 {
                    i64::MIN
                } else {
                    0
                },
            }
        } else if other.raw > 0 {
            Fixed { raw: sat((self.raw as int * SCALE as int) / (other.raw as int)) }
        } else {
            Fixed { raw: sat((-(self.raw as int) * SCALE as int) / (-(other.raw as int))) }
        }
    }

    pub open spec fn spec_add(self, other: Fixed) -> Fixed {
        Fixed { raw: sat(self.raw + other.raw) }
    }

    pub open spec fn spec_sub(self, other: Fixed) -> Fixed {
        Fixed { raw: sat(self.raw - other.raw) }
    }

    pub open spec fn spec_neg(self) -> Fixed {
        Fixed { raw: sat(-self.raw) }
    }

    pub open spec fn spec_abs(self) -> Fixed {
        Fixed { raw: sat(if self.raw < 0 { -self.raw } else { self.raw as int }) }
    }

    /// `self` brought into `[lo, hi]`; `lo` wins where the bounds cross.
    pub open spec fn spec_clamp(self, lo: Fixed, hi: Fixed) -> Fixed {
        if self.raw < lo.raw {
            lo
        } else if self.raw > hi.raw {
            if hi.raw < lo.raw {
                lo
            } else {
                hi
            }
        } else {
            self
        }
    }

    pub open spec fn spec_max(self, other: Fixed) -> Fixed {
        if self.raw >= other.raw {
            self
        } else {
            other
        }
    }

    pub open spec fn spec_min(self, other: Fixed) -> Fixed {
        if self.raw <= other.raw {
            self
        } else {
            other
        }
    }

    /// The whole number of units, as a number of millionths.
    pub open spec fn spec_from_int(n: int) -> Fixed {
        Fixed { raw: sat(n * SCALE as int) }
    }

    /// The largest whole number not above `self`.
    pub open spec fn spec_floor_int(self) -> int {
        self.raw as int / (SCALE as int)
    }

    /// The whole number nearest to `self`, halves rounded away from zero.
    pub open spec fn spec_round_int(self) -> int {
        if self.raw >= 0 {
            (self.raw as int + 500_000) / (SCALE as int)
        } else {
            -((-(self.raw as int) + 500_000) / (SCALE as int))
        }
    }

    /// What is left of `self` above its floor: in `[0, 1)`.
    pub open spec fn spec_fract(self) -> Fixed {
        Fixed { raw: (self.raw as int % (SCALE as int)) as i64 }
    }

    pub fn zero() -> (r: Fixed)
        ensures
            r.raw == 0,
    {
        Fixed { raw: 0 }
    }

    pub fn one() -> (r: Fixed)
        ensures
            r.raw == SCALE,
    {
        Fixed { raw: SCALE }
    }

    /// The number with the given count of millionths.
    pub fn from_raw(raw: i64) -> (r: Fixed)
        ensures
            r.raw == raw,
    {
        Fixed { raw }
    }

    /// The whole number `n`.
    pub fn from_int(n: i64) -> (r: Fixed)
        ensures
            r == Fixed::spec_from_int(n as int),
    {
        let wide: i128 = n as i128 * SCALE as i128;
        Fixed { raw: clamp_wide(wide) }
    }

    pub fn add(self, other: Fixed) -> (r: Fixed)
        ensures
            r == self.spec_add(other),
    {
        Fixed { raw: sat_add(self.raw, other.raw) }
    }

    pub fn sub(self, other: Fixed) -> (r: Fixed)
        ensures
            r == self.spec_sub(other),
    {
        Fixed { raw: sat_sub(self.raw, other.raw) }
    }

    pub fn neg(self) -> (r: Fixed)
        ensures
            r == self.spec_neg(),
    {
        Fixed { raw: sat_neg(self.raw) }
    }

    pub fn abs(self) -> (r: Fixed)
        ensures
            r == self.spec_abs(),
            r.raw >= 0,
    {
        Fixed { raw: sat_abs(self.raw) }
    }

    pub fn mul(self, other: Fixed) -> (r: Fixed)
        ensures
            r == self.spec_mul(other),
    {
        let a: i128 = self.raw as i128;
        let b: i128 = other.raw as i128;
        assert(-0x4000_0000_0000_0000_0000_0000_0000_0000 <= a * b
            <= 0x4000_0000_0000_0000_0000_0000_0000_0000) by (nonlinear_arith)
            requires
                -0x8000_0000_0000_0000 <= a <= 0x8000_0000_0000_0000,
                -0x8000_0000_0000_0000 <= b <= 0x8000_0000_0000_0000,
        ;
        let q: i128 = floor_div(a * b, SCALE as i128);
        Fixed { raw: clamp_wide(q) }
    }

    pub fn div(self, other: Fixed) -> (r: Fixed)
        ensures
            r == self.spec_div(other),
    {
        if other.raw == 0 {
            if self.raw > 0 {
                Fixed { raw: i64::MAX }
            } else if self.raw < 0 {
                Fixed { raw: i64::MIN }
            } else {
                Fixed { raw: 0 }
            }
        } else if other.raw > 0 {
            let n: i128 = self.raw as i128 * SCALE as i128;
            let q: i128 = floor_div(n, other.raw as i128);
            Fixed { raw: clamp_wide(q) }
        } else {
            let n: i128 = -(self.raw as i128) * SCALE as i128;
            let q: i128 = floor_div(n, -(other.raw as i128));
            Fixed { raw: clamp_wide(q) }
        }
    }

    pub fn clamp(self, lo: Fixed, hi: Fixed) -> (r: Fixed)
        ensures
            r == self.spec_clamp(lo, hi),
    {
        if self.raw < lo.raw {
            lo
        } else if self.raw > hi.raw {
            if hi.raw < lo.raw {
                lo
            } else {
                hi
            }
        } else {
            self
        }
    }

    pub fn max(self, other: Fixed) -> (r: Fixed)
        ensures
            r == self.spec_max(other),
    {
        if self.raw >= other.raw {
            self
        } else {
            other
        }
    }

    pub fn min(self, other: Fixed) -> (r: Fixed)
        ensures
            r == self.spec_min(other),
    {
        if self.raw <= other.raw {
            self
        } else {
            other
        }
    }

    /// The largest whole number not above `self`.
    pub fn floor_int(self) -> (r: i64)
        ensures
            r == self.spec_floor_int(),
    {
        let q: i128 = floor_div(self.raw as i128, SCALE as i128);
        q as i64
    }

    /// The whole number nearest to `self`, halves rounded away from zero.
    pub fn round_int(self) -> (r: i64)
        ensures
            r == self.spec_round_int(),
    {
        if self.raw >= 0 {
            let q: i128 = floor_div(self.raw as i128 + 500_000, SCALE as i128);
            q as i64
        } else {
            let q: i128 = floor_div(-(self.raw as i128) + 500_000, SCALE as i128);
            (-q) as i64
        }
    }

    /// What is left of `self` above its floor.
    pub fn fract(self) -> (r: Fixed)
        ensures
            r == self.spec_fract(),
            0 <= r.raw < SCALE,
    {
        let q: i128 = floor_div(self.raw as i128, SCALE as i128);
        let rest: i128 = self.raw as i128 - q * SCALE as i128;
        Fixed { raw: rest as i64 }
    }

    pub fn is_negative(self) -> (r: bool)
        ensures
            r == (self.raw < 0),
    {
        self.raw < 0
    }
}

} // verus!
