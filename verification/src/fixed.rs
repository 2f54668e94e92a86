//! Fixed-point scalars.
//!
//! Every length, factor, angle and opacity of the renderer is a [`Fixed`]: a
//! signed 64-bit count of 2^-32 units. Arithmetic saturates at the ends of the
//! 64-bit range, so no operation can fail, and every result is described
//! exactly by integer arithmetic on the raw counts.

use vstd::prelude::*;

verus! {

/// The raw count that stands for the number one.
pub const ONE_RAW: i64 = 0x1_0000_0000;

/// The largest raw count.
pub const MAX_RAW: i64 = 0x7fff_ffff_ffff_ffff;

/// The smallest raw count.
pub const MIN_RAW: i64 = -0x8000_0000_0000_0000;

/// `v` brought into the range of raw counts.
pub open spec fn saturate(v: int) -> int {
    if v < MIN_RAW {
        MIN_RAW as int
    } else if v > MAX_RAW {
        MAX_RAW as int
    } else {
        v
    }
}

/// Raw count of the product of two raw counts, rounded down.
pub open spec fn mul_raw(a: int, b: int) -> int {
    saturate((a * b) / (ONE_RAW as int))
}

/// Raw count of the quotient of two raw counts, rounded down. A division by
/// zero gives the end of the range on the side of the dividend's sign, and
/// zero for a zero dividend.
pub open spec fn div_raw(a: int, b: int) -> int {
    if b == 0 {
        if a > 0 {
            MAX_RAW as int
        } else if a < 0 {
            MIN_RAW as int
        } else {
            0
        }
    } else if b > 0 {
        saturate((a * (ONE_RAW as int)) / b)
    } else {
        saturate((-a * (ONE_RAW as int)) / (-b))
    }
}

/// The whole part of the square root of `n`: the one number whose square is
/// at most `n` while the square of the next number is greater than `n`.
pub open spec fn int_sqrt(n: nat) -> nat {
    choose|r: nat| is_int_sqrt(n, r)
}

/// Whether `n` lies between the square of `r` and the square of the number
/// after `r`.
pub open spec fn is_int_sqrt(n: nat, r: nat) -> bool {
    r * r <= n < (r + 1) * (r + 1)
}

/// A number between whose square and the square of the number after it `n`
/// lies is the whole part of the square root of `n`.
pub proof fn lemma_int_sqrt_unique(n: nat, r: nat)
    requires
        r * r <= n < (r + 1) * (r + 1),
    ensures
        int_sqrt(n) == r,
{
    let s = int_sqrt(n);
    assert(is_int_sqrt(n, r));
    assert(is_int_sqrt(n, s));
    assert(s == r) by (nonlinear_arith)
        requires
            r * r <= n < (r + 1) * (r + 1),
            s * s <= n < (s + 1) * (s + 1),
    ;
}

/// The whole part of the square root of `n`.
pub fn isqrt(n: u128) -> (r: u64)
    ensures
        r == int_sqrt(n as nat),
        r * r <= n < (r + 1) * (r + 1),
{
    let mut lo: u128 = 0;
    let mut hi: u128 = 0x1_0000_0000_0000_0000;
    assert(hi * hi > n) by (nonlinear_arith)
        requires
            hi == 0x1_0000_0000_0000_0000,
            n <= 0xffff_ffff_ffff_ffff_ffff_ffff_ffff_ffff,
    ;
    assert(lo * lo <= n) by (nonlinear_arith)
        requires
            lo == 0,
            n >= 0,
    ;
    while hi - lo > 1
        invariant
            lo < hi <= 0x1_0000_0000_0000_0000,
            lo * lo <= n < hi * hi,
        decreases hi - lo,
    {
        let mid: u128 = lo + (hi - lo) / 2;
        assert(mid * mid <= 0xffff_ffff_ffff_ffff * 0xffff_ffff_ffff_ffff) by (nonlinear_arith)
            requires
                0 <= mid <= 0xffff_ffff_ffff_ffff,
        ;
        if mid * mid <= n {
            lo = mid;
        } else {
            hi = mid;
        }
    }
    proof {
        assert(hi == lo + 1);
        lemma_int_sqrt_unique(n as nat, lo as nat);
    }
    lo as u64
}

/// A fixed-point number with 32 fractional bits.
#[derive(Clone, Copy, Debug, PartialEq, Eq, Structural)]
pub struct Fixed {
    /// The number, counted in units of 2^-32.
    pub raw: i64,
}

fn saturate_wide(v: i128) -> (r: i64)
    ensures
        r == saturate(v as int),
{
    if v < MIN_RAW as i128 {
        MIN_RAW
    } else if v > MAX_RAW as i128 {
        MAX_RAW
    } else {
        v as i64
    }
}

proof fn lemma_quotient_bounds(x: int, d: int)
    requires
        d > 0,
    ensures
        x >= 0 ==> 0 <= x / d <= x,
        x < 0 ==> x <= x / d < 0,
{
    assert(x >= 0 && d > 0 ==> 0 <= x / d <= x) by (nonlinear_arith);
    assert(x < 0 && d > 0 ==> x <= x / d < 0) by (nonlinear_arith);
}

proof fn lemma_product_bounds(a: int, b: int)
    requires
        -0x8000_0000_0000_0000 <= a <= 0x8000_0000_0000_0000,
        -0x8000_0000_0000_0000 <= b <= 0x8000_0000_0000_0000,
    ensures
        -0x4000_0000_0000_0000_0000_0000_0000_0000 <= a * b
            <= 0x4000_0000_0000_0000_0000_0000_0000_0000,
{
    let m: int = 0x8000_0000_0000_0000;
    assert(-m <= a <= m && -m <= b <= m ==> -(m * m) <= a * b <= m * m) by (nonlinear_arith);
    assert(m * m == 0x4000_0000_0000_0000_0000_0000_0000_0000) by (nonlinear_arith)
        requires
            m == 0x8000_0000_0000_0000,
    ;
}

impl Fixed {
    /// The number zero.
    pub open spec fn spec_zero() -> Fixed {
        Fixed { raw: 0 }
    }

    /// The number one.
    pub open spec fn spec_one() -> Fixed {
        Fixed { raw: ONE_RAW }
    }

    /// The whole number `n`.
    pub open spec fn spec_from_int(n: int) -> Fixed {
        Fixed { raw: saturate(n * ONE_RAW) as i64 }
    }

    /// The sum, saturated.
    pub open spec fn spec_add(self, rhs: Fixed) -> Fixed {
        Fixed { raw: saturate(self.raw + rhs.raw) as i64 }
    }

    /// The difference, saturated.
    pub open spec fn spec_sub(self, rhs: Fixed) -> Fixed {
        Fixed { raw: saturate(self.raw - rhs.raw) as i64 }
    }

    /// The negation, saturated.
    pub open spec fn spec_neg(self) -> Fixed {
        Fixed { raw: saturate(-self.raw) as i64 }
    }

    /// The product, rounded down and saturated.
    pub open spec fn spec_mul(self, rhs: Fixed) -> Fixed {
        Fixed { raw: mul_raw(self.raw as int, rhs.raw as int) as i64 }
    }

    /// The quotient, rounded down and saturated.
    pub open spec fn spec_div(self, rhs: Fixed) -> Fixed {
        Fixed { raw: div_raw(self.raw as int, rhs.raw as int) as i64 }
    }

    /// Half of the number, rounded down.
    pub open spec fn spec_half(self) -> Fixed {
        Fixed { raw: (self.raw / 2) as i64 }
    }

    /// Twice the number, saturated.
    pub open spec fn spec_double(self) -> Fixed {
        Fixed { raw: saturate(2 * self.raw) as i64 }
    }

    /// The lesser of the two numbers.
    pub open spec fn spec_min(self, rhs: Fixed) -> Fixed {
        if rhs.raw < self.raw {
            rhs
        } else {
            self
        }
    }

    /// The greater of the two numbers.
    pub open spec fn spec_max(self, rhs: Fixed) -> Fixed {
        if rhs.raw > self.raw {
            rhs
        } else {
            self
        }
    }

    /// The length of the diagonal of a rectangle with sides `self` and `rhs`,
    /// rounded down.
    pub open spec fn spec_hypot(self, rhs: Fixed) -> Fixed {
        Fixed {
            raw: saturate(
                int_sqrt((self.raw * self.raw + rhs.raw * rhs.raw) as nat) as int,
            ) as i64,
        }
    }

    /// `self` brought into the range from zero to one.
    pub open spec fn spec_clamp_unit(self) -> Fixed {
        if self.raw < 0 {
            Fixed::spec_zero()
        } else if self.raw > ONE_RAW {
            Fixed::spec_one()
        } else {
            self
        }
    }

    /// The whole part of a number that is not negative, as far as 32 bits hold it.
    pub open spec fn spec_to_u32(self) -> u32 {
        if self.raw <= 0 {
            0
        } else {
            ((self.raw as int) / (ONE_RAW as int)) as u32
        }
    }

    /// The number zero.
    #[verifier::when_used_as_spec(spec_zero)]
    pub fn zero() -> (r: Fixed)
        ensures
            r == Fixed::spec_zero(),
    {
        Fixed { raw: 0 }
    }

    /// The number one.
    #[verifier::when_used_as_spec(spec_one)]
    pub fn one() -> (r: Fixed)
        ensures
            r == Fixed::spec_one(),
    {
        Fixed { raw: ONE_RAW }
    }

    /// The fixed-point number with the given raw count.
    pub fn from_raw(raw: i64) -> (r: Fixed)
        ensures
            r.raw == raw,
    {
        Fixed { raw }
    }

    /// The whole number `n`. Every 32-bit integer is represented exactly.
    pub fn from_int(n: i32) -> (r: Fixed)
        ensures
            r == Fixed::spec_from_int(n as int),
            r.raw == n * ONE_RAW,
    {
        assert(MIN_RAW <= n * ONE_RAW <= MAX_RAW) by (nonlinear_arith)
            requires
                -0x8000_0000 <= n <= 0x7fff_ffff,
                ONE_RAW == 0x1_0000_0000,
                MAX_RAW == 0x7fff_ffff_ffff_ffff,
                MIN_RAW == -0x8000_0000_0000_0000,
        ;
        Fixed { raw: (n as i64) * ONE_RAW }
    }

    /// The whole number `n`.
    pub fn from_u32(n: u32) -> (r: Fixed)
        ensures
            r == Fixed::spec_from_int(n as int),
    {
        assert(0 <= n * ONE_RAW <= 0x1_0000_0000_0000_0000) by (nonlinear_arith)
            requires
                0 <= n <= 0xffff_ffff,
                ONE_RAW == 0x1_0000_0000,
        ;
        let wide: i128 = (n as i128) * (ONE_RAW as i128);
        Fixed { raw: saturate_wide(wide) }
    }

    /// The sum, saturated.
    #[verifier::when_used_as_spec(spec_add)]
    pub fn add(self, rhs: Fixed) -> (r: Fixed)
        ensures
            r == self.spec_add(rhs),
    {
        Fixed { raw: saturate_wide(self.raw as i128 + rhs.raw as i128) }
    }

    /// The difference, saturated.
    #[verifier::when_used_as_spec(spec_sub)]
    pub fn sub(self, rhs: Fixed) -> (r: Fixed)
        ensures
            r == self.spec_sub(rhs),
    {
        Fixed { raw: saturate_wide(self.raw as i128 - rhs.raw as i128) }
    }

    /// The negation, saturated.
    #[verifier::when_used_as_spec(spec_neg)]
    pub fn neg(self) -> (r: Fixed)
        ensures
            r == self.spec_neg(),
    {
        Fixed { raw: saturate_wide(-(self.raw as i128)) }
    }

    /// The product, rounded down and saturated.
    #[verifier::when_used_as_spec(spec_mul)]
    pub fn mul(self, rhs: Fixed) -> (r: Fixed)
        ensures
            r == self.spec_mul(rhs),
    {
        proof {
            lemma_product_bounds(self.raw as int, rhs.raw as int);
            lemma_quotient_bounds(self.raw * rhs.raw, ONE_RAW as int);
        }
        let wide: i128 = (self.raw as i128) * (rhs.raw as i128);
        match wide.checked_div_euclid(ONE_RAW as i128) {
            Some(q) => Fixed { raw: saturate_wide(q) },
            None => Fixed { raw: 0 },
        }
    }

    /// The quotient, rounded down and saturated. A division by zero gives the end
    /// of the range on the side of the sign of the dividend, and zero for zero.
    #[verifier::when_used_as_spec(spec_div)]
    pub fn div(self, rhs: Fixed) -> (r: Fixed)
        ensures
            r == self.spec_div(rhs),
    {
        if rhs.raw == 0 {
            if self.raw > 0 {
                Fixed { raw: MAX_RAW }
            } else if self.raw < 0 {
                Fixed { raw: MIN_RAW }
            } else {
                Fixed { raw: 0 }
            }
        } else {
            proof {
                lemma_product_bounds(self.raw as int, ONE_RAW as int);
                lemma_product_bounds(-self.raw, ONE_RAW as int);
            }
            let (num, den): (i128, i128) = if rhs.raw > 0 {
                ((self.raw as i128) * (ONE_RAW as i128), rhs.raw as i128)
            } else {
                ((-(self.raw as i128)) * (ONE_RAW as i128), -(rhs.raw as i128))
            };
            proof {
                lemma_quotient_bounds(num as int, den as int);
            }
            match num.checked_div_euclid(den) {
                Some(q) => Fixed { raw: saturate_wide(q) },
                None => Fixed { raw: 0 },
            }
        }
    }

    /// Half of `self`, rounded down.
    #[verifier::when_used_as_spec(spec_half)]
    pub fn half(self) -> (r: Fixed)
        ensures
            r == self.spec_half(),
    {
        match self.raw.checked_div_euclid(2) {
            Some(q) => Fixed { raw: q },
            None => Fixed { raw: 0 },
        }
    }

    /// Twice `self`.
    #[verifier::when_used_as_spec(spec_double)]
    pub fn double(self) -> (r: Fixed)
        ensures
            r == self.spec_double(),
    {
        Fixed { raw: saturate_wide(2 * (self.raw as i128)) }
    }

    /// The length of the diagonal of a rectangle with sides `self` and `rhs`,
    /// rounded down and saturated.
    #[verifier::when_used_as_spec(spec_hypot)]
    pub fn hypot(self, rhs: Fixed) -> (r: Fixed)
        ensures
            r == self.spec_hypot(rhs),
    {
        proof {
            lemma_product_bounds(self.raw as int, self.raw as int);
            lemma_product_bounds(rhs.raw as int, rhs.raw as int);
            assert(self.raw * self.raw >= 0) by (nonlinear_arith);
            assert(rhs.raw * rhs.raw >= 0) by (nonlinear_arith);
        }
        let a: i128 = (self.raw as i128) * (self.raw as i128);
        let b: i128 = (rhs.raw as i128) * (rhs.raw as i128);
        let sum: u128 = (a as u128) + (b as u128);
        let root: u64 = isqrt(sum);
        Fixed { raw: saturate_wide(root as i128) }
    }

    /// The lesser of the two numbers.
    #[verifier::when_used_as_spec(spec_min)]
    pub fn min(self, rhs: Fixed) -> (r: Fixed)
        ensures
            r == self.spec_min(rhs),
    {
        if rhs.raw < self.raw {
            rhs
        } else {
            self
        }
    }

    /// The greater of the two numbers.
    #[verifier::when_used_as_spec(spec_max)]
    pub fn max(self, rhs: Fixed) -> (r: Fixed)
        ensures
            r == self.spec_max(rhs),
    {
        if rhs.raw > self.raw {
            rhs
        } else {
            self
        }
    }

    /// The number brought into the range from zero to one.
    #[verifier::when_used_as_spec(spec_clamp_unit)]
    pub fn clamp_unit(self) -> (r: Fixed)
        ensures
            r == self.spec_clamp_unit(),
            0 <= r.raw <= ONE_RAW,
    {
        if self.raw < 0 {
            Fixed { raw: 0 }
        } else if self.raw > ONE_RAW {
            Fixed { raw: ONE_RAW }
        } else {
            self
        }
    }

    /// The whole part of the number, or zero if it is negative.
    #[verifier::when_used_as_spec(spec_to_u32)]
    pub fn to_u32(self) -> (r: u32)
        ensures
            r == self.spec_to_u32(),
    {
        if self.raw <= 0 {
            0
        } else {
            (self.raw / ONE_RAW) as u32
        }
    }

    /// Whether the number is zero.
    pub fn is_zero(self) -> (r: bool)
        ensures
            r == (self.raw == 0),
    {
        self.raw == 0
    }

    /// Whether the number is greater than zero.
    pub fn is_positive(self) -> (r: bool)
        ensures
            r == (self.raw > 0),
    {
        self.raw > 0
    }
}

/// Multiplying by one changes nothing.
pub proof fn lemma_mul_one(a: Fixed)
    ensures
        a.spec_mul(Fixed::spec_one()) == a,
        Fixed::spec_one().spec_mul(a) == a,
{
    let r = a.raw as int;
    assert((r * (ONE_RAW as int)) / (ONE_RAW as int) == r) by (nonlinear_arith)
        requires
            ONE_RAW == 0x1_0000_0000,
    ;
    assert(((ONE_RAW as int) * r) / (ONE_RAW as int) == r) by (nonlinear_arith)
        requires
            ONE_RAW == 0x1_0000_0000,
    ;
}

/// Multiplying by zero gives zero.
pub proof fn lemma_mul_zero(a: Fixed)
    ensures
        a.spec_mul(Fixed::spec_zero()) == Fixed::spec_zero(),
        Fixed::spec_zero().spec_mul(a) == Fixed::spec_zero(),
{
    let r = a.raw as int;
    assert(r * 0 == 0 && 0 * r == 0) by (nonlinear_arith);
}

} // verus!
