//! Fixed-point numbers: the unit in which every length, size and position is held.

use vstd::prelude::*;
use vstd::arithmetic::div_mod::lemma_fundamental_div_mod_converse;
use vstd::arithmetic::div_mod::lemma_fundamental_div_mod;
use vstd::arithmetic::div_mod::lemma_mod_bound;

verus! {

/// Raw units in one whole: a `Fixed` resolves a ten-thousandth.
pub const SCALE: i64 = 10_000;

/// Raw units in one hundred percent of one whole.
pub const PERCENT_SCALE: i64 = 1_000_000;

/// A number stored as a count of ten-thousandths.
///
/// Sums and differences saturate at the ends of the `i64` range instead of
/// wrapping, and quotients round towards negative infinity.
#[derive(Clone, Copy, Debug, PartialEq, Eq, PartialOrd, Ord, Hash, Structural)]
pub struct Fixed {
    pub raw: i64,
}

/// The integer nearest to `v` that an `i64` can hold.
pub open spec fn saturate(v: int) -> i64 {
    if v < i64::MIN {
        i64::MIN
    } else if v > i64::MAX {
        i64::MAX
    } else {
        v as i64
    }
}

/// Narrows a wide intermediate to the range of `i64`.
fn saturate_wide(v: i128) -> (r: i64)
    ensures
        r == saturate(v as int),
{
    if v < -0x8000_0000_0000_0000i128 {
        i64::MIN
    } else if v > 0x7fff_ffff_ffff_ffffi128 {
        i64::MAX
    } else {
        v as i64
    }
}

/// Quotient rounded towards negative infinity, for a positive divisor.
fn floor_div(n: i128, d: i128) -> (q: i128)
    requires
        d > 0,
    ensures
        q == (n as int) / (d as int),
{
    if n >= 0 {
        n / d
    } else {
        let m: i128 = -(n + 1);
        let k: i128 = m / d;
        proof {
            let mi: int = m as int;
            let di: int = d as int;
            let ki: int = mi / di;
            let ri: int = mi % di;
            lemma_fundamental_div_mod(mi, di);
            lemma_mod_bound(mi, di);
            assert(di * ki == ki * di) by (nonlinear_arith);
            assert((-ki - 1) * di == -(ki * di) - di) by (nonlinear_arith);
            assert(n as int == (-ki - 1) * di + (di - 1 - ri));
            lemma_fundamental_div_mod_converse(n as int, di, -ki - 1, di - 1 - ri);
        }
        -k - 1
    }
}

/// Product of two raw values, which always fits the wide type.
fn wide_product(a: i64, b: i64) -> (p: i128)
    ensures
        p == (a as int) * (b as int),
{
    proof {
        assert(-0x4000_0000_0000_0000_0000_0000_0000_0000 <= (a as int) * (b as int)
            <= 0x4000_0000_0000_0000_0000_0000_0000_0000) by (nonlinear_arith)
            requires
                -0x8000_0000_0000_0000 <= a <= 0x7fff_ffff_ffff_ffff,
                -0x8000_0000_0000_0000 <= b <= 0x7fff_ffff_ffff_ffff,
        ;
    }
    (a as i128) * (b as i128)
}

impl Fixed {
    /// The value of `self` in raw units, as a mathematical integer.
    pub open spec fn view(self) -> int {
        self.raw as int
    }

    pub open spec fn spec_zero() -> Fixed {
        Fixed { raw: 0 }
    }

    /// Zero.
    #[verifier::when_used_as_spec(spec_zero)]
    pub fn zero() -> (r: Fixed)
        ensures
            r == Self::spec_zero(),
    {
        Fixed { raw: 0 }
    }

    /// The number with the given count of ten-thousandths.
    pub fn from_raw(raw: i64) -> (r: Fixed)
        ensures
            r.raw == raw,
    {
        Fixed { raw }
    }

    /// The count of ten-thousandths in `self`.
    pub fn raw(self) -> (r: i64)
        ensures
            r == self.raw,
    {
        self.raw
    }

    pub open spec fn spec_from_int(v: i32) -> Fixed {
        Fixed { raw: (v * SCALE) as i64 }
    }

    /// The whole number `v`.
    #[verifier::when_used_as_spec(spec_from_int)]
    pub fn from_int(v: i32) -> (r: Fixed)
        ensures
            r == Self::spec_from_int(v),
            r@ == v * SCALE,
    {
        let wide: i64 = v as i64;
        Fixed { raw: wide * SCALE }
    }

    pub open spec fn spec_saturating_add(self, other: Fixed) -> Fixed {
        Fixed { raw: saturate(self@ + other@) }
    }

    /// `self + other`, held at the nearest end of the range if it overflows.
    #[verifier::when_used_as_spec(spec_saturating_add)]
    pub fn saturating_add(self, other: Fixed) -> (r: Fixed)
        ensures
            r == self.spec_saturating_add(other),
    {
        Fixed { raw: saturate_wide(self.raw as i128 + other.raw as i128) }
    }

    pub open spec fn spec_saturating_sub(self, other: Fixed) -> Fixed {
        Fixed { raw: saturate(self@ - other@) }
    }

    /// `self - other`, held at the nearest end of the range if it overflows.
    #[verifier::when_used_as_spec(spec_saturating_sub)]
    pub fn saturating_sub(self, other: Fixed) -> (r: Fixed)
        ensures
            r == self.spec_saturating_sub(other),
    {
        Fixed { raw: saturate_wide(self.raw as i128 - other.raw as i128) }
    }

    pub open spec fn spec_percent(self, percent: Fixed) -> Fixed {
        Fixed { raw: saturate((self@ * percent@) / (PERCENT_SCALE as int)) }
    }

    /// `percent` hundredths of `self`, rounded down and saturated.
    #[verifier::when_used_as_spec(spec_percent)]
    pub fn percent(self, percent: Fixed) -> (r: Fixed)
        ensures
            r == self.spec_percent(percent),
    {
        let product: i128 = wide_product(self.raw, percent.raw);
        Fixed { raw: saturate_wide(floor_div(product, PERCENT_SCALE as i128)) }
    }

    pub open spec fn spec_mul_ratio(self, num: Fixed, den: Fixed) -> Fixed {
        if den@ > 0 {
            Fixed { raw: saturate((self@ * num@) / den@) }
        } else {
            Fixed { raw: 0 }
        }
    }

    /// `self * num / den`, rounded down and saturated; zero where `den` is
    /// not positive, so that a share of nothing is nothing.
    #[verifier::when_used_as_spec(spec_mul_ratio)]
    pub fn mul_ratio(self, num: Fixed, den: Fixed) -> (r: Fixed)
        ensures
            r == self.spec_mul_ratio(num, den),
    {
        if den.raw > 0 {
            let product: i128 = wide_product(self.raw, num.raw);
            Fixed { raw: saturate_wide(floor_div(product, den.raw as i128)) }
        } else {
            Fixed { raw: 0 }
        }
    }

    pub open spec fn spec_mul_count(self, count: usize) -> Fixed {
        Fixed { raw: saturate(self@ * count) }
    }

    /// `self` taken `count` times, saturated.
    #[verifier::when_used_as_spec(spec_mul_count)]
    pub fn mul_count(self, count: usize) -> (r: Fixed)
        ensures
            r == self.spec_mul_count(count),
    {
        if count as u128 > 0x7fff_ffff_ffff_ffffu128 {
            proof {
                assert(self@ > 0 ==> self@ * count > i64::MAX) by (nonlinear_arith)
                    requires
                        count > 0x7fff_ffff_ffff_ffff,
                ;
                assert(self@ < 0 ==> self@ * count <= i64::MIN) by (nonlinear_arith)
                    requires
                        count > 0x7fff_ffff_ffff_ffff,
                ;
                assert(self@ == 0 ==> self@ * count == 0) by (nonlinear_arith);
            }
            if self.raw > 0 {
                Fixed { raw: i64::MAX }
            } else if self.raw < 0 {
                Fixed { raw: i64::MIN }
            } else {
                Fixed { raw: 0 }
            }
        } else {
            let product: i128 = wide_product(self.raw, count as i64);
            Fixed { raw: saturate_wide(product) }
        }
    }

    pub open spec fn spec_div_count(self, count: usize) -> Fixed {
        if count > 0 {
            Fixed { raw: saturate(self@ / (count as int)) }
        } else {
            Fixed { raw: 0 }
        }
    }

    /// `self` split into `count` equal parts, rounded down; zero where
    /// `count` is zero.
    #[verifier::when_used_as_spec(spec_div_count)]
    pub fn div_count(self, count: usize) -> (r: Fixed)
        ensures
            r == self.spec_div_count(count),
    {
        if count > 0 {
            Fixed { raw: saturate_wide(floor_div(self.raw as i128, count as i128)) }
        } else {
            Fixed { raw: 0 }
        }
    }

    pub open spec fn spec_at_least(self, floor: Fixed) -> Fixed {
        if self@ < floor@ {
            floor
        } else {
            self
        }
    }

    /// The larger of `self` and `floor`.
    #[verifier::when_used_as_spec(spec_at_least)]
    pub fn at_least(self, floor: Fixed) -> (r: Fixed)
        ensures
            r == self.spec_at_least(floor),
    {
        if self.raw < floor.raw {
            floor
        } else {
            self
        }
    }

    pub open spec fn spec_at_most(self, ceiling: Fixed) -> Fixed {
        if self@ > ceiling@ {
            ceiling
        } else {
            self
        }
    }

    /// The smaller of `self` and `ceiling`.
    #[verifier::when_used_as_spec(spec_at_most)]
    pub fn at_most(self, ceiling: Fixed) -> (r: Fixed)
        ensures
            r == self.spec_at_most(ceiling),
    {
        if self.raw > ceiling.raw {
            ceiling
        } else {
            self
        }
    }

    pub open spec fn spec_non_negative(self) -> Fixed {
        self.spec_at_least(Fixed { raw: 0 })
    }

    /// `self`, or zero where `self` is negative.
    #[verifier::when_used_as_spec(spec_non_negative)]
    pub fn non_negative(self) -> (r: Fixed)
        ensures
            r == self.spec_non_negative(),
            r@ >= 0,
    {
        self.at_least(Fixed { raw: 0 })
    }

    pub open spec fn spec_is_zero(self) -> bool {
        self@ == 0
    }

    /// Whether `self` is zero.
    #[verifier::when_used_as_spec(spec_is_zero)]
    pub fn is_zero(self) -> (r: bool)
        ensures
            r == self.spec_is_zero(),
    {
        self.raw == 0
    }
}

impl Default for Fixed {
    fn default() -> (r: Fixed)
        ensures
            r == Fixed::spec_zero(),
    {
        Fixed { raw: 0 }
    }
}

} // verus!
