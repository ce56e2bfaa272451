use vstd::prelude::*;
use vstd::wrapping::i64_specs;

use crate::scalar::RealNumber;

verus! {

/// Number of fractional bits of a [`Fixed`] value.
pub const FRAC_BITS: u32 = 16;

/// The raw value of one: `2^FRAC_BITS`. Two is `131072`.
pub const SCALE: i64 = 65536;

/// A signed binary fixed-point number: the value `raw / 2^16`.
///
/// Addition, subtraction and negation wrap around on overflow, as the
/// underlying `i64` does with wrapping operations, so the raw values form the
/// ring of integers modulo `2^64`. The absolute value saturates instead, so it
/// is never negative: the most negative value maps to the largest. A product or quotient is rounded down to
/// the nearest multiple of `2^-16` and then wrapped into 64 bits.
#[derive(Clone, Copy, Debug, PartialEq, Eq, Structural)]
pub struct Fixed {
    pub raw: i64,
}

impl Fixed {
    /// The fixed-point number whose raw representation is `raw`.
    pub fn from_raw(raw: i64) -> (r: Fixed)
        ensures
            r.raw == raw,
    {
        Fixed { raw }
    }

    /// The integer `n` as a fixed-point number.
    pub fn from_int(n: i64) -> (r: Fixed)
        requires
            -0x8000_0000_0000 <= n < 0x8000_0000_0000,
        ensures
            r.raw == n * SCALE,
    {
        Fixed { raw: n * SCALE }
    }

    /// The raw representation: the value times `2^16`.
    pub fn raw(&self) -> (r: i64)
        ensures
            r == self.raw,
    {
        self.raw
    }
}

/// The absolute value of a fixed-point number is never negative.
pub proof fn lemma_abs_nonnegative(a: Fixed)
    ensures
        a.spec_abs().raw >= 0,
        a.raw >= 0 ==> a.spec_abs() == a,
{
}

proof fn lemma_product_fits(a: int, b: int)
    requires
        i64::MIN <= a <= i64::MAX,
        i64::MIN <= b <= i64::MAX,
    ensures
        i128::MIN <= a * b <= i128::MAX,
{
    assert(-0x4000_0000_0000_0000_0000_0000_0000_0000 <= a * b <= 0x4000_0000_0000_0000_0000_0000_0000_0000)
        by (nonlinear_arith)
        requires
            -0x8000_0000_0000_0000 <= a <= 0x7fff_ffff_ffff_ffff,
            -0x8000_0000_0000_0000 <= b <= 0x7fff_ffff_ffff_ffff,
    ;
}

proof fn lemma_quotient_fits(p: int, d: int)
    requires
        -0x1_0000_0000_0000_0000_0000 <= p <= 0x1_0000_0000_0000_0000_0000,
        d != 0,
    ensures
        i128::MIN <= p / d <= i128::MAX,
{
    assert(-0x1_0000_0000_0000_0000_0001 <= p / d <= 0x1_0000_0000_0000_0000_0001)
        by (nonlinear_arith)
        requires
            -0x1_0000_0000_0000_0000_0000 <= p <= 0x1_0000_0000_0000_0000_0000,
            d != 0,
    ;
}

impl RealNumber for Fixed {
    open spec fn spec_zero() -> Fixed {
        Fixed { raw: 0 }
    }

    open spec fn spec_one() -> Fixed {
        Fixed { raw: SCALE }
    }

    open spec fn spec_two() -> Fixed {
        Fixed { raw: 131072 }
    }

    open spec fn spec_add(self, o: Fixed) -> Fixed {
        Fixed { raw: i64_specs::wrapping_add(self.raw, o.raw) }
    }

    open spec fn spec_sub(self, o: Fixed) -> Fixed {
        Fixed { raw: i64_specs::wrapping_sub(self.raw, o.raw) }
    }

    open spec fn spec_mul(self, o: Fixed) -> Fixed {
        Fixed { raw: ((self.raw * o.raw) / (SCALE as int)) as i64 }
    }

    open spec fn spec_div(self, o: Fixed) -> Fixed {
        Fixed { raw: ((self.raw * SCALE) / (o.raw as int)) as i64 }
    }

    open spec fn spec_abs(self) -> Fixed {
        if self.raw == i64::MIN {
            Fixed { raw: i64::MAX }
        } else if self.raw < 0 {
            Fixed { raw: (-self.raw) as i64 }
        } else {
            self
        }
    }

    fn zero() -> (r: Fixed) {
        Fixed { raw: 0 }
    }

    fn one() -> (r: Fixed) {
        Fixed { raw: SCALE }
    }

    fn two() -> (r: Fixed) {
        Fixed { raw: 131072 }
    }

    fn add(self, o: Fixed) -> (r: Fixed) {
        Fixed { raw: self.raw.wrapping_add(o.raw) }
    }

    fn sub(self, o: Fixed) -> (r: Fixed) {
        Fixed { raw: self.raw.wrapping_sub(o.raw) }
    }

    fn mul(self, o: Fixed) -> (r: Fixed) {
        proof {
            lemma_product_fits(self.raw as int, o.raw as int);
        }
        let p: i128 = (self.raw as i128) * (o.raw as i128);
        let q: i128 = match p.checked_div_euclid(SCALE as i128) {
            Some(q) => q,
            None => 0,
        };
        Fixed { raw: #[verifier::truncate] (q as i64) }
    }

    fn div(self, o: Fixed) -> (r: Fixed) {
        let p: i128 = (self.raw as i128) * (SCALE as i128);
        proof {
            assert(p == self.raw * 65536);
            lemma_quotient_fits(p as int, o.raw as int);
        }
        let q: i128 = match p.checked_div_euclid(o.raw as i128) {
            Some(q) => q,
            None => 0,
        };
        Fixed { raw: #[verifier::truncate] (q as i64) }
    }

    fn abs(self) -> (r: Fixed) {
        if self.raw == i64::MIN {
            Fixed { raw: i64::MAX }
        } else if self.raw < 0 {
            Fixed { raw: -self.raw }
        } else {
            self
        }
    }

    proof fn lemma_two_nonzero() {
    }

    proof fn lemma_add_zero(a: Fixed) {
    }

    proof fn lemma_add_commutative(a: Fixed, b: Fixed) {
    }

    proof fn lemma_add_associative(a: Fixed, b: Fixed, c: Fixed) {
    }

    proof fn lemma_add_sub_associative(a: Fixed, b: Fixed, c: Fixed) {
    }

    proof fn lemma_sub_self(a: Fixed) {
    }

    proof fn lemma_sub_swap(a: Fixed, b: Fixed) {
    }

    proof fn lemma_neg_add(a: Fixed, b: Fixed) {
    }

    proof fn lemma_abs_neg(a: Fixed) {
    }
}

} // verus!
