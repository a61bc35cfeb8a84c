//! A signed fixed-point number with nine decimal places.
//!
//! Every operation is total: results outside the representable range
//! saturate at the bounds of `i64`, and products and quotients are rounded to the
//! nearest representable value, ties away from zero.
use vstd::arithmetic::div_mod::{
    lemma_div_is_ordered, lemma_div_is_ordered_by_denominator, lemma_div_pos_is_pos,
    lemma_fundamental_div_mod_converse,
};
use vstd::prelude::*;

verus! {

/// Raw units in one whole unit: a `Fixed` stands for `raw / SCALE`.
pub const SCALE: i64 = 1_000_000_000;

/// Saturates an exact result into the range of `i64`.
pub open spec fn clamp(x: int) -> int {
    if x > i64::MAX {
        i64::MAX as int
    } else if x < i64::MIN {
        i64::MIN as int
    } else {
        x
    }
}

pub open spec fn abs_int(x: int) -> int {
    if x < 0 {
        -x
    } else {
        x
    }
}

/// `n / d` rounded to the nearest integer, halves away from zero.
pub open spec fn div_round(n: int, d: int) -> int {
    let q = (2 * abs_int(n) + abs_int(d)) / (2 * abs_int(d));
    if (n < 0) != (d < 0) {
        -q
    } else {
        q
    }
}

#[derive(Clone, Copy, Debug, PartialEq, Eq, Structural, PartialOrd, Ord, Hash)]
pub struct Fixed {
    /// The value times `SCALE`.
    pub raw: i64,
}

pub open spec fn fx(raw: int) -> Fixed {
    Fixed { raw: clamp(raw) as i64 }
}

/// The whole number `n`.
pub open spec fn fx_int(n: int) -> Fixed {
    fx(n * SCALE)
}

pub open spec fn fx_add(a: Fixed, b: Fixed) -> Fixed {
    fx(a.raw + b.raw)
}

pub open spec fn fx_sub(a: Fixed, b: Fixed) -> Fixed {
    fx(a.raw - b.raw)
}

pub open spec fn fx_mul(a: Fixed, b: Fixed) -> Fixed {
    fx(div_round(a.raw * b.raw, SCALE as int))
}

pub open spec fn fx_div(a: Fixed, b: Fixed) -> Fixed {
    fx(div_round(a.raw * SCALE, b.raw as int))
}

pub open spec fn fx_abs(a: Fixed) -> Fixed {
    fx(abs_int(a.raw as int))
}

pub open spec fn fx_max(a: Fixed, b: Fixed) -> Fixed {
    if a.raw > b.raw {
        a
    } else {
        b
    }
}

pub open spec fn fx_min(a: Fixed, b: Fixed) -> Fixed {
    if a.raw < b.raw {
        a
    } else {
        b
    }
}

fn clamp_i128(x: i128) -> (r: i64)
    ensures
        r as int == clamp(x as int),
{
    if x > i64::MAX as i128 {
        i64::MAX
    } else if x < i64::MIN as i128 {
        i64::MIN
    } else {
        x as i64
    }
}

fn div_round_i128(n: i128, d: i128) -> (q: i128)
    requires
        d != 0,
        -0x4000_0000_0000_0000_0000_0000_0000_0000 <= n <= 0x4000_0000_0000_0000_0000_0000_0000_0000,
        -0x8000_0000_0000_0000 <= d <= 0x8000_0000_0000_0000,
    ensures
        q as int == div_round(n as int, d as int),
{
    let an: u128 = if n < 0 { (-n) as u128 } else { n as u128 };
    let ad: u128 = if d < 0 { (-d) as u128 } else { d as u128 };
    let top: u128 = 2 * an + ad;
    let qq: u128 = top / (2 * ad);
    proof {
        lemma_div_is_ordered_by_denominator(top as int, 2, 2 * ad as int);
    }
    if (n < 0) != (d < 0) {
        -(qq as i128)
    } else {
        qq as i128
    }
}

/// The raw quotient `n / d`, rounded and saturated.
pub(crate) fn ratio(n: i128, d: i128) -> (r: Fixed)
    requires
        d != 0,
        -0x4000_0000_0000_0000_0000_0000_0000_0000 <= n <= 0x4000_0000_0000_0000_0000_0000_0000_0000,
        -0x8000_0000_0000_0000 <= d <= 0x8000_0000_0000_0000,
    ensures
        r == fx(div_round(n as int, d as int)),
{
    Fixed { raw: clamp_i128(div_round_i128(n, d)) }
}

impl Fixed {
    /// The number whose raw value is `raw`.
    pub fn from_raw(raw: i64) -> (r: Fixed)
        ensures
            r.raw == raw,
    {
        Fixed { raw }
    }

    pub fn zero() -> (r: Fixed)
        ensures
            r == fx_int(0),
    {
        Fixed { raw: 0 }
    }

    pub fn one() -> (r: Fixed)
        ensures
            r == fx_int(1),
    {
        Fixed { raw: SCALE }
    }

    /// The whole number `n`; always exact.
    pub fn from_u32(n: u32) -> (r: Fixed)
        ensures
            r == fx_int(n as int),
            r.raw == n * SCALE,
    {
        proof {
            assert(0 <= n * SCALE <= 4294967295 * SCALE) by (nonlinear_arith)
                requires
                    0 <= n <= 4294967295,
            ;
        }
        Fixed { raw: (n as i64) * SCALE }
    }

    pub fn add(self, o: Fixed) -> (r: Fixed)
        ensures
            r == fx_add(self, o),
    {
        Fixed { raw: clamp_i128(self.raw as i128 + o.raw as i128) }
    }

    pub fn sub(self, o: Fixed) -> (r: Fixed)
        ensures
            r == fx_sub(self, o),
    {
        Fixed { raw: clamp_i128(self.raw as i128 - o.raw as i128) }
    }

    pub fn mul(self, o: Fixed) -> (r: Fixed)
        ensures
            r == fx_mul(self, o),
    {
        let a = self.raw as i128;
        let b = o.raw as i128;
        proof {
            assert(-0x4000_0000_0000_0000_0000_0000_0000_0000 <= a * b
                <= 0x4000_0000_0000_0000_0000_0000_0000_0000) by (nonlinear_arith)
                requires
                    -0x8000_0000_0000_0000 <= a <= 0x7fff_ffff_ffff_ffff,
                    -0x8000_0000_0000_0000 <= b <= 0x7fff_ffff_ffff_ffff,
            ;
        }
        let q = div_round_i128(a * b, SCALE as i128);
        Fixed { raw: clamp_i128(q) }
    }

    /// Quotient; the divisor must not be zero.
    pub fn div(self, o: Fixed) -> (r: Fixed)
        requires
            o.raw != 0,
        ensures
            r == fx_div(self, o),
    {
        let a = self.raw as i128;
        proof {
            assert(-0x4000_0000_0000_0000_0000_0000_0000_0000 <= a * SCALE
                <= 0x4000_0000_0000_0000_0000_0000_0000_0000) by (nonlinear_arith)
                requires
                    -0x8000_0000_0000_0000 <= a <= 0x7fff_ffff_ffff_ffff,
            ;
        }
        let q = div_round_i128(a * (SCALE as i128), o.raw as i128);
        Fixed { raw: clamp_i128(q) }
    }

    pub fn abs(self) -> (r: Fixed)
        ensures
            r == fx_abs(self),
    {
        let a = self.raw as i128;
        Fixed { raw: clamp_i128(if a < 0 { -a } else { a }) }
    }
}

/// A rounded quotient of a non-negative number by a positive one is not negative.
pub proof fn lemma_div_round_nonneg(n: int, d: int)
    requires
        n >= 0,
        d > 0,
    ensures
        div_round(n, d) >= 0,
{
    lemma_div_pos_is_pos(2 * n + d, 2 * d);
}

/// Rounding never lifts a quotient above a whole bound it does not exceed.
pub proof fn lemma_div_round_le(n: int, d: int, b: int)
    requires
        0 <= n <= b * d,
        d > 0,
        b >= 0,
    ensures
        div_round(n, d) <= b,
{
    assert(2 * b * d == 2 * (b * d)) by (nonlinear_arith);
    lemma_div_is_ordered(2 * n + d, 2 * b * d + d, 2 * d);
    assert(2 * b * d + d == b * (2 * d) + d) by (nonlinear_arith);
    lemma_fundamental_div_mod_converse(2 * b * d + d, 2 * d, b, d);
}

/// Dividing an exact multiple gives the multiplier back.
pub proof fn lemma_div_round_exact(a: int, d: int)
    requires
        d > 0,
    ensures
        div_round(a * d, d) == a,
{
    let m = abs_int(a);
    assert(abs_int(a * d) == m * d) by (nonlinear_arith)
        requires
            d > 0,
            m == abs_int(a),
    ;
    assert(2 * (m * d) + d == m * (2 * d) + d) by (nonlinear_arith);
    lemma_fundamental_div_mod_converse(2 * (m * d) + d, 2 * d, m, d);
    assert((a * d < 0) == (a < 0)) by (nonlinear_arith)
        requires
            d > 0,
    ;
}

/// Products and quotients of non-negative numbers are not negative.
pub proof fn lemma_nonneg_ops(a: Fixed, b: Fixed)
    requires
        a.raw >= 0,
        b.raw >= 0,
    ensures
        fx_mul(a, b).raw >= 0,
        fx_add(a, b).raw >= 0,
        b.raw > 0 ==> fx_div(a, b).raw >= 0,
{
    assert(a.raw * b.raw >= 0) by (nonlinear_arith)
        requires
            a.raw >= 0,
            b.raw >= 0,
    ;
    lemma_div_round_nonneg(a.raw * b.raw, SCALE as int);
    if b.raw > 0 {
        lemma_div_round_nonneg(a.raw * SCALE, b.raw as int);
    }
}

} // verus!
