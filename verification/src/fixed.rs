//! Saturating fixed-point scalar arithmetic.
//!
//! A scalar is an `i64` counting units of `1 / FX_ONE`. Multiplication and
//! division rescale with truncation toward zero, and every operation
//! saturates at `+/-i64::MAX`, so all arithmetic is total: a degenerate
//! input yields a well-defined value instead of a fault.

use vstd::prelude::*;

verus! {

use vstd::math::abs;

/// Raw units in 1.0: the fixed-point scale.
pub const FX_ONE: i64 = 1_000_000;
/// Raw units in 0.5.
pub const FX_HALF: i64 = 500_000;
/// Largest raw magnitude a scalar may hold; results saturate here.
pub const FX_MAX_RAW: i64 = i64::MAX;

/// Clamp a mathematical result into the representable raw range.
pub open spec fn sat(x: int) -> int {
    if x > FX_MAX_RAW as int {
        FX_MAX_RAW as int
    } else if x < -(FX_MAX_RAW as int) {
        -(FX_MAX_RAW as int)
    } else {
        x
    }
}

/// Saturating raw addition.
pub open spec fn fx_add(a: int, b: int) -> int {
    sat(a + b)
}

/// Saturating raw subtraction.
pub open spec fn fx_sub(a: int, b: int) -> int {
    sat(a - b)
}

/// Saturating raw negation.
pub open spec fn fx_neg(a: int) -> int {
    sat(-a)
}

/// Scaled multiplication: magnitudes multiply, rescale by `FX_ONE` with
/// truncation toward zero, then the sign is reapplied and the result
/// saturates.
pub open spec fn fx_mul(a: int, b: int) -> int {
    let m = (abs(a) * abs(b)) as int / FX_ONE as int;
    if (a < 0) != (b < 0) {
        sat(-m)
    } else {
        sat(m)
    }
}

/// Scaled division, truncating toward zero; a zero divisor yields zero,
/// so division is total.
pub open spec fn fx_div(a: int, b: int) -> int {
    if b == 0 {
        0
    } else {
        let m = (abs(a) * FX_ONE as int) as int / abs(b) as int;
        if (a < 0) != (b < 0) {
            sat(-m)
        } else {
            sat(m)
        }
    }
}

/// The integer square root: the greatest `r` with `r * r <= x`
/// (zero for `x <= 0`).
pub open spec fn spec_isqrt(x: int) -> int
    decreases x,
{
    if x <= 0 {
        0
    } else {
        let r = spec_isqrt(x - 1);
        if (r + 1) * (r + 1) <= x {
            r + 1
        } else {
            r
        }
    }
}

/// Fixed-point square root: the integer square root of the raw value
/// rescaled by `FX_ONE`; zero for non-positive inputs.
pub open spec fn fx_sqrt(a: int) -> int {
    if a <= 0 {
        0
    } else {
        spec_isqrt(a * FX_ONE)
    }
}

/// Fixed-point power with a whole exponent: `e` successive scaled
/// multiplications starting from 1.0.
pub open spec fn fx_powi(b: int, e: nat) -> int
    decreases e,
{
    if e == 0 {
        FX_ONE as int
    } else {
        fx_mul(b, fx_powi(b, (e - 1) as nat))
    }
}

/// The whole number `n` as a raw value, saturated into range.
pub open spec fn fx_from_int(n: int) -> int {
    sat(n * FX_ONE as int)
}

/// Magnitude of a raw value, saturated into range.
pub open spec fn fx_abs(a: int) -> int {
    sat(abs(a) as int)
}

/// The raw value rounded half away from zero to a whole number count.
pub open spec fn fx_round(a: int) -> int {
    let m = (abs(a) + FX_HALF) as int / FX_ONE as int;
    if a < 0 {
        -m
    } else {
        m
    }
}

/// Clamp a raw value into [0.0, 1.0].
pub open spec fn fx_clamp01(a: int) -> int {
    if a < 0 {
        0
    } else if a > FX_ONE as int {
        FX_ONE as int
    } else {
        a
    }
}

/// A fixed-point scalar: `raw` counts units of `1 / FX_ONE`.
#[derive(Clone, Copy, PartialEq, Eq, Structural, Debug)]
pub struct Fx {
    pub raw: i64,
}

impl View for Fx {
    type V = int;

    open spec fn view(&self) -> int {
        self.raw as int
    }
}

pub proof fn lemma_isqrt_bracket(x: int)
    requires
        x >= 0,
    ensures
        0 <= spec_isqrt(x),
        spec_isqrt(x) * spec_isqrt(x) <= x,
        x < (spec_isqrt(x) + 1) * (spec_isqrt(x) + 1),
    decreases x,
{
    if x == 0 {
    } else {
        lemma_isqrt_bracket(x - 1);
        let r = spec_isqrt(x - 1);
        if (r + 1) * (r + 1) <= x {
            assert(x < (r + 2) * (r + 2)) by (nonlinear_arith)
                requires
                    x - 1 < (r + 1) * (r + 1),
                    r >= 0,
            ;
        }
    }
}

proof fn lemma_isqrt_unique(x: int, r: int)
    requires
        x >= 0,
        r >= 0,
        r * r <= x,
        x < (r + 1) * (r + 1),
    ensures
        r == spec_isqrt(x),
{
    let s = spec_isqrt(x);
    lemma_isqrt_bracket(x);
    assert(r == s) by (nonlinear_arith)
        requires
            r >= 0,
            s >= 0,
            r * r <= x,
            x < (r + 1) * (r + 1),
            s * s <= x,
            x < (s + 1) * (s + 1),
    ;
}

/// A scaled square is exact up to one unit of truncation: for a
/// moderate component, `fx_mul(x, x)` is the floor of `x * x / FX_ONE`.
pub proof fn lemma_fx_square_bracket(x: int)
    requires
        abs(x) <= 3_000_000_000_000,
    ensures
        0 <= fx_mul(x, x),
        fx_mul(x, x) * (FX_ONE as int) <= x * x,
        x * x < fx_mul(x, x) * (FX_ONE as int) + FX_ONE,
        fx_mul(x, x) <= 9_000_000_000_000_000_000,
{
    let s = FX_ONE as int;
    let a = abs(x) as int;
    assert(a * a == x * x) by (nonlinear_arith)
        requires
            a == x || a == -x,
    ;
    let m = (a * a) / s;
    vstd::arithmetic::div_mod::lemma_fundamental_div_mod(a * a, s);
    vstd::arithmetic::div_mod::lemma_mod_division_less_than_divisor(a * a, s);
    assert(a * a <= 9_000_000_000_000_000_000_000_000) by (nonlinear_arith)
        requires
            0 <= a <= 3_000_000_000_000,
    ;
    vstd::arithmetic::div_mod::lemma_div_is_ordered(
        a * a,
        9_000_000_000_000_000_000_000_000,
        s,
    );
    assert(m >= 0);
    assert(fx_mul(x, x) == sat(m));
}

/// A scaled division by a positive divisor is exact up to one unit of
/// truncation, with the sign reapplied afterward.
pub proof fn lemma_fx_div_by_positive(x: int, l: int)
    requires
        l > 0,
        abs(x) <= 3_000_000_000_000,
    ensures
        ({
            let m = (abs(x) * FX_ONE) as int / l;
            &&& fx_div(x, l) == if x < 0 {
                -m
            } else {
                m
            }
            &&& 0 <= m <= 3_000_000_000_000_000_000
            &&& m * l <= (abs(x) * FX_ONE) as int
            &&& ((abs(x) * FX_ONE) as int) < m * l + l
        }),
{
    let s = FX_ONE as int;
    let a = abs(x) as int;
    let m = (a * s) / l;
    vstd::arithmetic::div_mod::lemma_fundamental_div_mod(a * s, l);
    vstd::arithmetic::div_mod::lemma_mod_division_less_than_divisor(a * s, l);
    assert(a * s <= 3_000_000_000_000_000_000) by (nonlinear_arith)
        requires
            0 <= a <= 3_000_000_000_000,
            s == 1_000_000,
    ;
    vstd::arithmetic::div_mod::lemma_div_is_ordered(a * s, 3_000_000_000_000_000_000, l);
    vstd::arithmetic::div_mod::lemma_div_pos_is_pos(a * s, l);
    assert(abs(l) == l);
    assert(fx_div(x, l) == if (x < 0) != (l < 0) {
        sat(-m)
    } else {
        sat(m)
    });
    lemma_sat_neg(m);
}

/// Saturation is symmetric about zero.
pub proof fn lemma_sat_neg(x: int)
    ensures
        sat(-x) == -sat(x),
{
}

/// Negating one factor negates a scaled product.
pub proof fn lemma_fx_mul_neg_left(a: int, b: int)
    ensures
        fx_mul(-a, b) == -fx_mul(a, b),
{
    let m = (abs(a) * abs(b)) as int / FX_ONE as int;
    assert(m >= 0);
    assert(abs(-a) == abs(a));
    lemma_sat_neg(m);
    lemma_sat_neg(-m);
    if a == 0 {
        assert(-a == 0);
        assert(fx_mul(-a, b) == fx_mul(a, b));
        assert((abs(a) * abs(b)) as int == 0) by (nonlinear_arith)
            requires
                abs(a) == 0nat,
        ;
        assert(m == 0);
        assert(fx_mul(a, b) == 0);
    } else if (a < 0) != (b < 0) {
        assert(fx_mul(-a, b) == sat(m));
        assert(fx_mul(a, b) == sat(-m));
        assert(sat(m) == -sat(-m));
    } else {
        assert(fx_mul(-a, b) == sat(-m));
        assert(fx_mul(a, b) == sat(m));
        assert(sat(-m) == -sat(m));
    }
}

/// Multiplying by 1.0 changes nothing (for values in the raw range).
pub proof fn lemma_fx_mul_one(x: int)
    requires
        abs(x) <= FX_MAX_RAW,
    ensures
        fx_mul(x, FX_ONE as int) == x,
{
    let a = abs(x) as int;
    assert(a * (FX_ONE as int) / (FX_ONE as int) == a) by (nonlinear_arith)
        requires
            a >= 0,
    ;
}

/// Multiplying by -1.0 negates a value (for values in the raw range).
pub proof fn lemma_fx_mul_neg_one(x: int)
    requires
        abs(x) <= FX_MAX_RAW,
    ensures
        fx_mul(x, -(FX_ONE as int)) == -x,
{
    let a = abs(x) as int;
    assert(a * (FX_ONE as int) / (FX_ONE as int) == a) by (nonlinear_arith)
        requires
            a >= 0,
    ;
}

/// Multiplying by the whole number 2.0 doubles a value (for doubled
/// values still in the raw range).
pub proof fn lemma_fx_mul_two(x: int)
    requires
        2 * abs(x) <= FX_MAX_RAW,
    ensures
        fx_mul(x, fx_from_int(2)) == 2 * x,
{
    let a = abs(x) as int;
    assert(a * (2 * FX_ONE as int) / (FX_ONE as int) == 2 * a) by (nonlinear_arith)
        requires
            a >= 0,
    ;
}

/// A squared component of at most 1.0 rescales to at most 1.0.
pub proof fn lemma_fx_square_le_one(x: int)
    requires
        abs(x) <= FX_ONE,
    ensures
        0 <= fx_mul(x, x) <= FX_ONE as int,
{
    let a = abs(x) as int;
    assert(0 <= a * a / (FX_ONE as int) <= FX_ONE as int) by (nonlinear_arith)
        requires
            0 <= a <= FX_ONE as int,
    ;
}

/// Magnitude of an `i64` as a `u64`; total, `i64::MIN` included.
fn mag64(x: i64) -> (m: u64)
    ensures
        m as int == abs(x as int),
{
    if x < 0 {
        (-(x as i128)) as u64
    } else {
        x as u64
    }
}

/// Saturate a wide intermediate into the raw range.
fn sat128(x: i128) -> (r: i64)
    ensures
        r as int == sat(x as int),
{
    if x > FX_MAX_RAW as i128 {
        FX_MAX_RAW
    } else if x < -(FX_MAX_RAW as i128) {
        -FX_MAX_RAW
    } else {
        x as i64
    }
}

/// Saturate a non-negative magnitude and reapply a sign.
fn sat_mag(m: u128, neg: bool) -> (r: i64)
    ensures
        r as int == if neg {
            sat(-(m as int))
        } else {
            sat(m as int)
        },
{
    let capped: i64 = if m > FX_MAX_RAW as u128 {
        FX_MAX_RAW
    } else {
        m as i64
    };
    if neg {
        -capped
    } else {
        capped
    }
}

/// The integer square root of `x`, for `x` below `2^84`.
fn isqrt_u128(x: u128) -> (r: u128)
    requires
        x < 0x1000000000000000000000u128,
    ensures
        r as int == spec_isqrt(x as int),
{
    let mut lo: u128 = 0;
    let mut hi: u128 = 0x40000000000u128;
    assert(hi as int * hi as int > x as int) by (nonlinear_arith)
        requires
            x < 0x1000000000000000000000u128,
            hi == 0x40000000000u128,
    ;
    while lo < hi
        invariant
            0 <= lo <= hi <= 0x40000000000u128,
            lo as int * lo as int <= x as int,
            (x as int) < (hi as int + 1) * (hi as int + 1),
        decreases hi - lo,
    {
        let mid: u128 = lo + (hi - lo + 1) / 2;
        assert(lo < mid <= hi);
        assert((mid as int) * (mid as int) <= u128::MAX as int) by (nonlinear_arith)
            requires
                mid <= 0x40000000000u128,
        ;
        let sq: u128 = mid * mid;
        if sq <= x {
            lo = mid;
        } else {
            hi = mid - 1;
            assert((x as int) < (hi as int + 1) * (hi as int + 1));
        }
    }
    proof {
        lemma_isqrt_unique(x as int, lo as int);
    }
    lo
}

impl Fx {
    /// Wrap a raw count of `1 / FX_ONE` units.
    pub fn from_raw(raw: i64) -> (r: Fx)
        ensures
            r@ == raw as int,
    {
        Fx { raw }
    }

    /// The whole number `n`, saturated into range.
    pub fn from_int(n: i64) -> (r: Fx)
        ensures
            r@ == fx_from_int(n as int),
    {
        assert(i128::MIN as int <= (n as int) * (FX_ONE as int) <= i128::MAX as int)
            by (nonlinear_arith)
            requires
                i64::MIN as int <= n as int <= i64::MAX as int,
        ;
        Fx { raw: sat128((n as i128) * (FX_ONE as i128)) }
    }

    /// Zero.
    pub fn zero() -> (r: Fx)
        ensures
            r@ == 0,
    {
        Fx { raw: 0 }
    }

    /// One.
    pub fn one() -> (r: Fx)
        ensures
            r@ == FX_ONE as int,
    {
        Fx { raw: FX_ONE }
    }

    /// Saturating addition.
    pub fn add(self, other: Fx) -> (r: Fx)
        ensures
            r@ == fx_add(self@, other@),
    {
        Fx { raw: sat128(self.raw as i128 + other.raw as i128) }
    }

    /// Saturating subtraction.
    pub fn sub(self, other: Fx) -> (r: Fx)
        ensures
            r@ == fx_sub(self@, other@),
    {
        Fx { raw: sat128(self.raw as i128 - other.raw as i128) }
    }

    /// Saturating negation.
    pub fn neg(self) -> (r: Fx)
        ensures
            r@ == fx_neg(self@),
    {
        Fx { raw: sat128(-(self.raw as i128)) }
    }

    /// Scaled multiplication, truncating toward zero, saturating.
    pub fn mul(self, other: Fx) -> (r: Fx)
        ensures
            r@ == fx_mul(self@, other@),
    {
        let neg = (self.raw < 0) != (other.raw < 0);
        let ma = mag64(self.raw);
        let mb = mag64(other.raw);
        assert(ma as int * mb as int <= 0xffffffffffffffffu64 as int * 0xffffffffffffffffu64 as int)
            by (nonlinear_arith)
            requires
                ma <= 0xffffffffffffffffu64,
                mb <= 0xffffffffffffffffu64,
        ;
        let p: u128 = (ma as u128) * (mb as u128);
        let q: u128 = p / (FX_ONE as u128);
        Fx { raw: sat_mag(q, neg) }
    }

    /// Scaled division, truncating toward zero, saturating; a zero
    /// divisor yields zero.
    pub fn div(self, other: Fx) -> (r: Fx)
        ensures
            r@ == fx_div(self@, other@),
    {
        if other.raw == 0 {
            return Fx { raw: 0 };
        }
        let neg = (self.raw < 0) != (other.raw < 0);
        let ma = mag64(self.raw);
        let mb = mag64(other.raw);
        assert(ma as int * FX_ONE as int <= 0xffffffffffffffffu64 as int * FX_ONE as int)
            by (nonlinear_arith)
            requires
                ma <= 0xffffffffffffffffu64,
        ;
        let p: u128 = (ma as u128) * (FX_ONE as u128);
        let q: u128 = p / (mb as u128);
        Fx { raw: sat_mag(q, neg) }
    }

    /// Fixed-point square root; zero for non-positive inputs.
    pub fn sqrt(self) -> (r: Fx)
        ensures
            r@ == fx_sqrt(self@),
    {
        if self.raw <= 0 {
            return Fx { raw: 0 };
        }
        let x: u128 = (self.raw as u128) * (FX_ONE as u128);
        assert(x < 0x1000000000000000000000u128) by (nonlinear_arith)
            requires
                x == self.raw as int * FX_ONE as int,
                0 < self.raw as int <= FX_MAX_RAW as int,
        ;
        let r = isqrt_u128(x);
        proof {
            lemma_isqrt_bracket(x as int);
            assert(r as int * r as int <= x as int);
            assert(r <= 0x200000000000u128) by (nonlinear_arith)
                requires
                    r as int * r as int <= x as int,
                    x < 0x1000000000000000000000u128,
                    r >= 0,
            ;
        }
        Fx { raw: r as i64 }
    }

    /// Fixed-point power with a whole exponent.
    pub fn powi(self, e: u32) -> (r: Fx)
        ensures
            r@ == fx_powi(self@, e as nat),
    {
        let mut acc = Fx { raw: FX_ONE };
        let mut i: u32 = 0;
        while i < e
            invariant
                0 <= i <= e,
                acc@ == fx_powi(self@, i as nat),
        decreases e - i,
        {
            acc = self.mul(acc);
            i = i + 1;
        }
        acc
    }

    /// The magnitude of this scalar.
    pub fn abs(self) -> (r: Fx)
        ensures
            r@ == fx_abs(self@),
    {
        if self.raw < 0 {
            Fx { raw: sat128(-(self.raw as i128)) }
        } else {
            self
        }
    }

    /// Rounded half away from zero to a whole number count of units.
    pub fn round_int(self) -> (r: i64)
        ensures
            r as int == fx_round(self@),
    {
        let m = mag64(self.raw);
        let wide: u128 = m as u128 + FX_HALF as u128;
        proof {
            vstd::arithmetic::div_mod::lemma_div_is_ordered(
                wide as int,
                u64::MAX as int + FX_HALF as int,
                FX_ONE as int,
            );
        }
        let q: i64 = (wide / (FX_ONE as u128)) as i64;
        if self.raw < 0 {
            -q
        } else {
            q
        }
    }

    /// The larger of two scalars.
    pub fn max(self, other: Fx) -> (r: Fx)
        ensures
            r@ == vstd::math::max(self@, other@),
    {
        if self.raw >= other.raw {
            self
        } else {
            other
        }
    }

    /// The smaller of two scalars.
    pub fn min(self, other: Fx) -> (r: Fx)
        ensures
            r@ == vstd::math::min(self@, other@),
    {
        if self.raw <= other.raw {
            self
        } else {
            other
        }
    }

    /// Clamp into [0.0, 1.0].
    pub fn clamp01(self) -> (r: Fx)
        ensures
            r@ == fx_clamp01(self@),
    {
        if self.raw < 0 {
            Fx { raw: 0 }
        } else if self.raw > FX_ONE {
            Fx { raw: FX_ONE }
        } else {
            self
        }
    }

    /// Strictly less than.
    pub fn lt(self, other: Fx) -> (r: bool)
        ensures
            r == (self@ < other@),
    {
        self.raw < other.raw
    }

    /// Less than or equal.
    pub fn le(self, other: Fx) -> (r: bool)
        ensures
            r == (self@ <= other@),
    {
        self.raw <= other.raw
    }

    /// Strictly greater than.
    pub fn gt(self, other: Fx) -> (r: bool)
        ensures
            r == (self@ > other@),
    {
        self.raw > other.raw
    }

    /// Greater than or equal.
    pub fn ge(self, other: Fx) -> (r: bool)
        ensures
            r == (self@ >= other@),
    {
        self.raw >= other.raw
    }
}

} // verus!
