//! Colors: a fixed-point RGBA pixel and its 8-bit raw form.
//!
//! A `Pixel` carries a clamping flag fixed at construction: with the flag
//! set, every value it produces lies in [0.0, 1.0]; unclamped pixels are
//! used transiently while light contributions accumulate, and are clamped
//! once, at the point of storage into the raw image buffer.

use vstd::prelude::*;

use crate::fixed::{fx_add, fx_clamp01, fx_mul, fx_sub, Fx, FX_ONE};

verus! {

use vstd::arithmetic::div_mod::{
    lemma_div_is_ordered,
    lemma_div_is_ordered_by_denominator,
    lemma_fundamental_div_mod,
    lemma_mod_division_less_than_divisor,
};
use vstd::arithmetic::mul::lemma_mul_inequality;
use vstd::arithmetic::power2::{lemma2_to64, pow2};
use vstd::bits::lemma_u64_shr_is_div;

/// Raw weight of red in luminance (0.2126).
pub const LUMA_R: i64 = 212_600;
/// Raw weight of green in luminance (0.7152).
pub const LUMA_G: i64 = 715_200;
/// Raw weight of blue in luminance (0.0722).
pub const LUMA_B: i64 = 72_200;

/// Mathematical model of a pixel: four raw fixed-point components and
/// the clamping flag.
pub ghost struct PixV {
    pub r: int,
    pub g: int,
    pub b: int,
    pub a: int,
    pub clamping: bool,
}

/// Black with full alpha, clamping: the pixel a zero contribution or
/// an exceeded recursion depth produces.
pub open spec fn pix_black() -> PixV {
    PixV { r: 0, g: 0, b: 0, a: FX_ONE as int, clamping: true }
}

/// A component clamped to [0.0, 1.0] and quantized to one byte.
pub open spec fn raw_of_component(v: int) -> int {
    (fx_clamp01(v) * 255) / (FX_ONE as int)
}

/// One byte scaled back to a fixed-point component in [0.0, 1.0].
pub open spec fn component_of_raw(v: int) -> int {
    (v * FX_ONE as int) / 255
}

/// Linear interpolation of one component, clamped to [0.0, 1.0].
pub open spec fn lerp_component(low: int, high: int, amount: int) -> int {
    fx_clamp01(fx_add(fx_mul(fx_sub(high, low), amount), low))
}

/// Every component clamped to [0.0, 1.0].
pub open spec fn pix_clamp(p: PixV) -> PixV {
    PixV {
        r: fx_clamp01(p.r),
        g: fx_clamp01(p.g),
        b: fx_clamp01(p.b),
        a: fx_clamp01(p.a),
        clamping: p.clamping,
    }
}

/// With the clamping flag set, every component lies in [0.0, 1.0].
pub open spec fn pix_wf(p: PixV) -> bool {
    p.clamping ==> (0 <= p.r <= FX_ONE && 0 <= p.g <= FX_ONE && 0 <= p.b <= FX_ONE && 0 <= p.a
        <= FX_ONE)
}

/// Component-wise sum; alpha becomes 1.0, and a clamping pixel clamps.
pub open spec fn pix_add(p: PixV, q: PixV) -> PixV {
    let raw = PixV {
        r: fx_add(p.r, q.r),
        g: fx_add(p.g, q.g),
        b: fx_add(p.b, q.b),
        a: FX_ONE as int,
        clamping: p.clamping,
    };
    if p.clamping {
        pix_clamp(raw)
    } else {
        raw
    }
}

/// Component-wise difference; alpha becomes 1.0, and a clamping pixel
/// clamps.
pub open spec fn pix_sub(p: PixV, q: PixV) -> PixV {
    let raw = PixV {
        r: fx_sub(p.r, q.r),
        g: fx_sub(p.g, q.g),
        b: fx_sub(p.b, q.b),
        a: FX_ONE as int,
        clamping: p.clamping,
    };
    if p.clamping {
        pix_clamp(raw)
    } else {
        raw
    }
}

/// Component-wise product; alpha becomes 1.0, and a clamping pixel
/// clamps.
pub open spec fn pix_mul(p: PixV, q: PixV) -> PixV {
    let raw = PixV {
        r: fx_mul(p.r, q.r),
        g: fx_mul(p.g, q.g),
        b: fx_mul(p.b, q.b),
        a: FX_ONE as int,
        clamping: p.clamping,
    };
    if p.clamping {
        pix_clamp(raw)
    } else {
        raw
    }
}

/// Every color component scaled by `s`; alpha becomes 1.0, and a
/// clamping pixel clamps.
pub open spec fn pix_scale(p: PixV, s: int) -> PixV {
    let raw = PixV {
        r: fx_mul(p.r, s),
        g: fx_mul(p.g, s),
        b: fx_mul(p.b, s),
        a: FX_ONE as int,
        clamping: p.clamping,
    };
    if p.clamping {
        pix_clamp(raw)
    } else {
        raw
    }
}

/// Luminance: the weighted sum of the color components.
pub open spec fn pix_luminance(p: PixV) -> int {
    fx_add(fx_add(fx_mul(LUMA_R as int, p.r), fx_mul(LUMA_G as int, p.g)), fx_mul(LUMA_B as int, p.b))
}

/// Component-wise linear interpolation from `p` toward `q`.
pub open spec fn pix_lerp(p: PixV, q: PixV, amount: int) -> PixV {
    PixV {
        r: lerp_component(p.r, q.r, amount),
        g: lerp_component(p.g, q.g, amount),
        b: lerp_component(p.b, q.b, amount),
        a: lerp_component(p.a, q.a, amount),
        clamping: p.clamping,
    }
}

/// One quantized byte: dropped to `8 - num_bins` fewer significant bits,
/// then stretched back over the byte range.
pub open spec fn quant_byte(v: int, shift: nat) -> int {
    (v / pow2(shift) as int) * (255int / (255int / pow2(shift) as int))
}

/// The pixel quantized into `num_bins` significant bits per component,
/// through its byte form; alpha is only round-tripped through a byte.
pub open spec fn pix_quant(p: PixV, num_bins: nat) -> PixV {
    let shift = (8 - num_bins) as nat;
    PixV {
        r: component_of_raw(quant_byte(raw_of_component(p.r), shift)),
        g: component_of_raw(quant_byte(raw_of_component(p.g), shift)),
        b: component_of_raw(quant_byte(raw_of_component(p.b), shift)),
        a: component_of_raw(raw_of_component(p.a)),
        clamping: true,
    }
}

/// The clamping invariant is preserved by every pixel operation: a
/// pixel whose clamping flag is set keeps all four components in
/// [0.0, 1.0] through clamping, addition, subtraction, multiplication,
/// scaling, and interpolation.
pub proof fn lemma_pix_ops_preserve_wf(p: PixV, q: PixV, s: int, amount: int)
    ensures
        pix_wf(pix_clamp(p)),
        pix_wf(pix_add(p, q)),
        pix_wf(pix_sub(p, q)),
        pix_wf(pix_mul(p, q)),
        pix_wf(pix_scale(p, s)),
        pix_wf(pix_lerp(p, q, amount)),
{
}

/// A pixel on the byte level, as stored in an image buffer.
#[derive(Clone, Copy, PartialEq, Eq, Structural, Debug)]
pub struct RawPixel {
    pub r: u8,
    pub g: u8,
    pub b: u8,
    pub a: u8,
}

/// A full-precision pixel.
#[derive(Clone, Copy, PartialEq, Eq, Structural, Debug)]
pub struct Pixel {
    pub r: Fx,
    pub g: Fx,
    pub b: Fx,
    pub a: Fx,
    pub with_clamping: bool,
}

impl View for Pixel {
    type V = PixV;

    open spec fn view(&self) -> PixV {
        PixV { r: self.r@, g: self.g@, b: self.b@, a: self.a@, clamping: self.with_clamping }
    }
}

/// Clamp a component to [0.0, 1.0] and quantize it to one byte.
fn component_to_raw(v: Fx) -> (r: u8)
    ensures
        r as int == raw_of_component(v@),
{
    let c = v.clamp01();
    let wide: u64 = (c.raw as u64) * 255;
    proof {
        lemma_div_is_ordered(wide as int, 255 * FX_ONE as int, FX_ONE as int);
    }
    (wide / (FX_ONE as u64)) as u8
}

/// Scale one byte back to a fixed-point component.
fn raw_to_component(v: u8) -> (r: Fx)
    ensures
        r@ == component_of_raw(v as int),
        0 <= r@ <= FX_ONE,
{
    proof {
        assert((v as int) * (FX_ONE as int) <= 255 * (FX_ONE as int)) by (nonlinear_arith)
            requires
                0 <= v as int <= 255,
        ;
    }
    let wide: u64 = (v as u64) * (FX_ONE as u64);
    proof {
        assert(wide as int <= 255 * (FX_ONE as int)) by (nonlinear_arith)
            requires
                wide as int == (v as int) * (FX_ONE as int),
                0 <= v as int <= 255,
        ;
        lemma_div_is_ordered(wide as int, 255 * (FX_ONE as int), 255int);
    }
    Fx::from_raw((wide / 255) as i64)
}

/// One byte quantized into the coarse bins given by `shift`.
fn quant_component(v: u8, shift: u64) -> (r: u8)
    requires
        shift < 8,
    ensures
        r as int == quant_byte(v as int, shift as nat),
{
    proof {
        lemma2_to64();
        lemma_u64_shr_is_div(255u64, shift);
        lemma_u64_shr_is_div(v as u64, shift);
        if shift < 7 {
            vstd::arithmetic::power2::lemma_pow2_strictly_increases(shift as nat, 7nat);
        }
        lemma_div_is_ordered_by_denominator(255int, pow2(shift as nat) as int, 128int);
    }
    let m: u64 = 255u64 >> shift;
    assert(m >= 1);
    let mult: u64 = 255 / m;
    let nv: u64 = (v as u64) >> shift;
    proof {
        lemma_div_is_ordered(v as int, 255int, pow2(shift as nat) as int);
        lemma_fundamental_div_mod(255int, m as int);
        lemma_mod_division_less_than_divisor(255int, m as int);
        lemma_mul_inequality(nv as int, m as int, mult as int);
    }
    (nv * mult) as u8
}

impl RawPixel {
    /// A full-precision pixel clamped and quantized to bytes.
    pub fn from_pixel(pix: Pixel) -> (r: RawPixel)
        ensures
            r.r as int == raw_of_component(pix@.r),
            r.g as int == raw_of_component(pix@.g),
            r.b as int == raw_of_component(pix@.b),
            r.a as int == raw_of_component(pix@.a),
    {
        RawPixel {
            r: component_to_raw(pix.r),
            g: component_to_raw(pix.g),
            b: component_to_raw(pix.b),
            a: component_to_raw(pix.a),
        }
    }
}

impl Pixel {
    /// A clamping pixel scaled up from bytes; every component lies in
    /// [0.0, 1.0].
    pub fn from_raw(raw: RawPixel) -> (r: Pixel)
        ensures
            r@ == (PixV {
                r: component_of_raw(raw.r as int),
                g: component_of_raw(raw.g as int),
                b: component_of_raw(raw.b as int),
                a: component_of_raw(raw.a as int),
                clamping: true,
            }),
            pix_wf(r@),
    {
        Pixel {
            r: raw_to_component(raw.r),
            g: raw_to_component(raw.g),
            b: raw_to_component(raw.b),
            a: raw_to_component(raw.a),
            with_clamping: true,
        }
    }

    /// An unclamped pixel from the first three scalars of a slice, with
    /// alpha 1.0.
    pub fn from_slice_unclamped(numbers: &[Fx]) -> (r: Pixel)
        requires
            numbers@.len() >= 3,
        ensures
            r@ == (PixV {
                r: numbers@[0]@,
                g: numbers@[1]@,
                b: numbers@[2]@,
                a: FX_ONE as int,
                clamping: false,
            }),
    {
        Pixel { r: numbers[0], g: numbers[1], b: numbers[2], a: Fx::one(), with_clamping: false }
    }

    /// The same pixel with clamping turned off.
    pub fn from_pix_unclamped(pix: Pixel) -> (r: Pixel)
        ensures
            r@ == (PixV { clamping: false, ..pix@ }),
    {
        Pixel { with_clamping: false, ..pix }
    }

    /// An unclamped pixel from components.
    pub fn from_rgba_unclamped(r: Fx, g: Fx, b: Fx, a: Fx) -> (p: Pixel)
        ensures
            p@ == (PixV { r: r@, g: g@, b: b@, a: a@, clamping: false }),
    {
        Pixel { r, g, b, a, with_clamping: false }
    }

    /// A clamping pixel from components; each is clamped to [0.0, 1.0]
    /// on construction, establishing the clamping invariant.
    pub fn from_rgba(r: Fx, g: Fx, b: Fx, a: Fx) -> (p: Pixel)
        ensures
            p@ == (PixV {
                r: fx_clamp01(r@),
                g: fx_clamp01(g@),
                b: fx_clamp01(b@),
                a: fx_clamp01(a@),
                clamping: true,
            }),
            pix_wf(p@),
    {
        Pixel {
            r: r.clamp01(),
            g: g.clamp01(),
            b: b.clamp01(),
            a: a.clamp01(),
            with_clamping: true,
        }
    }

    /// A clamping pixel from color components, with alpha 1.0.
    pub fn from_rgb(r: Fx, g: Fx, b: Fx) -> (p: Pixel)
        ensures
            p@ == (PixV {
                r: fx_clamp01(r@),
                g: fx_clamp01(g@),
                b: fx_clamp01(b@),
                a: FX_ONE as int,
                clamping: true,
            }),
            pix_wf(p@),
    {
        Pixel::from_rgba(r, g, b, Fx::one())
    }

    /// Every component clamped to [0.0, 1.0], consuming self.
    pub fn clamp(self) -> (r: Pixel)
        ensures
            r@ == pix_clamp(self@),
    {
        Pixel {
            r: self.r.clamp01(),
            g: self.g.clamp01(),
            b: self.b.clamp01(),
            a: self.a.clamp01(),
            with_clamping: self.with_clamping,
        }
    }

    /// Set all four components; a clamping pixel clamps them.
    pub fn set_rgba(&mut self, r: Fx, g: Fx, b: Fx, a: Fx)
        ensures
            final(self)@ == if old(self)@.clamping {
                pix_clamp(PixV { r: r@, g: g@, b: b@, a: a@, clamping: true })
            } else {
                PixV { r: r@, g: g@, b: b@, a: a@, clamping: false }
            },
    {
        self.r = r;
        self.g = g;
        self.b = b;
        self.a = a;
        if self.with_clamping {
            *self = self.clamp();
        }
    }

    /// Set the color components; a clamping pixel clamps them.
    pub fn set_rgb(&mut self, r: Fx, g: Fx, b: Fx)
        ensures
            final(self)@ == if old(self)@.clamping {
                pix_clamp(PixV { r: r@, g: g@, b: b@, a: old(self)@.a, clamping: true })
            } else {
                PixV { r: r@, g: g@, b: b@, a: old(self)@.a, clamping: false }
            },
    {
        self.r = r;
        self.g = g;
        self.b = b;
        if self.with_clamping {
            *self = self.clamp();
        }
    }

    /// Luminance of the pixel.
    pub fn luminance(&self) -> (r: Fx)
        ensures
            r@ == pix_luminance(self@),
    {
        Fx::from_raw(LUMA_R).mul(self.r).add(Fx::from_raw(LUMA_G).mul(self.g)).add(
            Fx::from_raw(LUMA_B).mul(self.b),
        )
    }

    /// Linearly interpolate toward another pixel.
    pub fn lerp(&self, other: &Pixel, amount: Fx) -> (r: Pixel)
        ensures
            r@ == pix_lerp(self@, other@, amount@),
    {
        Pixel {
            r: other.r.sub(self.r).mul(amount).add(self.r).clamp01(),
            g: other.g.sub(self.g).mul(amount).add(self.g).clamp01(),
            b: other.b.sub(self.b).mul(amount).add(self.b).clamp01(),
            a: other.a.sub(self.a).mul(amount).add(self.a).clamp01(),
            with_clamping: self.with_clamping,
        }
    }

    /// Quantize each color component into `num_bins` significant bits.
    pub fn quant(&self, num_bins: usize) -> (r: Pixel)
        requires
            1 <= num_bins <= 8,
        ensures
            r@ == pix_quant(self@, num_bins as nat),
    {
        let raw = RawPixel::from_pixel(*self);
        let shift: u64 = (8 - num_bins) as u64;
        let raw_quant = RawPixel {
            r: quant_component(raw.r, shift),
            g: quant_component(raw.g, shift),
            b: quant_component(raw.b, shift),
            a: raw.a,
        };
        Pixel::from_raw(raw_quant)
    }

    /// Component-wise sum; alpha becomes 1.0, and a clamping pixel
    /// clamps the result.
    pub fn add(self, other: Pixel) -> (r: Pixel)
        ensures
            r@ == pix_add(self@, other@),
    {
        let ret = Pixel {
            r: self.r.add(other.r),
            g: self.g.add(other.g),
            b: self.b.add(other.b),
            a: Fx::one(),
            with_clamping: self.with_clamping,
        };
        if self.with_clamping {
            ret.clamp()
        } else {
            ret
        }
    }

    /// Component-wise difference; alpha becomes 1.0, and a clamping
    /// pixel clamps the result.
    pub fn sub(self, other: Pixel) -> (r: Pixel)
        ensures
            r@ == pix_sub(self@, other@),
    {
        let ret = Pixel {
            r: self.r.sub(other.r),
            g: self.g.sub(other.g),
            b: self.b.sub(other.b),
            a: Fx::one(),
            with_clamping: self.with_clamping,
        };
        if self.with_clamping {
            ret.clamp()
        } else {
            ret
        }
    }

    /// Component-wise product; alpha becomes 1.0, and a clamping pixel
    /// clamps the result.
    pub fn mul(self, other: Pixel) -> (r: Pixel)
        ensures
            r@ == pix_mul(self@, other@),
    {
        let ret = Pixel {
            r: self.r.mul(other.r),
            g: self.g.mul(other.g),
            b: self.b.mul(other.b),
            a: Fx::one(),
            with_clamping: self.with_clamping,
        };
        if self.with_clamping {
            ret.clamp()
        } else {
            ret
        }
    }

    /// Every color component scaled by `s`; alpha becomes 1.0, and a
    /// clamping pixel clamps the result.
    pub fn mul_scalar(self, s: Fx) -> (r: Pixel)
        ensures
            r@ == pix_scale(self@, s@),
    {
        let ret = Pixel {
            r: self.r.mul(s),
            g: self.g.mul(s),
            b: self.b.mul(s),
            a: Fx::one(),
            with_clamping: self.with_clamping,
        };
        if self.with_clamping {
            ret.clamp()
        } else {
            ret
        }
    }
}

} // verus!
