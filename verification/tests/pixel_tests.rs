//! Pixel arithmetic, clamping semantics, and quantization.

use raytracer::fixed::Fx;
use raytracer::pixel::{Pixel, RawPixel};

fn fx(raw: i64) -> Fx {
    Fx::from_raw(raw)
}

#[test]
fn clamp_bounds_components() {
    let p = Pixel::from_rgba_unclamped(fx(1_500_000), fx(-200_000), fx(500_000), fx(1_000_000));
    let c = p.clamp();
    assert_eq!(c.r, fx(1_000_000));
    assert_eq!(c.g, fx(0));
    assert_eq!(c.b, fx(500_000));
    assert_eq!(c.a, fx(1_000_000));
    assert!(!c.with_clamping);
}

#[test]
fn clamping_pixel_clamps_on_construction_and_add() {
    let p = Pixel::from_rgb(fx(800_000), fx(800_000), fx(800_000));
    let q = p.add(p);
    assert_eq!(q.r, fx(1_000_000));
    assert_eq!(q.g, fx(1_000_000));
    assert_eq!(q.b, fx(1_000_000));
    assert_eq!(q.a, fx(1_000_000));
    let big = Pixel::from_rgb(fx(1_500_000), fx(-1), fx(250_000));
    assert_eq!(big.r, fx(1_000_000));
    assert_eq!(big.g, fx(0));
    assert_eq!(big.b, fx(250_000));
}

#[test]
fn unclamped_accumulation_keeps_excess() {
    let p = Pixel::from_rgba_unclamped(fx(800_000), fx(0), fx(0), fx(0));
    let q = p.add(Pixel::from_rgba_unclamped(fx(700_000), fx(0), fx(0), fx(0)));
    assert_eq!(q.r, fx(1_500_000));
    assert_eq!(q.a, fx(1_000_000));
    assert!(!q.with_clamping);
}

#[test]
fn mul_is_componentwise() {
    let p = Pixel::from_rgb(fx(500_000), fx(1_000_000), fx(0));
    let q = Pixel::from_rgb(fx(500_000), fx(250_000), fx(1_000_000));
    let m = p.mul(q);
    assert_eq!(m.r, fx(250_000));
    assert_eq!(m.g, fx(250_000));
    assert_eq!(m.b, fx(0));
}

#[test]
fn mul_scalar_scales_colors() {
    let p = Pixel::from_rgba_unclamped(fx(400_000), fx(200_000), fx(100_000), fx(0));
    let s = p.mul_scalar(fx(500_000));
    assert_eq!(s.r, fx(200_000));
    assert_eq!(s.g, fx(100_000));
    assert_eq!(s.b, fx(50_000));
    assert_eq!(s.a, fx(1_000_000));
}

#[test]
fn lerp_interpolates_and_clamps() {
    let black = Pixel::from_rgb(fx(0), fx(0), fx(0));
    let white = Pixel::from_rgb(fx(1_000_000), fx(1_000_000), fx(1_000_000));
    let quarter = black.lerp(&white, fx(250_000));
    assert_eq!(quarter.r, fx(250_000));
    assert_eq!(quarter.g, fx(250_000));
    assert_eq!(quarter.b, fx(250_000));
}

#[test]
fn luminance_of_white_is_one() {
    let white = Pixel::from_rgb(fx(1_000_000), fx(1_000_000), fx(1_000_000));
    assert_eq!(white.luminance(), Fx::one());
    let red = Pixel::from_rgb(fx(1_000_000), fx(0), fx(0));
    assert_eq!(red.luminance(), fx(212_600));
}

#[test]
fn raw_conversion_quantizes() {
    let p = Pixel::from_rgb(fx(1_000_000), fx(500_000), fx(0));
    let raw = RawPixel::from_pixel(p);
    assert_eq!(raw, RawPixel { r: 255, g: 127, b: 0, a: 255 });
    let back = Pixel::from_raw(RawPixel { r: 255, g: 0, b: 51, a: 255 });
    assert_eq!(back.r, fx(1_000_000));
    assert_eq!(back.g, fx(0));
    assert_eq!(back.b, fx(200_000));
    assert!(back.with_clamping);
}

#[test]
fn quant_bins_components() {
    let p = Pixel::from_rgb(fx(1_000_000), fx(500_000), fx(0));
    let q = p.quant(4);
    // 255 stays 255; 127 drops to bin 7 of 16, stretched by 17 to the
    // byte 119, which scales back to 119/255.
    assert_eq!(q.r, fx(1_000_000));
    assert_eq!(q.g, fx(466_666));
    assert_eq!(q.b, fx(0));
    assert_eq!(q.a, fx(1_000_000));
}

#[test]
fn set_rgb_clamps_when_flagged() {
    let mut p = Pixel::from_rgb(fx(0), fx(0), fx(0));
    p.set_rgb(fx(2_000_000), fx(-1), fx(300_000));
    assert_eq!(p.r, fx(1_000_000));
    assert_eq!(p.g, fx(0));
    assert_eq!(p.b, fx(300_000));
    let mut u = Pixel::from_rgba_unclamped(fx(0), fx(0), fx(0), fx(0));
    u.set_rgba(fx(2_000_000), fx(-1), fx(300_000), fx(500_000));
    assert_eq!(u.r, fx(2_000_000));
    assert_eq!(u.g, fx(-1));
    assert_eq!(u.a, fx(500_000));
}

#[test]
fn from_slice_unclamped_reads_three() {
    let s = [fx(100_000), fx(200_000), fx(300_000), fx(999)];
    let p = Pixel::from_slice_unclamped(&s);
    assert_eq!(p.r, fx(100_000));
    assert_eq!(p.g, fx(200_000));
    assert_eq!(p.b, fx(300_000));
    assert_eq!(p.a, fx(1_000_000));
    assert!(!p.with_clamping);
    let q = Pixel::from_pix_unclamped(Pixel::from_rgb(fx(1), fx(2), fx(3)));
    assert!(!q.with_clamping);
}
