//! A collection of pixels: the renderer's output buffer.
//!
//! Pixels are stored row-major as 8-bit RGBA, indexed `row * width + col`.

use vstd::prelude::*;

use crate::fixed::{fx_abs, fx_from_int, fx_round, fx_sub, Fx};
use crate::pixel::{component_of_raw, raw_of_component, Pixel, PixV, RawPixel};

verus! {

/// A coordinate mirrored back inside `[0, n)`: negative values reflect
/// through zero, and values past the far edge reflect back off it.
pub open spec fn mirror_coord(v: int, n: int) -> int {
    let a = fx_abs(v);
    let m = if a >= fx_from_int(n) {
        fx_sub(fx_sub(fx_from_int(n), fx_sub(a, fx_from_int(n))), fx_from_int(1))
    } else {
        a
    };
    fx_round(fx_abs(m))
}

/// The full-precision pixel read back from one raw byte pixel.
pub open spec fn pixel_of_raw(r: RawPixel) -> PixV {
    PixV {
        r: component_of_raw(r.r as int),
        g: component_of_raw(r.g as int),
        b: component_of_raw(r.b as int),
        a: component_of_raw(r.a as int),
        clamping: true,
    }
}

/// The raw byte pixel a full-precision pixel quantizes to.
pub open spec fn raw_of_pixel(p: PixV) -> RawPixel {
    RawPixel {
        r: raw_of_component(p.r) as u8,
        g: raw_of_component(p.g) as u8,
        b: raw_of_component(p.b) as u8,
        a: raw_of_component(p.a) as u8,
    }
}

/// The pixel buffer flattened to bytes, four per pixel, in r, g, b, a
/// order.
pub open spec fn spec_image_bytes(pixels: Seq<RawPixel>) -> Seq<u8>
    decreases pixels.len(),
{
    if pixels.len() == 0 {
        Seq::empty()
    } else {
        let p = pixels.last();
        spec_image_bytes(pixels.drop_last()) + seq![p.r, p.g, p.b, p.a]
    }
}

/// What the png crate produces for an RGBA8 image of the given size:
/// the encoding is a function of the dimensions and bytes alone.
pub uninterp spec fn png_bytes_of(width: int, height: int, rgba: Seq<u8>) -> Seq<u8>;

/// Relies on png::Encoder (RGBA, eight bits per channel): encoding into
/// an in-memory buffer succeeds for positive dimensions and a byte
/// buffer of exactly four bytes per pixel.
#[verifier::external_body]
fn encode_png_rgba(width: u32, height: u32, bytes: &Vec<u8>) -> (r: Vec<u8>)
    requires
        width > 0,
        height > 0,
        bytes@.len() == 4 * width * height,
    ensures
        r@ == png_bytes_of(width as int, height as int, bytes@),
{
    let mut out: Vec<u8> = Vec::new();
    let mut encoder = png::Encoder::new(&mut out, width, height);
    encoder.set_color(png::ColorType::Rgba);
    encoder.set_depth(png::BitDepth::Eight);
    let mut writer = encoder.write_header().expect("unable to write image header");
    writer.write_image_data(bytes).expect("unable to write image");
    writer.finish().expect("unable to finish image");
    out
}

/// A two-dimensional buffer of raw pixels.
#[derive(Debug, Clone)]
pub struct Image {
    pub pixels: Vec<RawPixel>,
    pub width: usize,
    pub height: usize,
}

impl Image {
    /// The buffer holds exactly one raw pixel per coordinate.
    pub open spec fn wf(&self) -> bool {
        self.pixels@.len() == self.width * self.height
    }

    /// The stored pixels, for specification purposes.
    pub open spec fn spec_pixels(&self) -> Seq<RawPixel> {
        self.pixels@
    }

    /// A black, fully transparent image of the given size.
    pub fn new(width: usize, height: usize) -> (r: Image)
        requires
            width * height <= usize::MAX,
        ensures
            r.wf(),
            r.width == width,
            r.height == height,
            r.spec_pixels() == Seq::new((width * height) as nat, |i: int| RawPixel { r: 0u8, g: 0u8, b: 0u8, a: 0u8 }),
    {
        let n = width * height;
        let mut pixels: Vec<RawPixel> = Vec::new();
        let mut i: usize = 0;
        while i < n
            invariant
                i <= n,
                pixels@.len() == i,
                pixels@ == Seq::new(i as nat, |k: int| RawPixel { r: 0u8, g: 0u8, b: 0u8, a: 0u8 }),
            decreases n - i,
        {
            pixels.push(RawPixel { r: 0, g: 0, b: 0, a: 0 });
            proof {
                assert(pixels@ =~= Seq::new((i + 1) as nat, |k: int| RawPixel { r: 0u8, g: 0u8, b: 0u8, a: 0u8 }));
            }
            i = i + 1;
        }
        Image { pixels, width, height }
    }

    /// The same image with every pixel overwritten by `color`.
    pub fn with_background(self, color: Pixel) -> (r: Image)
        ensures
            r.wf() == self.wf(),
            r.width == self.width,
            r.height == self.height,
            r.spec_pixels() == Seq::new(self.spec_pixels().len(), |i: int| raw_of_pixel(color@)),
    {
        let n = self.pixels.len();
        let raw = RawPixel::from_pixel(color);
        let mut pixels: Vec<RawPixel> = Vec::new();
        let mut i: usize = 0;
        while i < n
            invariant
                i <= n,
                pixels@.len() == i,
                raw == raw_of_pixel(color@),
                pixels@ == Seq::new(i as nat, |k: int| raw_of_pixel(color@)),
            decreases n - i,
        {
            pixels.push(raw);
            proof {
                assert(pixels@ =~= Seq::new((i + 1) as nat, |k: int| raw_of_pixel(color@)));
            }
            i = i + 1;
        }
        Image { pixels, width: self.width, height: self.height }
    }

    /// Whether a coordinate lies inside the image.
    pub fn is_valid_coord(&self, row: usize, col: usize) -> (r: bool)
        ensures
            r == (col < self.width && row < self.height),
    {
        col < self.width && row < self.height
    }

    /// The pixel at a coordinate, scaled back to full precision;
    /// nothing for a coordinate outside the image.
    pub fn get_pixel(&self, row: usize, col: usize) -> (r: Option<Pixel>)
        requires
            self.wf(),
        ensures
            match r {
                Some(p) => col < self.width && row < self.height && p@ == pixel_of_raw(
                    self.spec_pixels()[row * self.width + col],
                ),
                None => !(col < self.width && row < self.height),
            },
    {
        if !self.is_valid_coord(row, col) {
            return None;
        }
        let n = self.pixels.len();
        proof {
            lemma_index_bound(row as int, col as int, self.width as int, self.height as int);
        }
        Some(Pixel::from_raw(self.pixels[row * self.width + col]))
    }

    /// The pixel at a possibly out-of-range coordinate, reflected back
    /// inside the image across the edges it overshoots.
    pub fn get_pixel_mirrored(&self, row: Fx, col: Fx) -> (r: Pixel)
        requires
            self.wf(),
            self.width <= i64::MAX,
            self.height <= i64::MAX,
            0 <= mirror_coord(row@, self.height as int) < self.height,
            0 <= mirror_coord(col@, self.width as int) < self.width,
        ensures
            r@ == pixel_of_raw(
                self.spec_pixels()[mirror_coord(row@, self.height as int) * self.width + mirror_coord(
                    col@,
                    self.width as int,
                )],
            ),
    {
        let h = Fx::from_int(self.height as i64);
        let w = Fx::from_int(self.width as i64);
        let mut r = row.abs();
        let mut c = col.abs();
        if r.ge(h) {
            r = h.sub(r.sub(h)).sub(Fx::from_int(1));
        }
        if c.ge(w) {
            c = w.sub(c.sub(w)).sub(Fx::from_int(1));
        }
        let ri = r.abs().round_int() as usize;
        let ci = c.abs().round_int() as usize;
        let n = self.pixels.len();
        proof {
            lemma_index_bound(ri as int, ci as int, self.width as int, self.height as int);
        }
        Pixel::from_raw(self.pixels[ri * self.width + ci])
    }

    /// Every pixel scaled back to full precision, in row-major order.
    pub fn get_pixels(&self) -> (r: Vec<Pixel>)
        ensures
            r@.len() == self.spec_pixels().len(),
            forall|i: int|
                0 <= i < r@.len() ==> r@[i]@ == pixel_of_raw(self.spec_pixels()[i]),
    {
        let n = self.pixels.len();
        let mut out: Vec<Pixel> = Vec::new();
        let mut i: usize = 0;
        while i < n
            invariant
                i <= n,
                n == self.spec_pixels().len(),
                out@.len() == i,
                forall|k: int| 0 <= k < i ==> out@[k]@ == pixel_of_raw(self.spec_pixels()[k]),
            decreases n - i,
        {
            out.push(Pixel::from_raw(self.pixels[i]));
            i = i + 1;
        }
        out
    }

    /// Store a pixel, clamped and quantized to bytes, at a coordinate;
    /// a coordinate outside the image leaves the buffer unchanged.
    pub fn set_pixel(&mut self, row: usize, col: usize, pix: Pixel)
        requires
            old(self).wf(),
        ensures
            final(self).wf(),
            final(self).width == old(self).width,
            final(self).height == old(self).height,
            final(self).spec_pixels() == if col < old(self).width && row < old(self).height {
                old(self).spec_pixels().update(row * old(self).width + col, raw_of_pixel(pix@))
            } else {
                old(self).spec_pixels()
            },
    {
        if !self.is_valid_coord(row, col) {
            return ;
        }
        let n = self.pixels.len();
        proof {
            lemma_index_bound(row as int, col as int, self.width as int, self.height as int);
        }
        let idx = row * self.width + col;
        self.pixels[idx] = RawPixel::from_pixel(pix);
    }

    /// The buffer flattened to bytes, four per pixel.
    pub fn to_bytes(&self) -> (r: Vec<u8>)
        ensures
            r@ == spec_image_bytes(self.spec_pixels()),
            r@.len() == 4 * self.spec_pixels().len(),
    {
        let n = self.pixels.len();
        let mut out: Vec<u8> = Vec::new();
        let mut i: usize = 0;
        proof {
            lemma_image_bytes_len(self.spec_pixels().take(0));
        }
        while i < n
            invariant
                i <= n,
                n == self.spec_pixels().len(),
                out@ == spec_image_bytes(self.spec_pixels().take(i as int)),
                out@.len() == 4 * i,
            decreases n - i,
        {
            let p = self.pixels[i];
            out.push(p.r);
            out.push(p.g);
            out.push(p.b);
            out.push(p.a);
            proof {
                let taken = self.spec_pixels().take(i + 1);
                assert(taken.drop_last() =~= self.spec_pixels().take(i as int));
                assert(out@ =~= spec_image_bytes(taken));
            }
            i = i + 1;
        }
        proof {
            assert(self.spec_pixels().take(n as int) =~= self.spec_pixels());
        }
        out
    }

    /// The image encoded as a PNG byte stream (RGBA, eight bits per
    /// channel).
    pub fn to_png_bytes(&self) -> (r: Vec<u8>)
        requires
            self.wf(),
            0 < self.width <= u32::MAX,
            0 < self.height <= u32::MAX,
        ensures
            r@ == png_bytes_of(
                self.width as int,
                self.height as int,
                spec_image_bytes(self.spec_pixels()),
            ),
    {
        let raw_bytes = self.to_bytes();
        proof {
            vstd::arithmetic::mul::lemma_mul_is_associative(
                4int,
                self.width as int,
                self.height as int,
            );
        }
        encode_png_rgba(self.width as u32, self.height as u32, &raw_bytes)
    }
}

/// The length of the flattened byte buffer: four bytes per pixel.
proof fn lemma_image_bytes_len(pixels: Seq<RawPixel>)
    ensures
        spec_image_bytes(pixels).len() == 4 * pixels.len(),
    decreases pixels.len(),
{
    if pixels.len() > 0 {
        lemma_image_bytes_len(pixels.drop_last());
    }
}

/// A row-major index from an in-range coordinate lies inside the
/// buffer.
proof fn lemma_index_bound(row: int, col: int, w: int, h: int)
    requires
        0 <= row < h,
        0 <= col < w,
    ensures
        0 <= row * w + col < w * h,
{
    assert(0 <= row * w && row * w + col < w * h) by (nonlinear_arith)
        requires
            0 <= row < h,
            0 <= col < w,
    ;
}

} // verus!
