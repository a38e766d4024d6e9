//! The image buffer: coordinates, storage, byte layout, and the PNG
//! encoding round-tripped through the png crate's decoder.

use raytracer::fixed::Fx;
use raytracer::image::Image;
use raytracer::pixel::{Pixel, RawPixel};

fn fx(raw: i64) -> Fx {
    Fx::from_raw(raw)
}

#[test]
fn new_image_is_black_and_sized() {
    let img = Image::new(3, 2);
    assert_eq!(img.width, 3);
    assert_eq!(img.height, 2);
    assert_eq!(img.pixels.len(), 6);
    assert_eq!(img.to_bytes(), vec![0u8; 24]);
}

#[test]
fn is_valid_coord() {
    let img = Image::new(3, 2);
    assert!(img.is_valid_coord(0, 0));
    assert!(img.is_valid_coord(1, 2));
    assert!(!img.is_valid_coord(2, 0));
    assert!(!img.is_valid_coord(0, 3));
}

#[test]
fn with_background_fills_every_pixel() {
    let color = Pixel::from_rgb(fx(1_000_000), fx(0), fx(200_000));
    let img = Image::new(2, 2).with_background(color);
    for p in &img.pixels {
        assert_eq!(*p, RawPixel { r: 255, g: 0, b: 51, a: 255 });
    }
}

#[test]
fn set_and_get_pixel() {
    let mut img = Image::new(3, 3);
    let red = Pixel::from_rgb(fx(1_000_000), fx(0), fx(0));
    img.set_pixel(1, 2, red);
    assert_eq!(img.pixels[1 * 3 + 2], RawPixel { r: 255, g: 0, b: 0, a: 255 });
    let got = img.get_pixel(1, 2).unwrap();
    assert_eq!(got.r, fx(1_000_000));
    assert_eq!(got.g, fx(0));
    assert!(img.get_pixel(3, 0).is_none());
    // An out-of-range store leaves the buffer unchanged.
    img.set_pixel(9, 9, red);
    assert_eq!(img.pixels[0], RawPixel { r: 0, g: 0, b: 0, a: 0 });
}

#[test]
fn get_pixels_converts_all() {
    let color = Pixel::from_rgb(fx(0), fx(1_000_000), fx(0));
    let img = Image::new(2, 1).with_background(color);
    let all = img.get_pixels();
    assert_eq!(all.len(), 2);
    assert_eq!(all[0].g, fx(1_000_000));
}

#[test]
fn get_pixel_mirrored_reflects_edges() {
    let mut img = Image::new(3, 3);
    let red = Pixel::from_rgb(fx(1_000_000), fx(0), fx(0));
    img.set_pixel(2, 1, red);
    // A negative column mirrors through zero; a row past the far edge
    // reflects back off it: row 3.2 lands on 3 - 0.2 - 1 = 1.8,
    // rounded to 2; column -1 lands on 1.
    let got = img.get_pixel_mirrored(fx(3_200_000), fx(-1_000_000));
    assert_eq!(got.r, fx(1_000_000));
}

#[test]
fn to_bytes_is_row_major_rgba() {
    let mut img = Image::new(2, 1);
    img.set_pixel(0, 1, Pixel::from_rgb(fx(1_000_000), fx(0), fx(200_000)));
    assert_eq!(img.to_bytes(), vec![0, 0, 0, 0, 255, 0, 51, 255]);
}

#[test]
fn png_bytes_decode_back_to_the_buffer() {
    let mut img = Image::new(2, 2).with_background(Pixel::from_rgb(fx(0), fx(500_000), fx(0)));
    img.set_pixel(0, 0, Pixel::from_rgb(fx(1_000_000), fx(0), fx(0)));
    let png_bytes = img.to_png_bytes();
    // PNG signature.
    assert_eq!(&png_bytes[0..8], &[137u8, 80, 78, 71, 13, 10, 26, 10]);
    let decoder = png::Decoder::new(std::io::Cursor::new(&png_bytes));
    let mut reader = decoder.read_info().unwrap();
    let mut buf = vec![0u8; reader.output_buffer_size().unwrap()];
    let info = reader.next_frame(&mut buf).unwrap();
    assert_eq!(info.width, 2);
    assert_eq!(info.height, 2);
    assert_eq!(&buf[..info.buffer_size()], img.to_bytes().as_slice());
}
