use headesk::window::{icon_rgba, ICON_SIZE};
use image::{DynamicImage, ImageOutputFormat, RgbImage, RgbaImage};

fn png_of(img: DynamicImage) -> Vec<u8> {
    let mut out: Vec<u8> = Vec::new();
    img.write_to(&mut out, ImageOutputFormat::Png).unwrap();
    out
}

fn pattern(width: u32, height: u32) -> RgbaImage {
    RgbaImage::from_fn(width, height, |x, y| {
        image::Rgba([x as u8, y as u8, (x + y) as u8, 255 - x as u8])
    })
}

#[test]
fn icon_of_the_right_size_decodes_to_its_pixels() {
    let img = pattern(ICON_SIZE, ICON_SIZE);
    let expected = img.as_raw().clone();
    let png = png_of(DynamicImage::ImageRgba8(img));
    let pixels = icon_rgba(&png).unwrap();
    assert_eq!(pixels.len(), 48 * 48 * 4);
    assert_eq!(pixels, expected);
    assert_ne!(pixels, png);
    // pixel (1, 2) is at offset 4 * (2 * 48 + 1)
    assert_eq!(&pixels[388..392], &[1, 2, 3, 254]);
}

#[test]
fn icon_of_another_size_is_refused() {
    let png = png_of(DynamicImage::ImageRgba8(pattern(16, 16)));
    assert_eq!(icon_rgba(&png), None);
}

#[test]
fn icon_without_alpha_is_refused() {
    let png = png_of(DynamicImage::ImageRgb8(RgbImage::new(48, 48)));
    assert_eq!(icon_rgba(&png), None);
}

#[test]
fn bytes_that_are_no_image_are_refused() {
    assert_eq!(icon_rgba(&[1, 2, 3, 4, 5]), None);
    assert_eq!(icon_rgba(&[]), None);
}
