use image::{ImageOutputFormat, Rgb, RgbImage};
use std::io::Cursor;

use render_pool::imaging::{calc_mean_image, mean_color_of_pixels};

fn png_bytes(pixels: &[(u8, u8, u8)], width: u32, height: u32) -> Vec<u8> {
    assert_eq!(pixels.len() as u32, width * height);
    let mut img = RgbImage::new(width, height);
    for (i, p) in pixels.iter().enumerate() {
        let x = (i as u32) % width;
        let y = (i as u32) / width;
        img.put_pixel(x, y, Rgb([p.0, p.1, p.2]));
    }
    let mut buf = Cursor::new(Vec::new());
    img.write_to(&mut buf, ImageOutputFormat::Png).unwrap();
    buf.into_inner()
}

#[test]
fn mean_of_uniform_image_is_its_color() {
    let bytes = png_bytes(&[(10, 200, 30); 6], 3, 2);
    assert_eq!(calc_mean_image(&bytes), Ok((10, 200, 30)));
}

#[test]
fn mean_of_mixed_image_rounds_down() {
    let pixels = [(0, 0, 255), (10, 1, 255), (0, 2, 254), (1, 4, 252)];
    let bytes = png_bytes(&pixels, 2, 2);
    // Sums 11, 7, 1016 over four pixels: means 2, 1, 254.
    assert_eq!(calc_mean_image(&bytes), Ok((2, 1, 254)));
}

#[test]
fn mean_of_pixels_exact() {
    let pixels = vec![(255, 0, 9), (0, 3, 9), (4, 255, 10)];
    assert_eq!(mean_color_of_pixels(&pixels), (86, 86, 9));
}

#[test]
fn undecodable_bytes_report_the_decoder_failure() {
    let err = calc_mean_image(&[1, 2, 3, 4]).unwrap_err();
    assert!(err.starts_with("Failed to load image"), "got: {}", err);
}
