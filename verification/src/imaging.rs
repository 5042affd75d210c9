//! The mean color of an encoded image: the per-channel average over every
//! pixel, used to pick a text color that contrasts with a background image.
//!
//! Decoding the bytes is the outside decoder's work; averaging the decoded
//! pixels is verified here.

use vstd::arithmetic::div_mod::{lemma_div_by_multiple, lemma_div_is_ordered};
use vstd::prelude::*;

use crate::colors::Color;

verus! {

/// The RGB values, in iteration order, of the pixels of the image that the
/// bytes encode. What this sequence is for given bytes only the decoder
/// determines; it is a function of the bytes alone.
pub uninterp spec fn decoded_rgb_of(bytes: Seq<u8>) -> Seq<(u8, u8, u8)>;

/// Whether the bytes encode an image the decoder accepts; like the decoded
/// pixels, a function of the bytes alone.
pub uninterp spec fn image_decodable(bytes: Seq<u8>) -> bool;

/// Relies on `image::load_from_memory` and the decoded image's pixel
/// iterator: decoding depends on the bytes alone — it succeeds on exactly
/// the byte strings the decoder accepts — and the iterator yields each
/// pixel's RGB channels in one fixed order.
#[verifier::external_body]
fn decode_image_pixels(buffer: &[u8]) -> (r: Result<Vec<(u8, u8, u8)>, String>)
    ensures
        r is Ok <==> image_decodable(buffer@),
        r matches Ok(v) ==> v@ == decoded_rgb_of(buffer@),
{
    match image::load_from_memory(buffer) {
        Ok(img) => {
            let mut v = Vec::new();
            for (_, _, pixel) in image::GenericImageView::pixels(&img) {
                let rgb = image::Pixel::to_rgb(&pixel);
                v.push((rgb[0], rgb[1], rgb[2]));
            }
            Ok(v)
        },
        Err(e) => Err(format!("Failed to load image: {}", e)),
    }
}

/// Sum of the red channel over the pixels.
pub open spec fn spec_sum_red(pixels: Seq<(u8, u8, u8)>) -> int
    decreases pixels.len(),
{
    if pixels.len() == 0 {
        0
    } else {
        spec_sum_red(pixels.drop_last()) + pixels.last().0
    }
}

/// Sum of the green channel over the pixels.
pub open spec fn spec_sum_green(pixels: Seq<(u8, u8, u8)>) -> int
    decreases pixels.len(),
{
    if pixels.len() == 0 {
        0
    } else {
        spec_sum_green(pixels.drop_last()) + pixels.last().1
    }
}

/// Sum of the blue channel over the pixels.
pub open spec fn spec_sum_blue(pixels: Seq<(u8, u8, u8)>) -> int
    decreases pixels.len(),
{
    if pixels.len() == 0 {
        0
    } else {
        spec_sum_blue(pixels.drop_last()) + pixels.last().2
    }
}

/// The mean color of a non-empty pixel sequence: each channel's sum divided
/// by the pixel count, rounded down.
pub open spec fn spec_mean_color(pixels: Seq<(u8, u8, u8)>) -> Color {
    (
        (spec_sum_red(pixels) / pixels.len() as int) as u8,
        (spec_sum_green(pixels) / pixels.len() as int) as u8,
        (spec_sum_blue(pixels) / pixels.len() as int) as u8,
    )
}

proof fn lemma_sums_bounded(pixels: Seq<(u8, u8, u8)>)
    ensures
        0 <= spec_sum_red(pixels) <= 255 * pixels.len(),
        0 <= spec_sum_green(pixels) <= 255 * pixels.len(),
        0 <= spec_sum_blue(pixels) <= 255 * pixels.len(),
    decreases pixels.len(),
{
    if pixels.len() > 0 {
        lemma_sums_bounded(pixels.drop_last());
    }
}

proof fn lemma_sums_step(pixels: Seq<(u8, u8, u8)>, i: int)
    requires
        0 <= i < pixels.len(),
    ensures
        spec_sum_red(pixels.take(i + 1)) == spec_sum_red(pixels.take(i)) + pixels[i].0,
        spec_sum_green(pixels.take(i + 1)) == spec_sum_green(pixels.take(i)) + pixels[i].1,
        spec_sum_blue(pixels.take(i + 1)) == spec_sum_blue(pixels.take(i)) + pixels[i].2,
{
    assert(pixels.take(i + 1).drop_last() =~= pixels.take(i));
    assert(pixels.take(i + 1).last() == pixels[i]);
}

/// The channel-wise mean of a non-empty pixel sequence, rounded down.
pub fn mean_color_of_pixels(pixels: &Vec<(u8, u8, u8)>) -> (c: Color)
    requires
        pixels@.len() > 0,
    ensures
        c == spec_mean_color(pixels@),
{
    let n = pixels.len();
    let mut red_sum: u128 = 0;
    let mut green_sum: u128 = 0;
    let mut blue_sum: u128 = 0;
    let mut i: usize = 0;
    while i < n
        invariant
            i <= n,
            n == pixels@.len(),
            red_sum == spec_sum_red(pixels@.take(i as int)),
            green_sum == spec_sum_green(pixels@.take(i as int)),
            blue_sum == spec_sum_blue(pixels@.take(i as int)),
            red_sum <= 255 * i,
            green_sum <= 255 * i,
            blue_sum <= 255 * i,
        decreases n - i,
    {
        let p = pixels[i];
        proof {
            lemma_sums_step(pixels@, i as int);
        }
        red_sum = red_sum + p.0 as u128;
        green_sum = green_sum + p.1 as u128;
        blue_sum = blue_sum + p.2 as u128;
        i = i + 1;
    }
    proof {
        assert(pixels@.take(n as int) =~= pixels@);
        lemma_sums_bounded(pixels@);
        lemma_div_is_ordered(spec_sum_red(pixels@), 255 * n as int, n as int);
        lemma_div_is_ordered(spec_sum_green(pixels@), 255 * n as int, n as int);
        lemma_div_is_ordered(spec_sum_blue(pixels@), 255 * n as int, n as int);
        lemma_div_by_multiple(255, n as int);
    }
    let len = n as u128;
    ((red_sum / len) as u8, (green_sum / len) as u8, (blue_sum / len) as u8)
}

/// The mean color of the image the bytes encode, channel by channel, rounded
/// down. Succeeds on exactly the decodable images with at least one pixel; a
/// decoding failure surfaces as the decoder's message, and an image with no
/// pixels has no mean and is reported as well.
pub fn calc_mean_image(buffer: &[u8]) -> (r: Result<Color, String>)
    ensures
        r is Ok <==> image_decodable(buffer@) && decoded_rgb_of(buffer@).len() > 0,
        r matches Ok(c) ==> c == spec_mean_color(decoded_rgb_of(buffer@)),
{
    match decode_image_pixels(buffer) {
        Ok(pixels) => {
            if pixels.len() == 0 {
                Err(String::from_str("Failed to load image: no pixels"))
            } else {
                Ok(mean_color_of_pixels(&pixels))
            }
        },
        Err(e) => Err(e),
    }
}

} // verus!
