//! The resampling step, over the image codec's in-memory type.
//!
//! Decoding a file into a `DynamicImage` and persisting one are the
//! caller's business; the value itself passes through here opaquely. What
//! this module settles is the resample: the output of a resize has exactly
//! the requested dimensions.

use vstd::prelude::*;

verus! {

/// The codec's in-memory image, carried through opaquely.
#[verifier::external_type_specification]
#[verifier::external_body]
pub struct ExDynamicImage(image::DynamicImage);

/// The width in pixels of an image value.
pub uninterp spec fn image_width(img: image::DynamicImage) -> u32;

/// The height in pixels of an image value.
pub uninterp spec fn image_height(img: image::DynamicImage) -> u32;

/// Relies on image::DynamicImage::width, which reads the pixel buffer's
/// width: a function of the image value alone.
pub assume_specification[ image::DynamicImage::width ](img: &image::DynamicImage) -> (r: u32)
    ensures
        r == image_width(*img),
;

/// Relies on image::DynamicImage::height, which reads the pixel buffer's
/// height: a function of the image value alone.
pub assume_specification[ image::DynamicImage::height ](img: &image::DynamicImage) -> (r: u32)
    ensures
        r == image_height(*img),
;

/// Relies on image::DynamicImage::resize_exact with the Lanczos3 filter:
/// it resamples to a fresh buffer of exactly the given dimensions, not
/// keeping aspect ratio. The output buffer and the intermediate one (source
/// width by target height, 16 bytes per pixel) must fit a `usize` byte
/// count, or allocating them would panic.
#[verifier::external_body]
fn resize_exact_lanczos(img: &image::DynamicImage, width: u32, height: u32) -> (r:
    image::DynamicImage)
    requires
        1 <= width,
        1 <= height,
        (width as nat) * (height as nat) * 16 <= usize::MAX as nat,
        (image_width(*img) as nat) * (height as nat) * 16 <= usize::MAX as nat,
    ensures
        image_width(r) == width,
        image_height(r) == height,
{
    img.resize_exact(width, height, image::imageops::FilterType::Lanczos3)
}

/// Resamples `img` to exactly `width` by `height` with a high-quality
/// (Lanczos-class) filter, discarding aspect ratio. Yields nothing exactly
/// when a dimension is zero or the output buffer could not fit in memory;
/// such dimensions are rejected at configuration time, so a planned resize
/// of reasonable size always yields an image.
pub fn resize_to(img: &image::DynamicImage, width: u32, height: u32) -> (r: Option<
    image::DynamicImage,
>)
    ensures
        r is Some <==> (1 <= width && 1 <= height && (width as nat) * (height as nat) * 16
            <= usize::MAX as nat && (image_width(*img) as nat) * (height as nat) * 16
            <= usize::MAX as nat),
        r matches Some(out) ==> image_width(out) == width && image_height(out) == height,
{
    if width == 0 || height == 0 {
        return None;
    }
    let source_width = img.width();
    proof {
        assert((width as nat) * (height as nat) <= 0xffff_ffff * 0xffff_ffff) by (nonlinear_arith)
            requires
                width <= 0xffff_ffffu32,
                height <= 0xffff_ffffu32,
        ;
        assert((source_width as nat) * (height as nat) <= 0xffff_ffff * 0xffff_ffff)
            by (nonlinear_arith)
            requires
                source_width <= 0xffff_ffffu32,
                height <= 0xffff_ffffu32,
        ;
    }
    let pixels: u64 = (width as u64) * (height as u64);
    let tmp_pixels: u64 = (source_width as u64) * (height as u64);
    let limit: u64 = (usize::MAX as u64) / 16;
    if pixels <= limit && tmp_pixels <= limit {
        proof {
            vstd::arithmetic::div_mod::lemma_fundamental_div_mod(usize::MAX as int, 16);
        }
        Some(resize_exact_lanczos(img, width, height))
    } else {
        None
    }
}

} // verus!
