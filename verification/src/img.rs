use vstd::prelude::*;
use vstd::arithmetic::mul::{lemma_mul_inequality, lemma_mul_upper_bound};

use crate::config::{FilterKind, ImageOp};
use crate::grid::{
    average_bits, difference_bits, spec_average_bits, spec_difference_bits,
};

verus! {

#[verifier::external_type_specification]
#[verifier::external_body]
pub struct ExDynamicImage(image::DynamicImage);

/// The normalized grid of a source image: the row-major `width x height`
/// sequence of 8-bit luminance samples that the `image` crate produces when
/// the image is converted to grayscale and then resampled to exactly
/// `width x height` with the given kernel. Both steps are deterministic
/// functions of the image's pixel data and the parameters, so the grid is a
/// function of the arguments alone; nothing else is assumed of its values.
pub uninterp spec fn luma_grid(img: image::DynamicImage, width: u8, height: u8, filter: FilterKind) -> Seq<u8>;

/// Relies on `image::DynamicImage::grayscale`, `DynamicImage::resize_exact`
/// and `DynamicImage::into_luma8`: grayscale conversion followed by
/// deterministic resampling to exactly `width x height`, handed out as a
/// buffer of one 8-bit luminance sample per pixel, row-major.
#[verifier::external_body]
fn preprocess(img: &image::DynamicImage, width: u8, height: u8, filter: FilterKind) -> (r: Vec<
    u8,
>)
    ensures
        r@ == luma_grid(*img, width, height, filter),
        r@.len() == width as int * height as int,
{
    let f = match filter {
        FilterKind::Nearest => image::imageops::FilterType::Nearest,
        FilterKind::Triangle => image::imageops::FilterType::Triangle,
        FilterKind::CatmullRom => image::imageops::FilterType::CatmullRom,
        FilterKind::Gaussian => image::imageops::FilterType::Gaussian,
        FilterKind::Lanczos3 => image::imageops::FilterType::Lanczos3,
    };
    img.grayscale().resize_exact(width as u32, height as u32, f).into_luma8().into_raw()
}

/// Calculates the average-hash bits of the image: the image is normalized
/// to the configured grid, and each sample yields one bit, true exactly
/// when it is strictly brighter than the grid's mean luminance.
pub fn average_hash(img: &image::DynamicImage, op: &ImageOp) -> (r: Vec<bool>)
    requires
        op.valid(),
    ensures
        r@ == spec_average_bits(luma_grid(*img, op.width, op.height, op.filter)),
        r@.len() == op.width as int * op.height as int,
{
    let pixels = preprocess(img, op.width, op.height, op.filter);
    proof {
        lemma_mul_inequality(1, op.width as int, op.height as int);
        lemma_mul_upper_bound(op.width as int, 255, op.height as int, 255);
    }
    average_bits(&pixels)
}

/// Calculates the difference-hash bits of the image: the image is
/// normalized to the configured grid, and each pair of horizontal
/// neighbours yields one bit, true exactly when the right sample is
/// strictly brighter than the left one.
pub fn difference_hash(img: &image::DynamicImage, op: &ImageOp) -> (r: Vec<bool>)
    requires
        op.valid(),
    ensures
        r@ == spec_difference_bits(
            luma_grid(*img, op.width, op.height, op.filter),
            op.width as int,
            op.height as int,
        ),
        r@.len() == (op.width as int - 1) * op.height as int,
{
    let pixels = preprocess(img, op.width, op.height, op.filter);
    difference_bits(&pixels, op.width, op.height)
}

/// Hashing is deterministic: two average-hash computations on the same
/// image under the same configuration yield the same bit vector.
pub proof fn lemma_average_hash_deterministic(
    img: image::DynamicImage,
    op: ImageOp,
    b1: Seq<bool>,
    b2: Seq<bool>,
)
    requires
        b1 == spec_average_bits(luma_grid(img, op.width, op.height, op.filter)),
        b2 == spec_average_bits(luma_grid(img, op.width, op.height, op.filter)),
    ensures
        b1 == b2,
{
}

/// Hashing is deterministic: two difference-hash computations on the same
/// image under the same configuration yield the same bit vector.
pub proof fn lemma_difference_hash_deterministic(
    img: image::DynamicImage,
    op: ImageOp,
    b1: Seq<bool>,
    b2: Seq<bool>,
)
    requires
        b1 == spec_difference_bits(
            luma_grid(img, op.width, op.height, op.filter),
            op.width as int,
            op.height as int,
        ),
        b2 == spec_difference_bits(
            luma_grid(img, op.width, op.height, op.filter),
            op.width as int,
            op.height as int,
        ),
    ensures
        b1 == b2,
{
}

} // verus!
