// Tests that drive the full pipeline through the `image` crate: synthetic
// images are built in memory, normalized, hashed, and compared against
// exact expected values. Resampling an image to its own size is an exact
// copy, so same-size inputs give full control over the normalized grid.

use imagehash::{
    average_hash, difference_hash, AverageHash, DifferenceHash, FilterKind, ImageOp,
};

fn gray_image(width: u32, height: u32, pixels: Vec<u8>) -> image::DynamicImage {
    image::DynamicImage::ImageLuma8(image::GrayImage::from_raw(width, height, pixels).unwrap())
}

fn rgb_image(width: u32, height: u32, pixels: Vec<u8>) -> image::DynamicImage {
    image::DynamicImage::ImageRgb8(image::RgbImage::from_raw(width, height, pixels).unwrap())
}

fn hamming(a: &[bool], b: &[bool]) -> usize {
    assert_eq!(a.len(), b.len());
    a.iter().zip(b.iter()).filter(|(x, y)| x != y).count()
}

fn checkerboard_8x8() -> image::DynamicImage {
    // 2x2 blocks alternating 255 and 0, starting bright in the corner.
    let mut pixels = Vec::new();
    for y in 0..8u32 {
        for x in 0..8u32 {
            pixels.push(if (x / 2 + y / 2) % 2 == 0 { 255 } else { 0 });
        }
    }
    gray_image(8, 8, pixels)
}

fn ramp_9x8() -> image::DynamicImage {
    // Each column strictly brighter than the one to its left.
    let mut pixels = Vec::new();
    for _y in 0..8u32 {
        for x in 0..9u32 {
            pixels.push((x * 10) as u8);
        }
    }
    gray_image(9, 8, pixels)
}

#[test]
fn average_hash_deterministic() {
    let img = checkerboard_8x8();
    let hasher = AverageHash::default();
    assert_eq!(hasher.hash(&img), hasher.hash(&img));
    let op = ImageOp::new(8, 8, FilterKind::Lanczos3).unwrap();
    assert_eq!(average_hash(&img, &op), average_hash(&img, &op));
}

#[test]
fn difference_hash_deterministic() {
    let img = ramp_9x8();
    let hasher = DifferenceHash::default();
    assert_eq!(hasher.hash(&img), hasher.hash(&img));
    let op = ImageOp::new(9, 8, FilterKind::Lanczos3).unwrap();
    assert_eq!(difference_hash(&img, &op), difference_hash(&img, &op));
}

#[test]
fn bit_vector_lengths() {
    // A non-square source resampled to a 5x7 grid.
    let img = gray_image(20, 10, (0..200u32).map(|v| (v % 256) as u8).collect());
    let op = ImageOp::new(5, 7, FilterKind::Nearest).unwrap();
    assert_eq!(average_hash(&img, &op).len(), 5 * 7);
    assert_eq!(difference_hash(&img, &op).len(), 4 * 7);
    let op = ImageOp::new(1, 7, FilterKind::Triangle).unwrap();
    assert_eq!(difference_hash(&img, &op).len(), 0);
}

#[test]
fn uniform_image_hashes_to_all_zero() {
    // A perfectly uniform gray image: no sample exceeds the mean and no
    // sample is brighter than its neighbour, under either algorithm.
    let img = gray_image(8, 8, vec![100; 64]);
    let avg = AverageHash::default();
    assert_eq!(avg.hash(&img), "0000000000000000");
    let img = gray_image(9, 8, vec![100; 72]);
    let diff = DifferenceHash::default();
    assert_eq!(diff.hash(&img), "0000000000000000");
    // The same holds when a larger uniform image is resampled first.
    let img = gray_image(50, 30, vec![77; 1500]);
    let op = ImageOp::new(8, 8, FilterKind::Nearest).unwrap();
    assert_eq!(average_hash(&img, &op), vec![false; 64]);
}

#[test]
fn uniform_rgb_image_hashes_to_all_zero() {
    // Grayscale conversion of a uniform color image is uniform, whatever
    // the luma weighting.
    let img = rgb_image(8, 8, vec![100; 64 * 3]);
    let avg = AverageHash::default();
    assert_eq!(avg.hash(&img), "0000000000000000");
}

#[test]
fn ramp_image_difference_hash_all_ones() {
    let img = ramp_9x8();
    let diff = DifferenceHash::default();
    assert_eq!(diff.hash(&img), "ffffffffffffffff");
    let op = ImageOp::new(9, 8, FilterKind::Lanczos3).unwrap();
    assert_eq!(difference_hash(&img, &op), vec![true; 64]);
}

#[test]
fn checkerboard_average_hash() {
    // Mean is 127, the bright half is strictly above it: exactly half the
    // bits are set, and 64 bits make 16 hex characters.
    let img = checkerboard_8x8();
    let hasher = AverageHash::default();
    let hex = hasher.hash(&img);
    assert_eq!(hex.len(), 16);
    assert_eq!(hex, "cccc3333cccc3333");
    let op = ImageOp::new(8, 8, FilterKind::Lanczos3).unwrap();
    let bits = average_hash(&img, &op);
    assert_eq!(bits.iter().filter(|&&b| b).count(), 32);
    assert_eq!(bits.iter().filter(|&&b| !b).count(), 32);
}

#[test]
fn resampling_feeds_the_hash() {
    // Nearest-neighbour downsampling of a 4x4 gradient to 2x2 keeps the
    // samples at odd rows and columns: [50, 70, 130, 150], mean 100.
    let pixels: Vec<u8> = (0..16u32).map(|v| (v * 10) as u8).collect();
    let img = gray_image(4, 4, pixels);
    let op = ImageOp::new(2, 2, FilterKind::Nearest).unwrap();
    assert_eq!(average_hash(&img, &op), vec![false, false, true, true]);
    let hasher = AverageHash::with_op(&op);
    assert_eq!(hasher.hash(&img), "30");
}

#[test]
fn near_duplicates_and_noise() {
    // The same pixel data hashes to distance 0; a one-sample perturbation
    // moves the difference hash by a small nonzero distance.
    let mut base = Vec::new();
    for _y in 0..8u32 {
        base.extend_from_slice(&[10, 10, 20, 20, 30, 30, 40, 40, 50]);
    }
    let img_a = gray_image(9, 8, base.clone());
    let img_b = gray_image(9, 8, base.clone());
    let op = ImageOp::new(9, 8, FilterKind::Nearest).unwrap();
    let bits_a = difference_hash(&img_a, &op);
    let bits_b = difference_hash(&img_b, &op);
    assert_eq!(hamming(&bits_a, &bits_b), 0);
    // Brighten the second sample of the first row: its pair (10, 10)
    // becomes (10, 11), flipping exactly that comparison.
    let mut noisy = base.clone();
    noisy[1] = 11;
    let img_c = gray_image(9, 8, noisy);
    let bits_c = difference_hash(&img_c, &op);
    let d = hamming(&bits_a, &bits_c);
    assert!(d > 0);
    assert!(d <= 2);
}

#[test]
fn facade_matches_free_functions() {
    let img = checkerboard_8x8();
    let op = ImageOp::new(8, 8, FilterKind::Lanczos3).unwrap();
    let bits = average_hash(&img, &op);
    let bytes = imagehash::bits_to_bytes(&bits);
    let hex = imagehash::bytes_to_hex(&bytes);
    let hasher = AverageHash::with_op(&op);
    assert_eq!(hasher.hash(&img), hex);
}

#[test]
fn new_uses_default_configuration() {
    let img = ramp_9x8();
    assert_eq!(DifferenceHash::new().hash(&img), DifferenceHash::default().hash(&img));
    let img = checkerboard_8x8();
    assert_eq!(AverageHash::new().hash(&img), AverageHash::default().hash(&img));
}
