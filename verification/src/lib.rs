//! Perceptual image hashing: compact fingerprints of raster images such that
//! visually similar images yield hashes with small Hamming distance.
//!
//! The pipeline is: normalize the image to a small grayscale grid, derive one
//! bit per feature (average hash: brighter than the mean; difference hash:
//! brighter than the left neighbour), pack the bits MSB-first into bytes, and
//! render the bytes as a lowercase hex string.

mod config;
mod grid;
mod hasher;
mod hex;
mod img;
mod pack;

pub use config::FilterKind;
pub use config::ImageOp;
pub use grid::average_bits;
pub use grid::difference_bits;
pub use grid::lemma_ramp_difference_bits;
pub use grid::lemma_uniform_average_bits;
pub use grid::lemma_uniform_difference_bits;
pub use grid::spec_average_bits;
pub use grid::spec_diff_len;
pub use grid::spec_difference_bits;
pub use grid::spec_mean;
pub use grid::spec_sum;
pub use hasher::AverageHash;
pub use hasher::DifferenceHash;
pub use hasher::spec_average_hex;
pub use hasher::spec_default_average_op;
pub use hasher::spec_default_difference_op;
pub use hasher::spec_difference_hex;
pub use hex::bytes_to_hex;
pub use hex::lemma_hex_chars;
pub use hex::spec_hex;
pub use hex::spec_hex_digit;
pub use hex::spec_is_hex_char;
pub use img::average_hash;
pub use img::difference_hash;
pub use img::lemma_average_hash_deterministic;
pub use img::lemma_difference_hash_deterministic;
pub use img::luma_grid;
pub use pack::bits_to_bytes;
pub use pack::lemma_pack_trailing_zeros;
pub use pack::spec_bit;
pub use pack::spec_byte_val;
pub use pack::spec_pack;
