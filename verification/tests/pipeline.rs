// Tests for the pure pipeline stages: bit derivation over a pixel grid,
// bit packing, and hex encoding.

use imagehash::{average_bits, bits_to_bytes, bytes_to_hex, difference_bits, FilterKind, ImageOp};

#[test]
fn pack_simple_three_bits() {
    let bits = vec![true, false, true];
    let bytes = bits_to_bytes(&bits);
    assert_eq!(bytes, vec![0xa0]);
}

#[test]
fn pack_empty() {
    let bits: Vec<bool> = vec![];
    let bytes = bits_to_bytes(&bits);
    assert!(bytes.is_empty());
}

#[test]
fn pack_msb_first_full_byte() {
    let bits = vec![true, false, false, false, false, false, false, true];
    let bytes = bits_to_bytes(&bits);
    assert_eq!(bytes, vec![0x81]);
}

#[test]
fn pack_ceil_length() {
    for n in 0..25usize {
        let bits = vec![false; n];
        let bytes = bits_to_bytes(&bits);
        assert_eq!(bytes.len(), (n + 7) / 8);
    }
}

#[test]
fn pack_two_bytes() {
    let mut bits = vec![true; 8];
    bits.push(true);
    let bytes = bits_to_bytes(&bits);
    assert_eq!(bytes, vec![0xff, 0x80]);
}

#[test]
fn pack_padding_bits_are_zero() {
    // Three set bits leave five unused low-order positions in the byte.
    let bits = vec![true, true, true];
    let bytes = bits_to_bytes(&bits);
    assert_eq!(bytes, vec![0xe0]);
    assert_eq!(bytes[0] & 0x1f, 0);
    // Eleven set bits leave five unused positions in the second byte.
    let bits = vec![true; 11];
    let bytes = bits_to_bytes(&bits);
    assert_eq!(bytes, vec![0xff, 0xe0]);
    assert_eq!(bytes[1] & 0x1f, 0);
}

#[test]
fn hex_simple() {
    let bytes = vec![0x00, 0xff, 0x1a];
    let s = bytes_to_hex(&bytes);
    assert_eq!(s, "00ff1a");
}

#[test]
fn hex_empty() {
    let bytes: Vec<u8> = vec![];
    assert_eq!(bytes_to_hex(&bytes), "");
}

#[test]
fn hex_length_and_charset() {
    let bytes: Vec<u8> = (0..=255u8).collect();
    let s = bytes_to_hex(&bytes);
    assert_eq!(s.len(), 2 * bytes.len());
    assert!(s.chars().all(|c| c.is_ascii_hexdigit() && !c.is_ascii_uppercase()));
}

#[test]
fn hex_leading_zero_per_byte() {
    let bytes = vec![0x01, 0x0a];
    assert_eq!(bytes_to_hex(&bytes), "010a");
}

#[test]
fn average_bits_strict_threshold() {
    // Mean of [0, 255] is 127: only the bright sample exceeds it strictly.
    let pixels = vec![0, 255];
    assert_eq!(average_bits(&pixels), vec![false, true]);
    // A sample exactly equal to the mean yields false.
    let pixels = vec![5, 5, 5, 5];
    assert_eq!(average_bits(&pixels), vec![false; 4]);
}

#[test]
fn average_bits_floor_mean() {
    // Sum 256 over 3 samples: mean floor(256 / 3) = 85.
    let pixels = vec![0, 86, 170];
    assert_eq!(average_bits(&pixels), vec![false, true, true]);
}

#[test]
fn difference_bits_rows() {
    // 3x2 grid: the first row rises, the second row falls.
    let pixels = vec![1, 2, 3, 3, 2, 1];
    let bits = difference_bits(&pixels, 3, 2);
    assert_eq!(bits, vec![true, true, false, false]);
}

#[test]
fn difference_bits_width_one_is_empty() {
    let pixels = vec![42, 42, 42];
    let bits = difference_bits(&pixels, 1, 3);
    assert!(bits.is_empty());
}

#[test]
fn difference_bits_no_cross_row_comparison() {
    // 2x2 grid: the last sample of row 0 is never compared with the first
    // sample of row 1.
    let pixels = vec![0, 10, 200, 201];
    let bits = difference_bits(&pixels, 2, 2);
    assert_eq!(bits, vec![true, true]);
}

#[test]
fn imageop_rejects_zero_dimensions() {
    assert!(ImageOp::new(0, 8, FilterKind::Lanczos3).is_none());
    assert!(ImageOp::new(8, 0, FilterKind::Nearest).is_none());
    assert!(ImageOp::new(0, 0, FilterKind::Triangle).is_none());
}

#[test]
fn imageop_accepts_valid_dimensions() {
    let op = ImageOp::new(9, 8, FilterKind::Lanczos3).unwrap();
    assert_eq!(op.width, 9);
    assert_eq!(op.height, 8);
    assert!(op.filter == FilterKind::Lanczos3);
}
