use vstd::prelude::*;
use vstd::arithmetic::div_mod::{
    lemma_fundamental_div_mod, lemma_fundamental_div_mod_converse, lemma_mod_multiples_basic,
};
use vstd::arithmetic::power2::{lemma2_to64, pow2};

verus! {

/// The contribution of position `i` to its byte: 1 when the bit exists and
/// is set, 0 otherwise (positions past the end of the vector count as 0).
pub open spec fn spec_bit(bits: Seq<bool>, i: int) -> int {
    if 0 <= i < bits.len() && bits[i] {
        1
    } else {
        0
    }
}

/// The value of byte `j` of the packed form: the eight bits starting at
/// position `8 * j`, most significant first; absent trailing bits are 0.
pub open spec fn spec_byte_val(bits: Seq<bool>, j: int) -> int {
    128 * spec_bit(bits, 8 * j) + 64 * spec_bit(bits, 8 * j + 1) + 32 * spec_bit(
        bits,
        8 * j + 2,
    ) + 16 * spec_bit(bits, 8 * j + 3) + 8 * spec_bit(bits, 8 * j + 4) + 4 * spec_bit(
        bits,
        8 * j + 5,
    ) + 2 * spec_bit(bits, 8 * j + 6) + spec_bit(bits, 8 * j + 7)
}

/// The packed form of a bit vector: `ceil(len / 8)` bytes, each holding
/// eight consecutive bits MSB-first, the last one zero-padded.
pub open spec fn spec_pack(bits: Seq<bool>) -> Seq<u8> {
    Seq::new(((bits.len() + 7) / 8) as nat, |j: int| spec_byte_val(bits, j) as u8)
}

/// `len / 8 + (1 if len % 8 != 0 else 0)` is the ceiling of `len / 8`.
proof fn lemma_ceil_div8(n: int)
    requires
        n >= 0,
    ensures
        n / 8 + (if n % 8 != 0 {
            1int
        } else {
            0int
        }) == (n + 7) / 8,
{
    let q = n / 8;
    let r = n % 8;
    lemma_fundamental_div_mod(n, 8);
    if r == 0 {
        lemma_fundamental_div_mod_converse(n + 7, 8, q, 7);
    } else {
        lemma_fundamental_div_mod_converse(n + 7, 8, q + 1, r - 1);
    }
}

/// One packed byte: the eight bits starting at `8 * j`, MSB-first.
fn pack_byte(bits: &Vec<bool>, j: usize) -> (b: u8)
    requires
        8 * j < bits@.len(),
    ensures
        b as int == spec_byte_val(bits@, j as int),
{
    let n = bits.len();
    let base = 8 * j;
    let mut k = base;
    let mut b: u8 = 0;
    if bits[k] {
        b = b + 128;
    }
    k = k + 1;
    if k < n {
        if bits[k] {
            b = b + 64;
        }
        k = k + 1;
    }
    if k < n {
        if bits[k] {
            b = b + 32;
        }
        k = k + 1;
    }
    if k < n {
        if bits[k] {
            b = b + 16;
        }
        k = k + 1;
    }
    if k < n {
        if bits[k] {
            b = b + 8;
        }
        k = k + 1;
    }
    if k < n {
        if bits[k] {
            b = b + 4;
        }
        k = k + 1;
    }
    if k < n {
        if bits[k] {
            b = b + 2;
        }
        k = k + 1;
    }
    if k < n {
        if bits[k] {
            b = b + 1;
        }
    }
    b
}

/// Packs an ordered bit vector into bytes, MSB-first within each byte,
/// zero-padding the final byte; the empty vector packs to no bytes.
pub fn bits_to_bytes(bits: &Vec<bool>) -> (r: Vec<u8>)
    ensures
        r@ == spec_pack(bits@),
        r@.len() == (bits@.len() + 7) / 8,
{
    let n = bits.len();
    let nbytes = n / 8 + if n % 8 != 0 {
        1
    } else {
        0
    };
    proof {
        lemma_ceil_div8(n as int);
    }
    let mut bytes: Vec<u8> = Vec::new();
    let mut j: usize = 0;
    while j < nbytes
        invariant
            j <= nbytes,
            n == bits@.len(),
            nbytes == (bits@.len() + 7) / 8,
            bytes@.len() == j,
            forall|jj: int| 0 <= jj < j ==> bytes@[jj] == spec_byte_val(bits@, jj) as u8,
        decreases nbytes - j,
    {
        proof {
            lemma_fundamental_div_mod(n as int, 8);
        }
        let b = pack_byte(bits, j);
        bytes.push(b);
        j = j + 1;
    }
    proof {
        assert(bytes@ =~= spec_pack(bits@));
    }
    bytes
}

/// The unused low-order positions of the final packed byte are always 0:
/// when the bit count leaves `r = len % 8` bits in the last byte, that byte
/// is a multiple of `2^(8 - r)`.
pub proof fn lemma_pack_trailing_zeros(bits: Seq<bool>)
    requires
        bits.len() % 8 != 0,
    ensures
        spec_pack(bits).len() >= 1,
        spec_pack(bits).last() as int % (pow2((8 - bits.len() % 8) as nat) as int) == 0,
{
    let n = bits.len() as int;
    let q = n / 8;
    let r = n % 8;
    lemma_fundamental_div_mod(n, 8);
    lemma_fundamental_div_mod_converse(n + 7, 8, q + 1, r - 1);
    lemma2_to64();
    let v = spec_byte_val(bits, q);
    assert(spec_pack(bits).last() as int == v);
    let b0 = spec_bit(bits, 8 * q);
    let b1 = spec_bit(bits, 8 * q + 1);
    let b2 = spec_bit(bits, 8 * q + 2);
    let b3 = spec_bit(bits, 8 * q + 3);
    let b4 = spec_bit(bits, 8 * q + 4);
    let b5 = spec_bit(bits, 8 * q + 5);
    let b6 = spec_bit(bits, 8 * q + 6);
    if r == 1 {
        assert(v == b0 * 128);
        lemma_mod_multiples_basic(b0, 128);
    } else if r == 2 {
        assert(v == (2 * b0 + b1) * 64);
        lemma_mod_multiples_basic(2 * b0 + b1, 64);
    } else if r == 3 {
        assert(v == (4 * b0 + 2 * b1 + b2) * 32);
        lemma_mod_multiples_basic(4 * b0 + 2 * b1 + b2, 32);
    } else if r == 4 {
        assert(v == (8 * b0 + 4 * b1 + 2 * b2 + b3) * 16);
        lemma_mod_multiples_basic(8 * b0 + 4 * b1 + 2 * b2 + b3, 16);
    } else if r == 5 {
        assert(v == (16 * b0 + 8 * b1 + 4 * b2 + 2 * b3 + b4) * 8);
        lemma_mod_multiples_basic(16 * b0 + 8 * b1 + 4 * b2 + 2 * b3 + b4, 8);
    } else if r == 6 {
        assert(v == (32 * b0 + 16 * b1 + 8 * b2 + 4 * b3 + 2 * b4 + b5) * 4);
        lemma_mod_multiples_basic(32 * b0 + 16 * b1 + 8 * b2 + 4 * b3 + 2 * b4 + b5, 4);
    } else {
        assert(r == 7);
        assert(v == (64 * b0 + 32 * b1 + 16 * b2 + 8 * b3 + 4 * b4 + 2 * b5 + b6) * 2);
        lemma_mod_multiples_basic(64 * b0 + 32 * b1 + 16 * b2 + 8 * b3 + 4 * b4 + 2 * b5 + b6, 2);
    }
}

} // verus!
