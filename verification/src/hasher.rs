use vstd::prelude::*;

use crate::config::{FilterKind, ImageOp};
use crate::grid::{spec_average_bits, spec_difference_bits};
use crate::hex::{bytes_to_hex, spec_hex};
use crate::img::{average_hash, difference_hash, luma_grid};
use crate::pack::{bits_to_bytes, spec_pack};

verus! {

/// The default average-hash configuration: an 8x8 grid with the Lanczos3
/// kernel, for a 64-bit fingerprint. Changing it would change every hash
/// computed with default settings, so it is part of the contract.
pub open spec fn spec_default_average_op() -> ImageOp {
    ImageOp { width: 8, height: 8, filter: FilterKind::Lanczos3 }
}

/// The default difference-hash configuration: a 9x8 grid with the Lanczos3
/// kernel, so that each row yields 8 comparisons, for a 64-bit fingerprint.
/// Changing it would change every hash computed with default settings, so
/// it is part of the contract.
pub open spec fn spec_default_difference_op() -> ImageOp {
    ImageOp { width: 9, height: 8, filter: FilterKind::Lanczos3 }
}

/// The hex string that the average hash assigns to the grid an image was
/// normalized to: the brighter-than-mean bits, packed MSB-first and
/// rendered in lowercase hex.
pub open spec fn spec_average_hex(pixels: Seq<u8>) -> Seq<char> {
    spec_hex(spec_pack(spec_average_bits(pixels)))
}

/// The hex string that the difference hash assigns to the grid an image
/// was normalized to: the brighter-than-left-neighbour bits, packed
/// MSB-first and rendered in lowercase hex.
pub open spec fn spec_difference_hex(pixels: Seq<u8>, width: int, height: int) -> Seq<char> {
    spec_hex(spec_pack(spec_difference_bits(pixels, width, height)))
}

/// Provides average hash (aHash) calculation: one bit per grid sample,
/// true exactly when the sample is strictly brighter than the mean.
pub struct AverageHash {
    op: ImageOp,
}

impl AverageHash {
    /// The configuration this hasher is bound to.
    pub closed spec fn spec_op(&self) -> ImageOp {
        self.op
    }

    /// A hasher is well-formed when its configuration is valid; every
    /// constructor establishes this.
    pub open spec fn wf(&self) -> bool {
        self.spec_op().valid()
    }

    /// Creates a hasher with the default parameters.
    pub fn new() -> (r: Self)
        ensures
            r.spec_op() == spec_default_average_op(),
            r.wf(),
    {
        AverageHash::default()
    }

    /// Creates a hasher with the specified parameters.
    pub fn with_op(op: &ImageOp) -> (r: Self)
        requires
            op.valid(),
        ensures
            r.spec_op() == *op,
            r.wf(),
    {
        AverageHash { op: *op }
    }

    /// Calculates the average hash (aHash) of the image and returns it as
    /// a lowercase hex string.
    pub fn hash(&self, img: &image::DynamicImage) -> (r: String)
        requires
            self.wf(),
        ensures
            r@ == spec_average_hex(
                luma_grid(*img, self.spec_op().width, self.spec_op().height, self.spec_op().filter),
            ),
            r@.len() == 2 * ((self.spec_op().width as int * self.spec_op().height as int + 7) / 8),
    {
        let bits = average_hash(img, &self.op);
        let bytes = bits_to_bytes(&bits);
        bytes_to_hex(&bytes)
    }
}

impl Default for AverageHash {
    /// Creates a hasher with the default parameters.
    fn default() -> (r: Self)
        ensures
            r.spec_op() == spec_default_average_op(),
            r.wf(),
    {
        AverageHash { op: ImageOp { width: 8, height: 8, filter: FilterKind::Lanczos3 } }
    }
}

/// Provides difference hash (dHash) calculation: one bit per pair of
/// horizontal neighbours, true exactly when the right sample is strictly
/// brighter.
pub struct DifferenceHash {
    op: ImageOp,
}

impl DifferenceHash {
    /// The configuration this hasher is bound to.
    pub closed spec fn spec_op(&self) -> ImageOp {
        self.op
    }

    /// A hasher is well-formed when its configuration is valid; every
    /// constructor establishes this.
    pub open spec fn wf(&self) -> bool {
        self.spec_op().valid()
    }

    /// Creates a hasher with the default parameters.
    pub fn new() -> (r: Self)
        ensures
            r.spec_op() == spec_default_difference_op(),
            r.wf(),
    {
        DifferenceHash::default()
    }

    /// Creates a hasher with the specified parameters.
    pub fn with_op(op: &ImageOp) -> (r: Self)
        requires
            op.valid(),
        ensures
            r.spec_op() == *op,
            r.wf(),
    {
        DifferenceHash { op: *op }
    }

    /// Calculates the difference hash (dHash) of the image and returns it
    /// as a lowercase hex string.
    pub fn hash(&self, img: &image::DynamicImage) -> (r: String)
        requires
            self.wf(),
        ensures
            r@ == spec_difference_hex(
                luma_grid(*img, self.spec_op().width, self.spec_op().height, self.spec_op().filter),
                self.spec_op().width as int,
                self.spec_op().height as int,
            ),
            r@.len() == 2 * (((self.spec_op().width as int - 1) * self.spec_op().height as int + 7)
                / 8),
    {
        let bits = difference_hash(img, &self.op);
        let bytes = bits_to_bytes(&bits);
        bytes_to_hex(&bytes)
    }
}

impl Default for DifferenceHash {
    /// Creates a hasher with the default parameters.
    fn default() -> (r: Self)
        ensures
            r.spec_op() == spec_default_difference_op(),
            r.wf(),
    {
        DifferenceHash { op: ImageOp { width: 9, height: 8, filter: FilterKind::Lanczos3 } }
    }
}

} // verus!
