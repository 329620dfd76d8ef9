use vstd::prelude::*;

verus! {

/// The resampling kernel used when the source image is scaled down to the
/// small grid that the hash is derived from. The kernel choice changes the
/// hash values, so it is part of the configuration, but the hashing logic
/// itself only passes it through to the resampler.
#[derive(Clone, Copy, Debug, PartialEq, Eq, Structural)]
pub enum FilterKind {
    Nearest,
    Triangle,
    CatmullRom,
    Gaussian,
    Lanczos3,
}

/// The image pre-processing parameters: the grid dimensions and the
/// resampling kernel. A configuration is only meaningful when both
/// dimensions are at least 1; see [`ImageOp::valid`].
#[derive(Clone, Copy, Debug, PartialEq, Eq, Structural)]
pub struct ImageOp {
    pub width: u8,
    pub height: u8,
    pub filter: FilterKind,
}

impl ImageOp {
    /// A configuration is valid when the grid has at least one row and one
    /// column; a zero dimension would make the mean and the neighbour
    /// comparisons meaningless.
    pub open spec fn valid(self) -> bool {
        self.width >= 1 && self.height >= 1
    }

    /// Builds a configuration, rejecting degenerate dimensions at
    /// construction time.
    pub fn new(width: u8, height: u8, filter: FilterKind) -> (r: Option<ImageOp>)
        ensures
            r is Some <==> (width >= 1 && height >= 1),
            r is Some ==> r->0 == (ImageOp { width, height, filter }),
            r is Some ==> r->0.valid(),
    {
        if width >= 1 && height >= 1 {
            Some(ImageOp { width, height, filter })
        } else {
            None
        }
    }
}

} // verus!
