use vstd::prelude::*;

verus! {

/// Why a terrain could not be produced.
#[derive(Clone, Copy, Debug, PartialEq, Eq, Structural)]
pub enum TerrainError {
    /// The bytes are not an image, or the image is not a single 16-bit
    /// luminance channel.
    DecodeError,
    /// The raster has a zero side, a sample count that does not match its
    /// sides, or more lattice corners than 32-bit indices can address.
    InvalidDimensions,
}

} // verus!
