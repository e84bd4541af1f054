//! Texture sampling modes.
use vstd::prelude::*;

verus! {

/// The diffrent types of sampling modes
#[derive(Clone, Copy, Debug, PartialEq, Eq, Structural)]
pub enum SamplerType {
    /// Nearest Neighbor sampling
    ///
    /// This creates a pixelated look when used in upscaling best
    /// for pixel art games
    NearestNeighbor,
    /// Linear Interpolation sampling
    ///
    /// Creates a smoother blury look when used in upscaling
    LinearInterpolation,
}

} // verus!
