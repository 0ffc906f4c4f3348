//! Configuration errors scene construction can report.

use vstd::prelude::*;

verus! {

/// Why a scene component rejected its construction parameters.
#[derive(Debug, Clone, Copy, PartialEq, Eq, Structural)]
pub enum ConfigError {
    /// A sphere radius was zero or negative.
    NonPositiveRadius,
    /// A refractive index was zero or negative.
    NonPositiveRefractiveIndex,
    /// A metal roughness fell outside `[0, 1]`.
    RoughnessOutOfRange,
    /// A mesh face referenced a vertex past the end of the vertex list.
    FaceIndexOutOfBounds,
}

} // verus!
