//! Errors reported when a converter is built for an unsupported configuration.

use vstd::prelude::*;

verus! {

/// This library doesn't support all combinations of color spaces.
///
/// Every error surfaces at converter construction, never per pixel.
#[derive(Debug, Copy, Clone, PartialEq, Eq, Structural)]
pub enum Error {
    /// Declared for the broader color-description domain; the conversion
    /// core itself never raises it.
    UnsupportedTransferCharacteristics,
    /// The requested matrix-coefficients identifier has no known (KR, KB)
    /// derivation and is not `Identity`.
    UnsupportedMatrixCoefficients,
    /// A wide-output converter was asked to rescale 8-bit input.
    InvalidDepthRequested,
}

impl Error {
    /// A human-readable description of the error.
    pub fn message(&self) -> (m: &'static str)
        ensures
            m@ == self.spec_message(),
    {
        match self {
            Self::UnsupportedTransferCharacteristics => "Unsupported color space (transfer characteristics)",
            Self::UnsupportedMatrixCoefficients => "Unsupported color space (matrix coefficients)",
            Self::InvalidDepthRequested => "16-bit converter was asked to convert 8-bit color",
        }
    }

    pub open spec fn spec_message(&self) -> Seq<char> {
        match self {
            Self::UnsupportedTransferCharacteristics => "Unsupported color space (transfer characteristics)"@,
            Self::UnsupportedMatrixCoefficients => "Unsupported color space (matrix coefficients)"@,
            Self::InvalidDepthRequested => "16-bit converter was asked to convert 8-bit color"@,
        }
    }
}

} // verus!
