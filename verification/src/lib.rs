//! Conversion between the YCbCr/YUV family of color encodings and RGB.
//!
//! The [`color`] module holds the enums that describe how a stream encodes
//! color (range, bit depth, matrix coefficients); [`convert`] holds the
//! converters built from such a description.  A converter is built once per
//! configuration and then applied to one pixel at a time.

use vstd::prelude::*;

pub mod color;
pub mod convert;
mod error;
mod ops;
pub mod range;

pub use error::Error;
pub use ops::CheckedAs;

/// An RGB pixel (from the [`rgb`] crate)
pub use rgb::RGB;
/// An RGBA pixel (from the [`rgb`] crate)
pub use rgb::RGBA;

verus! {

/// Declares the pixel struct of the `rgb` crate, whose public fields
/// `r`, `g` and `b` the conversion contracts speak of directly.
#[verifier::external_type_specification]
#[verifier::reject_recursive_types(T)]
pub struct ExRgb<T>(rgb::Rgb<T>);

/// Relies on core::marker::PhantomData's Clone: a unit type has a single
/// value, so the clone equals the original.
pub assume_specification<T: core::marker::PointeeSized>[ <core::marker::PhantomData<T> as core::clone::Clone>::clone ](
    p: &core::marker::PhantomData<T>,
) -> (r: core::marker::PhantomData<T>)
    ensures
        r == *p,
;

/// A generic 3-component pixel, usually luma + chroma.
///
/// The color space of these values is described outside of this struct by
/// the enums in the [`color`] module.
#[derive(Debug, Copy, Clone, PartialEq, Eq)]
pub struct YUV<T> {
    pub y: T,
    pub u: T,
    pub v: T,
}

} // verus!
