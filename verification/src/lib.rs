//! Spectral power distributions and the measures of probability densities,
//! for physically based rendering.
//!
//! A [`curves::Curve`] is a function of the wavelength in one of several
//! shapes. [`curves::Curve::to_cdf`] makes its cumulative distribution, from
//! which wavelengths are drawn in proportion to the curve, singly or four at
//! a time. A [`pdf::PDF`] is a density with the measure that it is expressed
//! under, and changes its measure only by the conversions that geometry
//! allows. The numbers are those of a type that implements
//! [`traits::Scalar`]; every function's contract says exactly which
//! operations of that type make up its result.

pub mod batch;
pub mod bounds;
pub mod cdf;
pub mod color;
pub mod curves;
pub mod integral;
pub mod laws;
pub mod misc;
pub mod order;
pub mod pdf;
pub mod point;
pub mod random;
pub mod sample;
pub mod spd;
pub mod spectral;
pub mod traits;
pub mod transform;
pub mod vec;

use vstd::prelude::*;

verus! {

/// Which side of a surface takes part: the front, the back, or both.
#[derive(Copy, Clone, Debug, PartialEq, Eq, Structural)]
pub enum Sidedness {
    Forward,
    Reverse,
    Dual,
}

} // verus!
