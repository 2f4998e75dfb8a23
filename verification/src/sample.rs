use crate::traits::Scalar;
use vstd::prelude::*;

verus! {

/// One number of the unit interval, as a random number generator draws it.
#[derive(Copy, Clone, Debug)]
pub struct Sample1D<S: Scalar> {
    pub x: S,
}

/// A point of the unit square.
#[derive(Copy, Clone, Debug)]
pub struct Sample2D<S: Scalar> {
    pub x: S,
    pub y: S,
}

/// A point of the unit cube.
#[derive(Copy, Clone, Debug)]
pub struct Sample3D<S: Scalar> {
    pub x: S,
    pub y: S,
    pub z: S,
}

impl<S: Scalar> Sample1D<S> {
    pub fn new(x: S) -> (r: Self)
        ensures
            r.x == x,
    {
        Sample1D { x }
    }
}

impl<S: Scalar> Sample2D<S> {
    pub fn new(x: S, y: S) -> (r: Self)
        ensures
            r.x == x,
            r.y == y,
    {
        Sample2D { x, y }
    }
}

impl<S: Scalar> Sample3D<S> {
    pub fn new(x: S, y: S, z: S) -> (r: Self)
        ensures
            r.x == x,
            r.y == y,
            r.z == z,
    {
        Sample3D { x, y, z }
    }
}

} // verus!
