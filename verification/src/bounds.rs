use crate::order::{difference, difference_spec, le, le_spec, lt, lt_spec};
use crate::traits::{Field, Scalar};
use vstd::prelude::*;
use vstd::std_specs::convert::FromSpecImpl;

verus! {

/// The half-open interval from `lower` up to, but without, `upper`.
#[derive(Copy, Clone, Debug)]
pub struct Bounds1D<S: Scalar> {
    pub lower: S,
    pub upper: S,
}

impl<S: Scalar> Bounds1D<S> {
    /// `upper - lower`.
    pub open spec fn span_spec(self) -> S {
        difference_spec(self.upper, self.lower)
    }

    /// The point a fraction `t` of the way from `lower` to `upper`:
    /// `t · span + lower`.
    pub open spec fn lerp_spec(self, t: S) -> S {
        t.mul_spec(self.span_spec()).add_spec(self.lower)
    }

    /// `lower <= value < upper`.
    pub open spec fn contains_spec(self, value: S) -> bool {
        le_spec(self.lower, value) && lt_spec(value, self.upper)
    }

    /// What two intervals share: the greater lower end and the smaller upper end.
    pub open spec fn intersection_spec(self, other: Self) -> Self {
        Bounds1D {
            lower: self.lower.max_spec(other.lower),
            upper: self.upper.min_spec(other.upper),
        }
    }

    /// The interval that spans both: the smaller lower end and the greater upper end.
    pub open spec fn union_spec(self, other: Self) -> Self {
        Bounds1D {
            lower: self.lower.min_spec(other.lower),
            upper: self.upper.max_spec(other.upper),
        }
    }

    /// The interval between `lower` and `upper`. Where `upper` is below
    /// `lower` the two change places, so that the lower end is never above
    /// the upper one.
    pub fn new(lower: S, upper: S) -> (r: Self)
        ensures
            r == Self::from_pair_spec((lower, upper)),
    {
        if lt(&upper, &lower) {
            Bounds1D { lower: upper, upper: lower }
        } else {
            Bounds1D { lower, upper }
        }
    }

    /// The interval between two numbers in either order: where the second
    /// is below the first they change places. Two numbers that do not
    /// compare stay as they come.
    pub open spec fn from_pair_spec(bounds: (S, S)) -> Self {
        if lt_spec(bounds.1, bounds.0) {
            Bounds1D { lower: bounds.1, upper: bounds.0 }
        } else {
            Bounds1D { lower: bounds.0, upper: bounds.1 }
        }
    }

    pub fn from_pair(bounds: (S, S)) -> (r: Self)
        ensures
            r == Self::from_pair_spec(bounds),
    {
        if lt(&bounds.1, &bounds.0) {
            Bounds1D { lower: bounds.1, upper: bounds.0 }
        } else {
            Bounds1D { lower: bounds.0, upper: bounds.1 }
        }
    }

    pub fn span(&self) -> (r: S)
        ensures
            r == self.span_spec(),
    {
        difference(self.upper, self.lower)
    }

    pub fn lerp(&self, t: S) -> (r: S)
        ensures
            r == self.lerp_spec(t),
    {
        t.mul(self.span()).add(self.lower)
    }

    pub fn contains(&self, value: &S) -> (r: bool)
        ensures
            r == self.contains_spec(*value),
    {
        le(&self.lower, value) && lt(value, &self.upper)
    }

    pub fn intersection(&self, other: Self) -> (r: Self)
        ensures
            r == self.intersection_spec(other),
    {
        Bounds1D { lower: self.lower.max(other.lower), upper: self.upper.min(other.upper) }
    }

    pub fn union(&self, other: Self) -> (r: Self)
        ensures
            r == self.union_spec(other),
    {
        Bounds1D { lower: self.lower.min(other.lower), upper: self.upper.max(other.upper) }
    }

    /// The point that the number `x` of the unit interval is mapped to:
    /// `x · span + lower`.
    pub fn sample(&self, x: S) -> (r: S)
        ensures
            r == self.lerp_spec(x),
    {
        x.mul(self.span()).add(self.lower)
    }
}

impl<S: Scalar> From<(S, S)> for Bounds1D<S> {
    fn from(bounds: (S, S)) -> (r: Self) {
        Bounds1D::from_pair(bounds)
    }
}

impl<S: Scalar> FromSpecImpl<(S, S)> for Bounds1D<S> {
    open spec fn obeys_from_spec() -> bool {
        true
    }

    open spec fn from_spec(bounds: (S, S)) -> Self {
        Self::from_pair_spec(bounds)
    }
}

/// A rectangle: the product of two half-open intervals.
#[derive(Copy, Clone, Debug)]
pub struct Bounds2D<S: Scalar> {
    pub x: Bounds1D<S>,
    pub y: Bounds1D<S>,
}

impl<S: Scalar> Bounds2D<S> {
    pub open spec fn area_spec(self) -> S {
        self.x.span_spec().mul_spec(self.y.span_spec())
    }

    pub open spec fn contains_spec(self, value: (S, S)) -> bool {
        self.x.contains_spec(value.0) && self.y.contains_spec(value.1)
    }

    pub fn new(x: Bounds1D<S>, y: Bounds1D<S>) -> (r: Self)
        ensures
            r == (Bounds2D { x, y }),
    {
        Bounds2D { x, y }
    }

    /// Width times height.
    pub fn area(&self) -> (r: S)
        ensures
            r == self.area_spec(),
    {
        self.x.span().mul(self.y.span())
    }

    /// Whether a point lies in the rectangle: each coordinate in its interval.
    pub fn contains(&self, value: (S, S)) -> (r: bool)
        ensures
            r == self.contains_spec(value),
    {
        self.x.contains(&value.0) && self.y.contains(&value.1)
    }

    pub fn intersection(&self, other: Self) -> (r: Self)
        ensures
            r.x == self.x.intersection_spec(other.x),
            r.y == self.y.intersection_spec(other.y),
    {
        Bounds2D { x: self.x.intersection(other.x), y: self.y.intersection(other.y) }
    }

    pub fn union(&self, other: Self) -> (r: Self)
        ensures
            r.x == self.x.union_spec(other.x),
            r.y == self.y.union_spec(other.y),
    {
        Bounds2D { x: self.x.union(other.x), y: self.y.union(other.y) }
    }

    /// The point that a point of the unit square is mapped to.
    pub fn sample(&self, x: S, y: S) -> (r: (S, S))
        ensures
            r.0 == self.x.lerp_spec(x),
            r.1 == self.y.lerp_spec(y),
    {
        (self.x.sample(x), self.y.sample(y))
    }
}

} // verus!
