//! The kinds of numbers and of measures that the library works with.
//!
//! The library does not fix a representation of numbers. It is written
//! against the traits of this file, and a type of numbers outside it (single
//! precision floating point, say) implements them. Each operation of a trait
//! comes with a specification function, and the operation's contract is
//! that it returns what the specification function says: equal arguments,
//! equal result. What the library proves, it proves from these contracts,
//! for every implementation that keeps them. The implementations in this
//! crate, for a batch of four numbers and for the measures, are proved to
//! keep them; for an implementation elsewhere nothing checks that it does.

use vstd::prelude::*;

verus! {

/// The differential domain under which a probability density is expressed.
///
/// A measure is a label: it carries no number. Densities under different
/// measures have different types, so they cannot be combined by accident.
pub trait Measure: Copy + Clone + core::fmt::Debug + Default + Sized {
    /// The label of the product or sum of two densities under this measure.
    spec fn combine_spec(self, other: Self) -> Self;

    /// The label of a density that was made from a number alone.
    spec fn fresh_spec() -> Self;

    fn combine(self, other: Self) -> (r: Self)
        ensures
            r == self.combine_spec(other),
    ;

    fn fresh() -> (r: Self)
        ensures
            r == Self::fresh_spec(),
    ;
}

/// Differential solid angle.
#[derive(Copy, Clone, Debug, PartialEq, Eq, Structural)]
pub struct SolidAngle {}

/// Differential projected solid angle: solid angle weighted by |cos θ|.
#[derive(Copy, Clone, Debug, PartialEq, Eq, Structural)]
pub struct ProjectedSolidAngle {}

/// Differential surface area.
#[derive(Copy, Clone, Debug, PartialEq, Eq, Structural)]
pub struct Area {}

/// The uniform measure on the unit interval.
#[derive(Copy, Clone, Debug, PartialEq, Eq, Structural)]
pub struct Uniform01 {}

/// Differential throughput: area times projected solid angle.
#[derive(Copy, Clone, Debug, PartialEq, Eq, Structural)]
pub struct Throughput {}

/// Throughput of a whole path, with the number of vertices it spans.
#[derive(Copy, Clone, Debug, PartialEq, Eq, Structural)]
pub struct PathThroughput {
    pub rank: usize,
}

impl Default for SolidAngle {
    fn default() -> (r: Self)
        ensures
            r == (SolidAngle {  }),
    {
        SolidAngle {  }
    }
}

impl Default for ProjectedSolidAngle {
    fn default() -> (r: Self)
        ensures
            r == (ProjectedSolidAngle {  }),
    {
        ProjectedSolidAngle {  }
    }
}

impl Default for Area {
    fn default() -> (r: Self)
        ensures
            r == (Area {  }),
    {
        Area {  }
    }
}

impl Default for Uniform01 {
    fn default() -> (r: Self)
        ensures
            r == (Uniform01 {  }),
    {
        Uniform01 {  }
    }
}

impl Default for Throughput {
    fn default() -> (r: Self)
        ensures
            r == (Throughput {  }),
    {
        Throughput {  }
    }
}

impl Default for PathThroughput {
    fn default() -> (r: Self)
        ensures
            r == (PathThroughput { rank: 1 }),
    {
        PathThroughput { rank: 1 }
    }
}

impl Measure for SolidAngle {
    open spec fn combine_spec(self, other: Self) -> Self {
        SolidAngle {  }
    }

    open spec fn fresh_spec() -> Self {
        SolidAngle {  }
    }

    fn combine(self, other: Self) -> (r: Self) {
        SolidAngle {  }
    }

    fn fresh() -> (r: Self) {
        SolidAngle {  }
    }
}

impl Measure for ProjectedSolidAngle {
    open spec fn combine_spec(self, other: Self) -> Self {
        ProjectedSolidAngle {  }
    }

    open spec fn fresh_spec() -> Self {
        ProjectedSolidAngle {  }
    }

    fn combine(self, other: Self) -> (r: Self) {
        ProjectedSolidAngle {  }
    }

    fn fresh() -> (r: Self) {
        ProjectedSolidAngle {  }
    }
}

impl Measure for Area {
    open spec fn combine_spec(self, other: Self) -> Self {
        Area {  }
    }

    open spec fn fresh_spec() -> Self {
        Area {  }
    }

    fn combine(self, other: Self) -> (r: Self) {
        Area {  }
    }

    fn fresh() -> (r: Self) {
        Area {  }
    }
}

impl Measure for Uniform01 {
    open spec fn combine_spec(self, other: Self) -> Self {
        Uniform01 {  }
    }

    open spec fn fresh_spec() -> Self {
        Uniform01 {  }
    }

    fn combine(self, other: Self) -> (r: Self) {
        Uniform01 {  }
    }

    fn fresh() -> (r: Self) {
        Uniform01 {  }
    }
}

impl Measure for Throughput {
    open spec fn combine_spec(self, other: Self) -> Self {
        Throughput {  }
    }

    open spec fn fresh_spec() -> Self {
        Throughput {  }
    }

    fn combine(self, other: Self) -> (r: Self) {
        Throughput {  }
    }

    fn fresh() -> (r: Self) {
        Throughput {  }
    }
}

impl Measure for PathThroughput {
    open spec fn combine_spec(self, other: Self) -> Self {
        PathThroughput { rank: 1 }
    }

    open spec fn fresh_spec() -> Self {
        PathThroughput { rank: 1 }
    }

    fn combine(self, other: Self) -> (r: Self) {
        PathThroughput { rank: 1 }
    }

    fn fresh() -> (r: Self) {
        PathThroughput { rank: 1 }
    }
}

/// How many lanes of a value have a property: none, some but not all, or all.
#[derive(Copy, Clone, Debug, PartialEq, Eq, Structural)]
pub enum CheckResult {
    /// No lane has the property.
    NoLane,
    /// At least one lane has it, and at least one has not.
    SomeLanes,
    /// Every lane has it.
    All,
}

impl CheckResult {
    /// Turns the three-way answer into yes or no; `middle_destination` decides
    /// what "some but not all" counts as.
    pub open spec fn coerce_spec(self, middle_destination: bool) -> bool {
        match self {
            CheckResult::All => true,
            CheckResult::SomeLanes => middle_destination,
            CheckResult::NoLane => false,
        }
    }

    pub fn coerce(self, middle_destination: bool) -> (r: bool)
        ensures
            r == self.coerce_spec(middle_destination),
            self == CheckResult::All ==> r,
            self == CheckResult::NoLane ==> !r,
            self == CheckResult::SomeLanes ==> r == middle_destination,
    {
        match self {
            CheckResult::All => true,
            CheckResult::SomeLanes => middle_destination,
            CheckResult::NoLane => false,
        }
    }
}

/// The outcome of comparing two values that can be compared.
#[derive(Copy, Clone, Debug, PartialEq, Eq, Structural)]
pub enum Comparison {
    Less,
    Equal,
    Greater,
}

/// Absolute value.
pub trait Abs: Sized {
    spec fn abs_spec(self) -> Self;

    fn abs(self) -> (r: Self)
        ensures
            r == self.abs_spec(),
    ;
}

/// Comparison that may fail: two values need not be comparable (a number
/// and a not-a-number, or two batches whose lanes disagree).
pub trait TotalPartialOrd: Sized {
    spec fn partial_cmp_spec(&self, other: &Self) -> Option<Comparison>;

    fn partial_cmp(&self, other: &Self) -> (r: Option<Comparison>)
        ensures
            r == self.partial_cmp_spec(other),
    ;
}

/// Tells in how many lanes a value is not a number.
pub trait CheckNAN {
    spec fn check_nan_spec(&self) -> CheckResult;

    fn check_nan(&self) -> (r: CheckResult)
        ensures
            r == self.check_nan_spec(),
    ;
}

/// Tells in how many lanes a value is infinite.
pub trait CheckInf {
    spec fn check_inf_spec(&self) -> CheckResult;

    fn check_inf(&self) -> (r: CheckResult)
        ensures
            r == self.check_inf_spec(),
    ;
}

/// A type of numbers that can be integrated over: a single number, or a
/// batch of four.
///
/// Each operation has a specification function of the same name with
/// `_spec` appended, and the operation returns exactly what that function
/// says. The functions are left to the implementing type: nothing here says
/// that `add_spec` is associative, or even that it is addition. What the
/// library proves of a computation, it proves for every choice of them.
pub trait Field: Abs + TotalPartialOrd + CheckInf + CheckNAN + Copy + Clone + core::fmt::Debug {
    spec fn zero_spec() -> Self;

    spec fn one_spec() -> Self;

    spec fn add_spec(self, other: Self) -> Self;

    spec fn mul_spec(self, other: Self) -> Self;

    spec fn div_spec(self, other: Self) -> Self;

    spec fn neg_spec(self) -> Self;

    spec fn min_spec(&self, other: Self) -> Self;

    spec fn max_spec(&self, other: Self) -> Self;

    fn zero() -> (r: Self)
        ensures
            r == Self::zero_spec(),
    ;

    fn one() -> (r: Self)
        ensures
            r == Self::one_spec(),
    ;

    fn add(self, other: Self) -> (r: Self)
        ensures
            r == self.add_spec(other),
    ;

    fn mul(self, other: Self) -> (r: Self)
        ensures
            r == self.mul_spec(other),
    ;

    fn div(self, other: Self) -> (r: Self)
        ensures
            r == self.div_spec(other),
    ;

    fn neg(self) -> (r: Self)
        ensures
            r == self.neg_spec(),
    ;

    fn min(&self, other: Self) -> (r: Self)
        ensures
            r == self.min_spec(other),
    ;

    fn max(&self, other: Self) -> (r: Self)
        ensures
            r == self.max_spec(other),
    ;
}

/// The exponential and the power function.
pub trait SimdFloatPatch: Sized {
    spec fn exp_spec(self) -> Self;

    spec fn powf_spec(self, other: Self) -> Self;

    fn exp(self) -> (r: Self)
        ensures
            r == self.exp_spec(),
    ;

    fn powf(self, other: Self) -> (r: Self)
        ensures
            r == self.powf_spec(other),
    ;
}

/// A single number, as opposed to a batch.
///
/// Besides the arithmetic of a `Field` it can be made from a count and from
/// a decimal literal, be cut down to a count, and has the square root and
/// the circular functions.
pub trait Scalar: Field + SimdFloatPatch {
    /// The number that stands for the count `n`.
    spec fn from_index_spec(n: usize) -> Self;

    /// The count that a number is cut down to. An implementation for
    /// binary floating point truncates toward zero, and gives 0 for
    /// negative numbers and `usize::MAX` for numbers too large.
    spec fn to_index_spec(self) -> usize;

    /// The number nearest to the decimal fraction `digits / 10^places`, as a
    /// literal with that many digits behind the point would give it.
    spec fn from_decimal_spec(digits: u64, places: u32) -> Self;

    /// The square root.
    spec fn sqrt_spec(self) -> Self;

    /// The sine of an angle in radians.
    spec fn sin_spec(self) -> Self;

    /// The cosine of an angle in radians.
    spec fn cos_spec(self) -> Self;

    /// The angle between zero and π whose cosine the number is.
    spec fn acos_spec(self) -> Self;

    /// The angle of the point with the ordinate `self` and the abscissa
    /// `other`, between -π and π.
    spec fn atan2_spec(self, other: Self) -> Self;

    fn from_index(n: usize) -> (r: Self)
        ensures
            r == Self::from_index_spec(n),
    ;

    fn sqrt(self) -> (r: Self)
        ensures
            r == self.sqrt_spec(),
    ;

    fn sin(self) -> (r: Self)
        ensures
            r == self.sin_spec(),
    ;

    fn cos(self) -> (r: Self)
        ensures
            r == self.cos_spec(),
    ;

    fn acos(self) -> (r: Self)
        ensures
            r == self.acos_spec(),
    ;

    fn atan2(self, other: Self) -> (r: Self)
        ensures
            r == self.atan2_spec(other),
    ;

    fn to_index(self) -> (r: usize)
        ensures
            r == self.to_index_spec(),
    ;

    fn from_decimal(digits: u64, places: u32) -> (r: Self)
        ensures
            r == Self::from_decimal_spec(digits, places),
    ;
}

/// Reading a value as a single number.
pub trait ToScalar<S: Scalar> {
    spec fn to_scalar_spec(&self) -> S;

    fn to_scalar(&self) -> (r: S)
        ensures
            r == self.to_scalar_spec(),
    ;
}

/// Making a value from a single number.
pub trait FromScalar<S: Scalar>: Sized {
    spec fn from_scalar_spec(v: S) -> Self;

    fn from_scalar(v: S) -> (r: Self)
        ensures
            r == Self::from_scalar_spec(v),
    ;
}

} // verus!
