use crate::batch::Batch4;
use crate::order::difference_spec;
use crate::traits::{Field, Scalar};
use vstd::prelude::*;

verus! {

/// A direction or displacement in space: three coordinates, and a fourth
/// lane that is zero.
#[derive(Copy, Clone, Debug)]
pub struct Vec3<S: Scalar>(pub Batch4<S>);

impl<S: Scalar> Vec3<S> {
    /// The vector with the given coordinates.
    pub open spec fn new_spec(x: S, y: S, z: S) -> Self {
        Vec3(Batch4 { l0: x, l1: y, l2: z, l3: S::zero_spec() })
    }

    pub fn new(x: S, y: S, z: S) -> (r: Self)
        ensures
            r == Self::new_spec(x, y, z),
    {
        Vec3(Batch4 { l0: x, l1: y, l2: z, l3: S::zero() })
    }

    /// The vector whose four lanes are taken as they are.
    pub fn from_raw(v: Batch4<S>) -> (r: Self)
        ensures
            r.0 == v,
    {
        Vec3(v)
    }

    pub fn x(&self) -> (r: S)
        ensures
            r == self.0.l0,
    {
        self.0.l0
    }

    pub fn y(&self) -> (r: S)
        ensures
            r == self.0.l1,
    {
        self.0.l1
    }

    pub fn z(&self) -> (r: S)
        ensures
            r == self.0.l2,
    {
        self.0.l2
    }

    pub fn w(&self) -> (r: S)
        ensures
            r == self.0.l3,
    {
        self.0.l3
    }

    /// The vector of length zero.
    pub fn zero() -> (r: Self)
        ensures
            r == Self::new_spec(S::zero_spec(), S::zero_spec(), S::zero_spec()),
    {
        Vec3::new(S::zero(), S::zero(), S::zero())
    }

    /// The unit vector along the first axis.
    pub fn unit_x() -> (r: Self)
        ensures
            r == Self::new_spec(S::one_spec(), S::zero_spec(), S::zero_spec()),
    {
        Vec3::new(S::one(), S::zero(), S::zero())
    }

    /// The unit vector along the second axis.
    pub fn unit_y() -> (r: Self)
        ensures
            r == Self::new_spec(S::zero_spec(), S::one_spec(), S::zero_spec()),
    {
        Vec3::new(S::zero(), S::one(), S::zero())
    }

    /// The unit vector along the third axis.
    pub fn unit_z() -> (r: Self)
        ensures
            r == Self::new_spec(S::zero_spec(), S::zero_spec(), S::one_spec()),
    {
        Vec3::new(S::zero(), S::zero(), S::one())
    }

    /// The square of the length: the sum of the squares of the four lanes,
    /// added from the first upward.
    pub open spec fn norm_squared_spec(self) -> S {
        self.0.mul_spec(self.0).reduce_sum_spec()
    }

    /// The length.
    pub open spec fn norm_spec(self) -> S {
        self.norm_squared_spec().sqrt_spec()
    }

    /// The vector divided by its length.
    pub open spec fn normalized_spec(self) -> Self {
        Vec3(self.0.div_spec(Batch4::<S>::splat_spec(self.norm_spec())))
    }

    pub fn norm_squared(&self) -> (r: S)
        ensures
            r == self.norm_squared_spec(),
    {
        self.0.mul(self.0).reduce_sum()
    }

    pub fn norm(&self) -> (r: S)
        ensures
            r == self.norm_spec(),
    {
        self.norm_squared().sqrt()
    }

    pub fn normalized(&self) -> (r: Self)
        ensures
            r == self.normalized_spec(),
    {
        Vec3(self.0.div(Batch4::splat(self.norm())))
    }
}

impl<S: Scalar> core::ops::Add for Vec3<S> {
    type Output = Vec3<S>;

    fn add(self, rhs: Vec3<S>) -> (r: Vec3<S>) {
        Vec3(self.0.add(rhs.0))
    }
}

impl<S: Scalar> vstd::std_specs::ops::AddSpecImpl for Vec3<S> {
    open spec fn obeys_add_spec() -> bool {
        true
    }

    open spec fn add_req(self, rhs: Vec3<S>) -> bool {
        true
    }

    open spec fn add_spec(self, rhs: Vec3<S>) -> Vec3<S> {
        Vec3(self.0.add_spec(rhs.0))
    }
}

impl<S: Scalar> core::ops::Sub for Vec3<S> {
    type Output = Vec3<S>;

    fn sub(self, rhs: Vec3<S>) -> (r: Vec3<S>) {
        Vec3(self.0.add(rhs.0.neg()))
    }
}

impl<S: Scalar> vstd::std_specs::ops::SubSpecImpl for Vec3<S> {
    open spec fn obeys_sub_spec() -> bool {
        true
    }

    open spec fn sub_req(self, rhs: Vec3<S>) -> bool {
        true
    }

    open spec fn sub_spec(self, rhs: Vec3<S>) -> Vec3<S> {
        Vec3(difference_spec(self.0, rhs.0))
    }
}

impl<S: Scalar> core::ops::Mul<S> for Vec3<S> {
    type Output = Vec3<S>;

    fn mul(self, rhs: S) -> (r: Vec3<S>) {
        Vec3(self.0.mul(Batch4::splat(rhs)))
    }
}

impl<S: Scalar> vstd::std_specs::ops::MulSpecImpl<S> for Vec3<S> {
    open spec fn obeys_mul_spec() -> bool {
        true
    }

    open spec fn mul_req(self, rhs: S) -> bool {
        true
    }

    open spec fn mul_spec(self, rhs: S) -> Vec3<S> {
        Vec3(self.0.mul_spec(Batch4::<S>::splat_spec(rhs)))
    }
}

impl<S: Scalar> core::ops::Div<S> for Vec3<S> {
    type Output = Vec3<S>;

    fn div(self, rhs: S) -> (r: Vec3<S>) {
        Vec3(self.0.div(Batch4::splat(rhs)))
    }
}

impl<S: Scalar> vstd::std_specs::ops::DivSpecImpl<S> for Vec3<S> {
    open spec fn obeys_div_spec() -> bool {
        true
    }

    open spec fn div_req(self, rhs: S) -> bool {
        true
    }

    open spec fn div_spec(self, rhs: S) -> Vec3<S> {
        Vec3(self.0.div_spec(Batch4::<S>::splat_spec(rhs)))
    }
}

} // verus!
