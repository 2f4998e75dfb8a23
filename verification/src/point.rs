use crate::batch::Batch4;
use crate::order::difference_spec;
use crate::traits::{CheckInf, CheckNAN, CheckResult, Field, Scalar};
use crate::vec::Vec3;
use vstd::prelude::*;
use vstd::std_specs::convert::FromSpecImpl;

verus! {

/// A position in space, in homogeneous coordinates: three coordinates and a
/// weight, which is one for an ordinary point.
#[derive(Copy, Clone, Debug, PartialEq)]
pub struct Point3<S: Scalar>(pub Batch4<S>);

impl<S: Scalar> Point3<S> {
    /// The point with the given coordinates and weight one.
    pub open spec fn new_spec(x: S, y: S, z: S) -> Self {
        Point3(Batch4 { l0: x, l1: y, l2: z, l3: S::one_spec() })
    }

    /// The point with all four lanes divided by the weight.
    pub open spec fn normalize_spec(self) -> Self {
        Point3(self.0.div_spec(Batch4::<S>::splat_spec(self.0.l3)))
    }

    /// No lane is infinite and none is not a number.
    pub open spec fn is_finite_spec(self) -> bool {
        self.0.check_nan_spec() == CheckResult::NoLane && self.0.check_inf_spec()
            == CheckResult::NoLane
    }

    pub fn new(x: S, y: S, z: S) -> (r: Self)
        ensures
            r == Self::new_spec(x, y, z),
    {
        Point3(Batch4 { l0: x, l1: y, l2: z, l3: S::one() })
    }

    /// The point at the origin.
    pub fn origin() -> (r: Self)
        ensures
            r == Self::new_spec(S::zero_spec(), S::zero_spec(), S::zero_spec()),
    {
        Point3::new(S::zero(), S::zero(), S::zero())
    }

    pub fn is_finite(&self) -> (r: bool)
        ensures
            r == self.is_finite_spec(),
    {
        let nan = match self.0.check_nan() {
            CheckResult::NoLane => false,
            _ => true,
        };
        let inf = match self.0.check_inf() {
            CheckResult::NoLane => false,
            _ => true,
        };
        !(nan || inf)
    }

    pub fn x(&self) -> (r: S)
        ensures
            r == self.0.l0,
    {
        self.0.l0
    }

    pub fn y(&self) -> (r: S)
        ensures
            r == self.0.l1,
    {
        self.0.l1
    }

    pub fn z(&self) -> (r: S)
        ensures
            r == self.0.l2,
    {
        self.0.l2
    }

    pub fn w(&self) -> (r: S)
        ensures
            r == self.0.l3,
    {
        self.0.l3
    }

    pub fn normalize(self) -> (r: Self)
        ensures
            r == self.normalize_spec(),
    {
        Point3(self.0.div(Batch4::splat(self.0.l3)))
    }

    pub fn as_array(&self) -> (r: [S; 4])
        ensures
            r@ == seq![self.0.l0, self.0.l1, self.0.l2, self.0.l3],
    {
        let r = [self.0.l0, self.0.l1, self.0.l2, self.0.l3];
        assert(r@ =~= seq![self.0.l0, self.0.l1, self.0.l2, self.0.l3]);
        r
    }

    pub fn add_assign(&mut self, other: Vec3<S>)
        ensures
            final(self).0 == old(self).0.add_spec(other.0),
    {
        self.0 = self.0.add(other.0);
    }

    pub fn sub_assign(&mut self, other: Vec3<S>)
        ensures
            final(self).0 == difference_spec(old(self).0, other.0),
    {
        self.0 = self.0.add(other.0.neg());
    }
}

impl<S: Scalar> Default for Point3<S> {
    fn default() -> (r: Self)
        ensures
            r == Self::new_spec(S::zero_spec(), S::zero_spec(), S::zero_spec()),
    {
        Point3::origin()
    }
}

impl<S: Scalar> core::ops::Add<Vec3<S>> for Point3<S> {
    type Output = Point3<S>;

    fn add(self, rhs: Vec3<S>) -> (r: Point3<S>) {
        Point3(self.0.add(rhs.0))
    }
}

impl<S: Scalar> vstd::std_specs::ops::AddSpecImpl<Vec3<S>> for Point3<S> {
    open spec fn obeys_add_spec() -> bool {
        true
    }

    open spec fn add_req(self, rhs: Vec3<S>) -> bool {
        true
    }

    open spec fn add_spec(self, rhs: Vec3<S>) -> Point3<S> {
        Point3(self.0.add_spec(rhs.0))
    }
}

impl<S: Scalar> core::ops::Sub<Vec3<S>> for Point3<S> {
    type Output = Point3<S>;

    fn sub(self, rhs: Vec3<S>) -> (r: Point3<S>) {
        Point3(self.0.add(rhs.0.neg()))
    }
}

impl<S: Scalar> vstd::std_specs::ops::SubSpecImpl<Vec3<S>> for Point3<S> {
    open spec fn obeys_sub_spec() -> bool {
        true
    }

    open spec fn sub_req(self, rhs: Vec3<S>) -> bool {
        true
    }

    open spec fn sub_spec(self, rhs: Vec3<S>) -> Point3<S> {
        Point3(difference_spec(self.0, rhs.0))
    }
}

impl<S: Scalar> core::ops::Sub for Point3<S> {
    type Output = Vec3<S>;

    fn sub(self, rhs: Point3<S>) -> (r: Vec3<S>) {
        let mask = Batch4 { l0: S::one(), l1: S::one(), l2: S::one(), l3: S::zero() };
        Vec3(self.0.add(rhs.0.neg()).mul(mask))
    }
}

impl<S: Scalar> vstd::std_specs::ops::SubSpecImpl for Point3<S> {
    open spec fn obeys_sub_spec() -> bool {
        true
    }

    open spec fn sub_req(self, rhs: Point3<S>) -> bool {
        true
    }

    open spec fn sub_spec(self, rhs: Point3<S>) -> Vec3<S> {
        Vec3(
            difference_spec(self.0, rhs.0).mul_spec(
                Batch4 {
                    l0: S::one_spec(),
                    l1: S::one_spec(),
                    l2: S::one_spec(),
                    l3: S::zero_spec(),
                },
            ),
        )
    }
}

impl<S: Scalar> From<[S; 3]> for Point3<S> {
    fn from(v: [S; 3]) -> (r: Self) {
        Point3::new(v[0], v[1], v[2])
    }
}

impl<S: Scalar> FromSpecImpl<[S; 3]> for Point3<S> {
    open spec fn obeys_from_spec() -> bool {
        true
    }

    open spec fn from_spec(v: [S; 3]) -> Self {
        Point3::<S>::new_spec(v@[0], v@[1], v@[2])
    }
}

impl<S: Scalar> From<Batch4<S>> for Point3<S> {
    fn from(v: Batch4<S>) -> (r: Self) {
        Point3(v)
    }
}

impl<S: Scalar> FromSpecImpl<Batch4<S>> for Point3<S> {
    open spec fn obeys_from_spec() -> bool {
        true
    }

    open spec fn from_spec(v: Batch4<S>) -> Self {
        Point3(v)
    }
}

impl<S: Scalar> From<Vec3<S>> for Point3<S> {
    fn from(v: Vec3<S>) -> (r: Self) {
        Point3::origin() + v
    }
}

impl<S: Scalar> FromSpecImpl<Vec3<S>> for Point3<S> {
    open spec fn obeys_from_spec() -> bool {
        true
    }

    open spec fn from_spec(v: Vec3<S>) -> Self {
        Point3(Point3::<S>::new_spec(S::zero_spec(), S::zero_spec(), S::zero_spec()).0.add_spec(v.0))
    }
}

} // verus!
