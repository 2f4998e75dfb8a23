use crate::traits::{
    Abs, Area, Field, FromScalar, Measure, ProjectedSolidAngle, Scalar, SolidAngle, Throughput,
};
use vstd::prelude::*;
use vstd::std_specs::convert::FromSpecImpl;
use vstd::std_specs::ops::{AddSpec, DivSpec, MulSpec};

verus! {

/// A probability density together with the measure it is expressed under.
///
/// The measure is part of the type, so two densities can be added,
/// multiplied or divided only when they are under the same measure. To go
/// from one measure to another there are the explicit conversions below, and
/// nothing else.
#[derive(Copy, Clone, Debug, PartialEq, PartialOrd)]
pub struct PDF<T: Field, M: Measure> {
    v: T,
    measure: M,
}

impl<T: Field, M: Measure> PDF<T, M> {
    /// The density.
    pub closed spec fn density(self) -> T {
        self.v
    }

    /// The measure's label.
    pub closed spec fn label(self) -> M {
        self.measure
    }

    /// Two densities are the same when density and label are.
    pub proof fn same(self, other: Self)
        requires
            self.density() == other.density(),
            self.label() == other.label(),
        ensures
            self == other,
    {
    }

    /// A density `v` under the measure's fresh label.
    pub fn new(v: T) -> (r: Self)
        ensures
            r.density() == v,
            r.label() == M::fresh_spec(),
    {
        Self { v, measure: M::fresh() }
    }

    /// A density `v` under the label `m`.
    pub fn new_with_measure(v: T, m: M) -> (r: Self)
        ensures
            r.density() == v,
            r.label() == m,
    {
        Self { v, measure: m }
    }

    /// The density, as a number.
    pub fn value(&self) -> (r: T)
        ensures
            r == self.density(),
    {
        self.v
    }

    /// Puts another number in the density's place, under the same measure.
    pub fn set_value(&mut self, v: T)
        ensures
            final(self).density() == v,
            final(self).label() == old(self).label(),
    {
        self.v = v;
    }

    /// The measure's label.
    pub fn measure(&self) -> (r: M)
        ensures
            r == self.label(),
    {
        self.measure
    }

}

impl<T: Field, M: Measure> From<T> for PDF<T, M> {
    fn from(v: T) -> (r: Self) {
        PDF::new(v)
    }
}

impl<T: Field, M: Measure> FromSpecImpl<T> for PDF<T, M> {
    open spec fn obeys_from_spec() -> bool {
        true
    }

    closed spec fn from_spec(v: T) -> Self {
        PDF { v, measure: M::fresh_spec() }
    }
}

/// A density made from a number alone holds that number, under the
/// measure's fresh label.
pub proof fn from_number<T: Field, M: Measure>(v: T)
    ensures
        <PDF<T, M> as vstd::std_specs::convert::FromSpec<T>>::from_spec(v).density() == v,
        <PDF<T, M> as vstd::std_specs::convert::FromSpec<T>>::from_spec(v).label()
            == M::fresh_spec(),
{
}

/// What a density per solid angle becomes per projected solid angle, where
/// the direction makes the angle θ with the surface normal: `v · |cos θ|`.
pub open spec fn solid_angle_to_projected<T: Field + FromScalar<S>, S: Scalar>(
    v: T,
    cos_theta: S,
) -> T {
    v.mul_spec(T::from_scalar_spec(cos_theta).abs_spec())
}

/// What a density per area becomes per solid angle, seen from a point at
/// the given squared distance: `v · |cos θ| / d²`.
pub open spec fn area_to_solid_angle<T: Field + FromScalar<S>, S: Scalar>(
    v: T,
    cos_theta: S,
    distance_squared: S,
) -> T {
    v.mul_spec(T::from_scalar_spec(cos_theta).abs_spec()).div_spec(
        T::from_scalar_spec(distance_squared),
    )
}

/// What a density per area becomes per projected solid angle, in one step:
/// `v · |cos θo · cos θi| / d²`.
pub open spec fn area_to_projected<T: Field + FromScalar<S>, S: Scalar>(
    v: T,
    cos_i: S,
    cos_o: S,
    distance_squared: S,
) -> T {
    v.mul_spec(T::from_scalar_spec(cos_o.mul_spec(cos_i)).abs_spec()).div_spec(
        T::from_scalar_spec(distance_squared),
    )
}

impl<T: Field> PDF<T, SolidAngle> {
    /// Solid angle to projected solid angle.
    pub fn convert_to_projected_solid_angle<S: Scalar>(&self, cos_theta: S) -> (r: PDF<
        T,
        ProjectedSolidAngle,
    >) where T: FromScalar<S>
        ensures
            r.density() == solid_angle_to_projected::<T, S>(self.density(), cos_theta),
    {
        PDF::new(self.v.mul(T::from_scalar(cos_theta).abs()))
    }
}

impl<T: Field> PDF<T, Area> {
    /// Area to solid angle.
    pub fn convert_to_solid_angle<S: Scalar>(&self, cos_theta: S, distance_squared: S) -> (r: PDF<
        T,
        SolidAngle,
    >) where T: FromScalar<S>
        ensures
            r.density() == area_to_solid_angle::<T, S>(self.density(), cos_theta, distance_squared),
    {
        PDF::new(self.v.mul(T::from_scalar(cos_theta).abs()).div(T::from_scalar(distance_squared)))
    }

    /// Area to projected solid angle, directly.
    pub fn convert_to_projected_solid_angle<S: Scalar>(
        &self,
        cos_i: S,
        cos_o: S,
        distance_squared: S,
    ) -> (r: PDF<T, ProjectedSolidAngle>) where T: FromScalar<S>
        ensures
            r.density() == area_to_projected::<T, S>(
                self.density(),
                cos_i,
                cos_o,
                distance_squared,
            ),
    {
        PDF::new(
            self.v.mul(T::from_scalar(cos_o.mul(cos_i)).abs()).div(
                T::from_scalar(distance_squared),
            ),
        )
    }
}

impl<T: Field> PDF<T, ProjectedSolidAngle> {
    /// The throughput density of a projected-solid-angle density and an area
    /// density: their product, the area density first.
    pub fn convert_to_throughput(self, area_pdf: PDF<T, Area>) -> (r: PDF<T, Throughput>)
        ensures
            r.density() == area_pdf.density().mul_spec(self.density()),
    {
        PDF::new(area_pdf.v.mul(self.v))
    }
}

impl<T: Field, M: Measure> core::ops::Add for PDF<T, M> {
    type Output = PDF<T, M>;

    fn add(self, rhs: PDF<T, M>) -> (r: PDF<T, M>) {
        PDF::new_with_measure(self.v.add(rhs.v), self.measure.combine(rhs.measure))
    }
}

impl<T: Field, M: Measure> vstd::std_specs::ops::AddSpecImpl for PDF<T, M> {
    open spec fn obeys_add_spec() -> bool {
        true
    }

    open spec fn add_req(self, rhs: PDF<T, M>) -> bool {
        true
    }

    closed spec fn add_spec(self, rhs: PDF<T, M>) -> PDF<T, M> {
        PDF { v: self.v.add_spec(rhs.v), measure: self.measure.combine_spec(rhs.measure) }
    }
}

impl<T: Field, M: Measure> core::ops::Mul for PDF<T, M> {
    type Output = PDF<T, M>;

    fn mul(self, rhs: PDF<T, M>) -> (r: PDF<T, M>) {
        PDF::new_with_measure(self.v.mul(rhs.v), self.measure.combine(rhs.measure))
    }
}

impl<T: Field, M: Measure> vstd::std_specs::ops::MulSpecImpl for PDF<T, M> {
    open spec fn obeys_mul_spec() -> bool {
        true
    }

    open spec fn mul_req(self, rhs: PDF<T, M>) -> bool {
        true
    }

    closed spec fn mul_spec(self, rhs: PDF<T, M>) -> PDF<T, M> {
        PDF { v: self.v.mul_spec(rhs.v), measure: self.measure.combine_spec(rhs.measure) }
    }
}

impl<T: Field, M: Measure> core::ops::Div for PDF<T, M> {
    type Output = PDF<T, M>;

    fn div(self, rhs: PDF<T, M>) -> (r: PDF<T, M>) {
        PDF::new_with_measure(self.v.div(rhs.v), self.measure.combine(rhs.measure))
    }
}

impl<T: Field, M: Measure> vstd::std_specs::ops::DivSpecImpl for PDF<T, M> {
    open spec fn obeys_div_spec() -> bool {
        true
    }

    open spec fn div_req(self, rhs: PDF<T, M>) -> bool {
        true
    }

    closed spec fn div_spec(self, rhs: PDF<T, M>) -> PDF<T, M> {
        PDF { v: self.v.div_spec(rhs.v), measure: self.measure.combine_spec(rhs.measure) }
    }
}

impl<T: Field + FromScalar<S>, S: Scalar, M: Measure> core::ops::Mul<S> for PDF<T, M> {
    type Output = PDF<T, M>;

    fn mul(self, rhs: S) -> (r: PDF<T, M>) {
        PDF::new(self.v.mul(T::from_scalar(rhs)))
    }
}

impl<T: Field + FromScalar<S>, S: Scalar, M: Measure> vstd::std_specs::ops::MulSpecImpl<S> for PDF<T, M> {
    open spec fn obeys_mul_spec() -> bool {
        true
    }

    open spec fn mul_req(self, rhs: S) -> bool {
        true
    }

    closed spec fn mul_spec(self, rhs: S) -> PDF<T, M> {
        PDF { v: self.v.mul_spec(T::from_scalar_spec(rhs)), measure: M::fresh_spec() }
    }
}

impl<T: Field + FromScalar<S>, S: Scalar, M: Measure> core::ops::Div<S> for PDF<T, M> {
    type Output = PDF<T, M>;

    fn div(self, rhs: S) -> (r: PDF<T, M>) {
        PDF::new(self.v.div(T::from_scalar(rhs)))
    }
}

impl<T: Field + FromScalar<S>, S: Scalar, M: Measure> vstd::std_specs::ops::DivSpecImpl<S> for PDF<T, M> {
    open spec fn obeys_div_spec() -> bool {
        true
    }

    open spec fn div_req(self, rhs: S) -> bool {
        true
    }

    closed spec fn div_spec(self, rhs: S) -> PDF<T, M> {
        PDF { v: self.v.div_spec(T::from_scalar_spec(rhs)), measure: M::fresh_spec() }
    }
}

/// What `+`, `*` and `/` give for two densities under one measure: the sum,
/// product or quotient of the two numbers, under the label that the two
/// labels combine to.
pub proof fn operators_on_densities<T: Field, M: Measure>(a: PDF<T, M>, b: PDF<T, M>)
    ensures
        AddSpec::add_spec(a, b).density() == a.density().add_spec(b.density()),
        AddSpec::add_spec(a, b).label() == a.label().combine_spec(b.label()),
        MulSpec::mul_spec(a, b).density() == a.density().mul_spec(b.density()),
        MulSpec::mul_spec(a, b).label() == a.label().combine_spec(b.label()),
        DivSpec::div_spec(a, b).density() == a.density().div_spec(b.density()),
        DivSpec::div_spec(a, b).label() == a.label().combine_spec(b.label()),
{
}

/// What `*` and `/` give for a density and a single number: the density
/// scaled up or down, under the measure's fresh label.
pub proof fn scaling_of_densities<T: Field + FromScalar<S>, S: Scalar, M: Measure>(
    a: PDF<T, M>,
    s: S,
)
    ensures
        MulSpec::mul_spec(a, s).density() == a.density().mul_spec(T::from_scalar_spec(s)),
        MulSpec::mul_spec(a, s).label() == M::fresh_spec(),
        DivSpec::div_spec(a, s).density() == a.density().div_spec(T::from_scalar_spec(s)),
        DivSpec::div_spec(a, s).label() == M::fresh_spec(),
{
}

} // verus!
