use crate::batch::Batch4;
use crate::point::Point3;
use crate::traits::{Field, Scalar};
use crate::vec::Vec3;
use vstd::prelude::*;

verus! {

/// A 4×4 matrix, held as its four rows.
#[derive(Copy, Clone, Debug, PartialEq)]
pub struct Matrix4x4<S: Scalar> {
    pub r0: Batch4<S>,
    pub r1: Batch4<S>,
    pub r2: Batch4<S>,
    pub r3: Batch4<S>,
}

/// The sum of the products of two batches' lanes, added from lane 0 upward.
pub open spec fn dot_spec<S: Scalar>(a: Batch4<S>, b: Batch4<S>) -> S {
    a.mul_spec(b).reduce_sum_spec()
}

/// The lanes of `v` as weights of the four rows of `m`, the weighted rows
/// added from the first upward.
pub open spec fn weighted_rows_spec<S: Scalar>(m: Matrix4x4<S>, v: Batch4<S>) -> Batch4<S> {
    m.r0.mul_spec(Batch4::<S>::splat_spec(v.l0)).add_spec(
        m.r1.mul_spec(Batch4::<S>::splat_spec(v.l1)),
    ).add_spec(m.r2.mul_spec(Batch4::<S>::splat_spec(v.l2))).add_spec(
        m.r3.mul_spec(Batch4::<S>::splat_spec(v.l3)),
    )
}

/// One row of a matrix product: the row `a` against each column of `b`.
pub open spec fn row_times_spec<S: Scalar>(a: Batch4<S>, b: Matrix4x4<S>) -> Batch4<S> {
    Batch4 {
        l0: dot_spec(a, b.column_spec(0)),
        l1: dot_spec(a, b.column_spec(1)),
        l2: dot_spec(a, b.column_spec(2)),
        l3: dot_spec(a, b.column_spec(3)),
    }
}

impl<S: Scalar> Matrix4x4<S> {
    /// Row `i`, counted from 0.
    pub open spec fn row_spec(self, i: int) -> Batch4<S> {
        if i == 0 {
            self.r0
        } else if i == 1 {
            self.r1
        } else if i == 2 {
            self.r2
        } else {
            self.r3
        }
    }

    /// Column `j`, counted from 0.
    pub open spec fn column_spec(self, j: int) -> Batch4<S> {
        Batch4 {
            l0: self.r0.lane_spec(j),
            l1: self.r1.lane_spec(j),
            l2: self.r2.lane_spec(j),
            l3: self.r3.lane_spec(j),
        }
    }

    /// The entry in row `i` and column `j`.
    pub open spec fn entry(self, i: int, j: int) -> S {
        self.row_spec(i).lane_spec(j)
    }

    /// One on the diagonal, zero elsewhere.
    pub open spec fn identity_spec() -> Self {
        let o = S::one_spec();
        let z = S::zero_spec();
        Matrix4x4 {
            r0: Batch4 { l0: o, l1: z, l2: z, l3: z },
            r1: Batch4 { l0: z, l1: o, l2: z, l3: z },
            r2: Batch4 { l0: z, l1: z, l2: o, l3: z },
            r3: Batch4 { l0: z, l1: z, l2: z, l3: o },
        }
    }

    /// The matrix mirrored at its diagonal: its columns as rows.
    pub open spec fn transpose_spec(self) -> Self {
        Matrix4x4 {
            r0: self.column_spec(0),
            r1: self.column_spec(1),
            r2: self.column_spec(2),
            r3: self.column_spec(3),
        }
    }

    /// The matrix product `self · rhs`: entry by entry, a row of `self`
    /// against a column of `rhs`.
    pub open spec fn mul_spec(self, rhs: Self) -> Self {
        Matrix4x4 {
            r0: row_times_spec(self.r0, rhs),
            r1: row_times_spec(self.r1, rhs),
            r2: row_times_spec(self.r2, rhs),
            r3: row_times_spec(self.r3, rhs),
        }
    }

    /// The matrix with the given sixteen entries, row by row.
    pub fn from_rows(m: [S; 16]) -> (r: Self)
        ensures
            forall|i: int, j: int| 0 <= i < 4 && 0 <= j < 4 ==> r.entry(i, j) == m@[4 * i + j],
    {
        Matrix4x4 {
            r0: Batch4 { l0: m[0], l1: m[1], l2: m[2], l3: m[3] },
            r1: Batch4 { l0: m[4], l1: m[5], l2: m[6], l3: m[7] },
            r2: Batch4 { l0: m[8], l1: m[9], l2: m[10], l3: m[11] },
            r3: Batch4 { l0: m[12], l1: m[13], l2: m[14], l3: m[15] },
        }
    }

    /// The sixteen entries, row by row.
    pub fn to_rows(&self) -> (r: [S; 16])
        ensures
            forall|i: int, j: int| 0 <= i < 4 && 0 <= j < 4 ==> r@[4 * i + j] == self.entry(i, j),
    {
        [
            self.r0.l0,
            self.r0.l1,
            self.r0.l2,
            self.r0.l3,
            self.r1.l0,
            self.r1.l1,
            self.r1.l2,
            self.r1.l3,
            self.r2.l0,
            self.r2.l1,
            self.r2.l2,
            self.r2.l3,
            self.r3.l0,
            self.r3.l1,
            self.r3.l2,
            self.r3.l3,
        ]
    }

    /// The identity matrix.
    pub fn identity() -> (r: Self)
        ensures
            r == Self::identity_spec(),
    {
        let o = S::one();
        let z = S::zero();
        Matrix4x4 {
            r0: Batch4 { l0: o, l1: z, l2: z, l3: z },
            r1: Batch4 { l0: z, l1: o, l2: z, l3: z },
            r2: Batch4 { l0: z, l1: z, l2: o, l3: z },
            r3: Batch4 { l0: z, l1: z, l2: z, l3: o },
        }
    }

    pub fn column(&self, j: usize) -> (r: Batch4<S>)
        requires
            j < 4,
        ensures
            r == self.column_spec(j as int),
    {
        Batch4 { l0: self.r0.lane(j), l1: self.r1.lane(j), l2: self.r2.lane(j), l3: self.r3.lane(j) }
    }

    pub fn transpose(&self) -> (r: Matrix4x4<S>)
        ensures
            r == self.transpose_spec(),
            forall|i: int, j: int|
                0 <= i < 4 && 0 <= j < 4 ==> #[trigger] r.entry(i, j) == self.entry(j, i),
    {
        Matrix4x4 { r0: self.column(0), r1: self.column(1), r2: self.column(2), r3: self.column(3) }
    }

    pub fn mul(self, rhs: Matrix4x4<S>) -> (r: Matrix4x4<S>)
        ensures
            r == self.mul_spec(rhs),
    {
        let b0 = rhs.column(0);
        let b1 = rhs.column(1);
        let b2 = rhs.column(2);
        let b3 = rhs.column(3);
        Matrix4x4 {
            r0: Batch4 {
                l0: self.r0.mul(b0).reduce_sum(),
                l1: self.r0.mul(b1).reduce_sum(),
                l2: self.r0.mul(b2).reduce_sum(),
                l3: self.r0.mul(b3).reduce_sum(),
            },
            r1: Batch4 {
                l0: self.r1.mul(b0).reduce_sum(),
                l1: self.r1.mul(b1).reduce_sum(),
                l2: self.r1.mul(b2).reduce_sum(),
                l3: self.r1.mul(b3).reduce_sum(),
            },
            r2: Batch4 {
                l0: self.r2.mul(b0).reduce_sum(),
                l1: self.r2.mul(b1).reduce_sum(),
                l2: self.r2.mul(b2).reduce_sum(),
                l3: self.r2.mul(b3).reduce_sum(),
            },
            r3: Batch4 {
                l0: self.r3.mul(b0).reduce_sum(),
                l1: self.r3.mul(b1).reduce_sum(),
                l2: self.r3.mul(b2).reduce_sum(),
                l3: self.r3.mul(b3).reduce_sum(),
            },
        }
    }

    /// The four lanes `v` taken as weights of the matrix's rows.
    pub fn weighted_rows(&self, v: Batch4<S>) -> (r: Batch4<S>)
        ensures
            r == weighted_rows_spec(*self, v),
    {
        self.r0.mul(Batch4::splat(v.l0)).add(self.r1.mul(Batch4::splat(v.l1))).add(
            self.r2.mul(Batch4::splat(v.l2)),
        ).add(self.r3.mul(Batch4::splat(v.l3)))
    }
}

/// Transposing twice gives the matrix back.
pub proof fn transpose_twice<S: Scalar>(m: Matrix4x4<S>)
    ensures
        m.transpose_spec().transpose_spec() == m,
{
}

/// What a matrix can be applied to.
pub trait Transformed<S: Scalar>: Sized {
    /// The value after the matrix was applied to it.
    spec fn transformed_spec(self, m: Matrix4x4<S>) -> Self;

    fn transformed(self, m: &Matrix4x4<S>) -> (r: Self)
        ensures
            r == self.transformed_spec(*m),
    ;
}

impl<S: Scalar> Transformed<S> for Vec3<S> {
    /// The vector's lanes weigh the matrix's rows. A vector's fourth lane is
    /// zero, so the last row, where a translation stands, adds nothing.
    open spec fn transformed_spec(self, m: Matrix4x4<S>) -> Self {
        Vec3(weighted_rows_spec(m, self.0))
    }

    fn transformed(self, m: &Matrix4x4<S>) -> (r: Self) {
        Vec3(m.weighted_rows(self.0))
    }
}

impl<S: Scalar> Transformed<S> for Point3<S> {
    /// As for a vector, and the point is brought back to weight one afterwards.
    open spec fn transformed_spec(self, m: Matrix4x4<S>) -> Self {
        Point3(weighted_rows_spec(m, self.0)).normalize_spec()
    }

    fn transformed(self, m: &Matrix4x4<S>) -> (r: Self) {
        Point3(m.weighted_rows(self.0)).normalize()
    }
}

/// A change of coordinates, kept together with its inverse.
#[derive(Copy, Clone, Debug, PartialEq)]
pub struct Transform3<S: Scalar> {
    pub forward: Matrix4x4<S>,
    pub reverse: Matrix4x4<S>,
}

/// `base` with `layer` put on top of it, where there is one.
pub open spec fn stacked_spec<S: Scalar>(
    layer: Option<Transform3<S>>,
    base: Transform3<S>,
) -> Transform3<S> {
    match layer {
        Some(t) => t.mul_spec(base),
        None => base,
    }
}

impl<S: Scalar> Transform3<S> {
    /// The transform that changes nothing.
    pub open spec fn new_spec() -> Self {
        Transform3 { forward: Matrix4x4::identity_spec(), reverse: Matrix4x4::identity_spec() }
    }

    /// `self` composed with `rhs`: the forward matrix is `rhs.forward ·
    /// self.forward`, the reverse matrix `self.reverse · rhs.reverse`.
    pub open spec fn mul_spec(self, rhs: Self) -> Self {
        Transform3 {
            forward: rhs.forward.mul_spec(self.forward),
            reverse: self.reverse.mul_spec(rhs.reverse),
        }
    }

    /// Scaling first, then rotation, then translation, each where it is given.
    pub open spec fn from_stack_spec(
        scale: Option<Transform3<S>>,
        rotate: Option<Transform3<S>>,
        translate: Option<Transform3<S>>,
    ) -> Self {
        stacked_spec(translate, stacked_spec(rotate, stacked_spec(scale, Self::new_spec())))
    }

    pub fn new() -> (r: Self)
        ensures
            r == Self::new_spec(),
    {
        Transform3 { forward: Matrix4x4::identity(), reverse: Matrix4x4::identity() }
    }

    /// The transform that undoes this one: the two matrices change places.
    pub fn inverse(self) -> (r: Transform3<S>)
        ensures
            r.forward == self.reverse,
            r.reverse == self.forward,
    {
        Transform3::new_from_raw(self.reverse, self.forward)
    }

    /// The transform with the two given matrices, which the caller knows to
    /// be inverse to each other.
    pub fn new_from_raw(forward: Matrix4x4<S>, reverse: Matrix4x4<S>) -> (r: Self)
        ensures
            r == (Transform3 { forward, reverse }),
    {
        Transform3 { forward, reverse }
    }

    pub fn mul(self, rhs: Transform3<S>) -> (r: Transform3<S>)
        ensures
            r == self.mul_spec(rhs),
    {
        Transform3::new_from_raw(rhs.forward.mul(self.forward), self.reverse.mul(rhs.reverse))
    }

    pub fn from_stack(
        scale: Option<Transform3<S>>,
        rotate: Option<Transform3<S>>,
        translate: Option<Transform3<S>>,
    ) -> (r: Transform3<S>)
        ensures
            r == Self::from_stack_spec(scale, rotate, translate),
            scale.is_none() && rotate.is_none() && translate.is_none() ==> r == Self::new_spec(),
    {
        let mut stack = Transform3::new();
        if let Some(scale) = scale {
            stack = scale.mul(stack);
        }
        if let Some(rotate) = rotate {
            stack = rotate.mul(stack);
        }
        if let Some(translate) = translate {
            stack = translate.mul(stack);
        }
        stack
    }

    /// The transform whose reverse matrix has the three given vectors as its
    /// first rows, a tangent frame, and whose forward matrix is the
    /// transpose of that.
    pub fn from_vector_stack(v0: Batch4<S>, v1: Batch4<S>, v2: Batch4<S>) -> (r: Self)
        ensures
            r.reverse == (Matrix4x4 {
                r0: Batch4 { l0: v0.l0, l1: v0.l1, l2: v0.l2, l3: S::zero_spec() },
                r1: Batch4 { l0: v1.l0, l1: v1.l1, l2: v1.l2, l3: S::zero_spec() },
                r2: Batch4 { l0: v2.l0, l1: v2.l1, l2: v2.l2, l3: S::zero_spec() },
                r3: Batch4 {
                    l0: S::zero_spec(),
                    l1: S::zero_spec(),
                    l2: S::zero_spec(),
                    l3: S::one_spec(),
                },
            }),
            r.forward == r.reverse.transpose_spec(),
    {
        let z = S::zero();
        let m = Matrix4x4 {
            r0: Batch4 { l0: v0.l0, l1: v0.l1, l2: v0.l2, l3: z },
            r1: Batch4 { l0: v1.l0, l1: v1.l1, l2: v1.l2, l3: z },
            r2: Batch4 { l0: v2.l0, l1: v2.l1, l2: v2.l2, l3: z },
            r3: Batch4 { l0: z, l1: z, l2: z, l3: S::one() },
        };
        Transform3::new_from_raw(m.transpose(), m)
    }

    /// Where the three coordinate axes are taken to.
    pub fn axis_transform(&self) -> (r: (Vec3<S>, Vec3<S>, Vec3<S>))
        ensures
            r.0 == Vec3::<S>::new_spec(
                S::one_spec(),
                S::zero_spec(),
                S::zero_spec(),
            ).transformed_spec(self.forward),
            r.1 == Vec3::<S>::new_spec(
                S::zero_spec(),
                S::one_spec(),
                S::zero_spec(),
            ).transformed_spec(self.forward),
            r.2 == Vec3::<S>::new_spec(
                S::zero_spec(),
                S::zero_spec(),
                S::one_spec(),
            ).transformed_spec(self.forward),
    {
        (
            self.to_world(Vec3::unit_x()),
            self.to_world(Vec3::unit_y()),
            self.to_world(Vec3::unit_z()),
        )
    }

    /// A value of the outer space, in the transform's own coordinates.
    pub fn to_local<T: Transformed<S>>(&self, value: T) -> (r: T)
        ensures
            r == value.transformed_spec(self.reverse),
    {
        value.transformed(&self.reverse)
    }

    /// A value in the transform's own coordinates, in the outer space.
    pub fn to_world<T: Transformed<S>>(&self, value: T) -> (r: T)
        ensures
            r == value.transformed_spec(self.forward),
    {
        value.transformed(&self.forward)
    }
}

impl<S: Scalar> core::ops::Mul for Matrix4x4<S> {
    type Output = Matrix4x4<S>;

    fn mul(self, rhs: Matrix4x4<S>) -> (r: Matrix4x4<S>) {
        Matrix4x4::mul(self, rhs)
    }
}

impl<S: Scalar> vstd::std_specs::ops::MulSpecImpl for Matrix4x4<S> {
    open spec fn obeys_mul_spec() -> bool {
        true
    }

    open spec fn mul_req(self, rhs: Matrix4x4<S>) -> bool {
        true
    }

    open spec fn mul_spec(self, rhs: Matrix4x4<S>) -> Matrix4x4<S> {
        Matrix4x4::mul_spec(self, rhs)
    }
}

impl<S: Scalar> core::ops::Mul<Vec3<S>> for Matrix4x4<S> {
    type Output = Vec3<S>;

    fn mul(self, rhs: Vec3<S>) -> (r: Vec3<S>) {
        rhs.transformed(&self)
    }
}

impl<S: Scalar> vstd::std_specs::ops::MulSpecImpl<Vec3<S>> for Matrix4x4<S> {
    open spec fn obeys_mul_spec() -> bool {
        true
    }

    open spec fn mul_req(self, rhs: Vec3<S>) -> bool {
        true
    }

    open spec fn mul_spec(self, rhs: Vec3<S>) -> Vec3<S> {
        rhs.transformed_spec(self)
    }
}

impl<S: Scalar> core::ops::Mul<Point3<S>> for Matrix4x4<S> {
    type Output = Point3<S>;

    fn mul(self, rhs: Point3<S>) -> (r: Point3<S>) {
        rhs.transformed(&self)
    }
}

impl<S: Scalar> vstd::std_specs::ops::MulSpecImpl<Point3<S>> for Matrix4x4<S> {
    open spec fn obeys_mul_spec() -> bool {
        true
    }

    open spec fn mul_req(self, rhs: Point3<S>) -> bool {
        true
    }

    open spec fn mul_spec(self, rhs: Point3<S>) -> Point3<S> {
        rhs.transformed_spec(self)
    }
}

impl<S: Scalar> core::ops::Mul for Transform3<S> {
    type Output = Transform3<S>;

    fn mul(self, rhs: Transform3<S>) -> (r: Transform3<S>) {
        Transform3::mul(self, rhs)
    }
}

impl<S: Scalar> vstd::std_specs::ops::MulSpecImpl for Transform3<S> {
    open spec fn obeys_mul_spec() -> bool {
        true
    }

    open spec fn mul_req(self, rhs: Transform3<S>) -> bool {
        true
    }

    open spec fn mul_spec(self, rhs: Transform3<S>) -> Transform3<S> {
        Transform3::mul_spec(self, rhs)
    }
}

} // verus!
