use crate::misc::{pi, pi_spec};
use crate::order::{difference, difference_spec};
use crate::sample::{Sample2D, Sample3D};
use crate::traits::{Field, Scalar, SimdFloatPatch};
use crate::vec::Vec3;
use vstd::prelude::*;

verus! {

/// The point of the unit ball that a point of the unit cube is mapped to:
/// with `u = 2π·x`, `v = acos(2y - 1)` and `w = z^(1/3)` it is
/// `(cos u · sin v · w, cos v · w, sin u · sin v · w)`.
pub open spec fn in_unit_sphere_spec<S: Scalar>(r: Sample3D<S>) -> Vec3<S> {
    let u = r.x.mul_spec(pi_spec::<S>()).mul_spec(S::from_index_spec(2));
    let v = difference_spec(S::from_index_spec(2).mul_spec(r.y), S::one_spec()).acos_spec();
    let w = r.z.powf_spec(S::one_spec().div_spec(S::from_index_spec(3)));
    Vec3::<S>::new_spec(
        u.cos_spec().mul_spec(v.sin_spec()).mul_spec(w),
        v.cos_spec().mul_spec(w),
        u.sin_spec().mul_spec(v.sin_spec()).mul_spec(w),
    )
}

pub fn random_in_unit_sphere<S: Scalar>(r: Sample3D<S>) -> (out: Vec3<S>)
    ensures
        out == in_unit_sphere_spec(r),
{
    let u = r.x.mul(pi()).mul(S::from_index(2));
    let v = difference(S::from_index(2).mul(r.y), S::one()).acos();
    let w = r.z.powf(S::one().div(S::from_index(3)));
    Vec3::new(u.cos().mul(v.sin()).mul(w), v.cos().mul(w), u.sin().mul(v.sin()).mul(w))
}

/// The point of the unit sphere that a point of the unit square is mapped
/// to: with `φ = 2π·x`, `z = 2y - 1` and `r = √(1 - z²)` it is
/// `(r · cos φ, r · sin φ, z)`.
pub open spec fn on_unit_sphere_spec<S: Scalar>(r: Sample2D<S>) -> Vec3<S> {
    let phi = r.x.mul_spec(S::from_index_spec(2)).mul_spec(pi_spec::<S>());
    let z = difference_spec(r.y.mul_spec(S::from_index_spec(2)), S::one_spec());
    let rad = difference_spec(S::one_spec(), z.mul_spec(z)).sqrt_spec();
    Vec3::<S>::new_spec(rad.mul_spec(phi.cos_spec()), rad.mul_spec(phi.sin_spec()), z)
}

pub fn random_on_unit_sphere<S: Scalar>(r: Sample2D<S>) -> (out: Vec3<S>)
    ensures
        out == on_unit_sphere_spec(r),
{
    let phi = r.x.mul(S::from_index(2)).mul(pi());
    let z = difference(r.y.mul(S::from_index(2)), S::one());
    let rad = difference(S::one(), z.mul(z)).sqrt();
    Vec3::new(rad.mul(phi.cos()), rad.mul(phi.sin()), z)
}

/// The point of the unit disk that a point of the unit square is mapped to:
/// with `u = 2π·x` and `v = y^(1/2)` it is `(cos u · v, sin u · v, 0)`.
pub open spec fn in_unit_disk_spec<S: Scalar>(r: Sample2D<S>) -> Vec3<S> {
    let u = r.x.mul_spec(pi_spec::<S>()).mul_spec(S::from_index_spec(2));
    let v = r.y.powf_spec(S::one_spec().div_spec(S::from_index_spec(2)));
    Vec3::<S>::new_spec(u.cos_spec().mul_spec(v), u.sin_spec().mul_spec(v), S::zero_spec())
}

pub fn random_in_unit_disk<S: Scalar>(r: Sample2D<S>) -> (out: Vec3<S>)
    ensures
        out == in_unit_disk_spec(r),
{
    let u = r.x.mul(pi()).mul(S::from_index(2));
    let v = r.y.powf(S::one().div(S::from_index(2)));
    Vec3::new(u.cos().mul(v), u.sin().mul(v), S::zero())
}

/// A direction of the upper hemisphere, drawn with a density in proportion
/// to its cosine with the pole, before its pole coordinate is weighed: with
/// `φ = 2π·u` it is `(cos φ · √v, sin φ · √v, weight · √(1 - v))`.
pub open spec fn cosine_direction_spec<S: Scalar>(r: Sample2D<S>, weight: Option<S>) -> Vec3<S> {
    let root = difference_spec(S::one_spec(), r.y).sqrt_spec();
    let z = match weight {
        Some(w) => w.mul_spec(root),
        None => root,
    };
    let phi = S::from_index_spec(2).mul_spec(pi_spec::<S>()).mul_spec(r.x);
    Vec3::<S>::new_spec(
        phi.cos_spec().mul_spec(r.y.sqrt_spec()),
        phi.sin_spec().mul_spec(r.y.sqrt_spec()),
        z,
    )
}

pub fn random_cosine_direction<S: Scalar>(r: Sample2D<S>) -> (out: Vec3<S>)
    ensures
        out == cosine_direction_spec(r, None),
{
    let z = difference(S::one(), r.y).sqrt();
    let phi = S::from_index(2).mul(pi()).mul(r.x);
    let x = phi.cos().mul(r.y.sqrt());
    let y = phi.sin().mul(r.y.sqrt());
    Vec3::new(x, y, z)
}

/// As `random_cosine_direction`, with the pole coordinate multiplied by
/// `weight` and the result brought to length one.
pub fn weighted_cosine_direction<S: Scalar>(r: Sample2D<S>, weight: S) -> (out: Vec3<S>)
    ensures
        out == cosine_direction_spec(r, Some(weight)).normalized_spec(),
{
    let z = weight.mul(difference(S::one(), r.y).sqrt());
    let phi = S::from_index(2).mul(pi()).mul(r.x);
    let x = phi.cos().mul(r.y.sqrt());
    let y = phi.sin().mul(r.y.sqrt());
    Vec3::new(x, y, z).normalized()
}

/// A direction toward a sphere of the given radius whose center lies along
/// the pole at the given squared distance: with
/// `z = 1 + y · (√(1 - radius² / distance²) - 1)` and `φ = 2π·x` it is
/// `(cos φ · √(1 - z²), sin φ · √(1 - z²), z)`.
pub open spec fn to_sphere_spec<S: Scalar>(r: Sample2D<S>, radius: S, distance_squared: S) -> Vec3<
    S,
> {
    let z = S::one_spec().add_spec(
        r.y.mul_spec(
            difference_spec(
                difference_spec(
                    S::one_spec(),
                    radius.mul_spec(radius).div_spec(distance_squared),
                ).sqrt_spec(),
                S::one_spec(),
            ),
        ),
    );
    let phi = S::from_index_spec(2).mul_spec(pi_spec::<S>()).mul_spec(r.x);
    let root = difference_spec(S::one_spec(), z.mul_spec(z)).sqrt_spec();
    Vec3::<S>::new_spec(phi.cos_spec().mul_spec(root), phi.sin_spec().mul_spec(root), z)
}

pub fn random_to_sphere<S: Scalar>(r: Sample2D<S>, radius: S, distance_squared: S) -> (out: Vec3<S>)
    ensures
        out == to_sphere_spec(r, radius, distance_squared),
{
    let z = S::one().add(
        r.y.mul(
            difference(
                difference(S::one(), radius.mul(radius).div(distance_squared)).sqrt(),
                S::one(),
            ),
        ),
    );
    let phi = S::from_index(2).mul(pi()).mul(r.x);
    let root = difference(S::one(), z.mul(z)).sqrt();
    Vec3::new(phi.cos().mul(root), phi.sin().mul(root), z)
}

} // verus!
