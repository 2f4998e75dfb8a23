use crate::batch::Batch4;
use crate::order::{difference, difference_spec, lt, lt_spec};
use crate::traits::{Field, Scalar, SimdFloatPatch};
use crate::vec::Vec3;
use vstd::prelude::*;

verus! {

/// The power heuristic with exponent two, `a² / (a² + b²)`: the weight of a
/// sample drawn with density `a` where another technique has density `b`.
pub open spec fn power_heuristic_spec<T: Field>(a: T, b: T) -> T {
    a.mul_spec(a).div_spec(a.mul_spec(a).add_spec(b.mul_spec(b)))
}

pub fn power_heuristic<S: Scalar>(a: S, b: S) -> (r: S)
    ensures
        r == power_heuristic_spec(a, b),
{
    a.mul(a).div(a.mul(a).add(b.mul(b)))
}

/// The power heuristic for four densities at once.
pub fn power_heuristic_hero<S: Scalar>(a: Batch4<S>, b: Batch4<S>) -> (r: Batch4<S>)
    ensures
        r == power_heuristic_spec(a, b),
        r.l0 == power_heuristic_spec(a.l0, b.l0),
        r.l1 == power_heuristic_spec(a.l1, b.l1),
        r.l2 == power_heuristic_spec(a.l2, b.l2),
        r.l3 == power_heuristic_spec(a.l3, b.l3),
{
    a.mul(a).div(a.mul(a).add(b.mul(b)))
}

/// A bell of height `alpha` centered at `mu`, with the width `sigma1` to the
/// left of the center and `sigma2` from the center on:
/// `alpha · exp(-((x - mu) / sigma)² / 2)`.
pub open spec fn gaussian_spec<S: Scalar>(x: S, alpha: S, mu: S, sigma1: S, sigma2: S) -> S {
    let sigma = if lt_spec(x, mu) {
        sigma1
    } else {
        sigma2
    };
    let q = difference_spec(x, mu).div_spec(sigma);
    alpha.mul_spec(q.mul_spec(q).neg_spec().div_spec(S::from_index_spec(2)).exp_spec())
}

pub fn gaussian<S: Scalar>(x: S, alpha: S, mu: S, sigma1: S, sigma2: S) -> (r: S)
    ensures
        r == gaussian_spec(x, alpha, mu, sigma1, sigma2),
{
    let sigma = if lt(&x, &mu) {
        sigma1
    } else {
        sigma2
    };
    let q = difference(x, mu).div(sigma);
    alpha.mul(q.mul(q).neg().div(S::from_index(2)).exp())
}

/// The bell at four places at once, each lane by itself.
pub fn gaussian_f32x4<S: Scalar>(x: Batch4<S>, alpha: S, mu: S, sigma1: S, sigma2: S) -> (r:
    Batch4<S>)
    ensures
        r.l0 == gaussian_spec(x.l0, alpha, mu, sigma1, sigma2),
        r.l1 == gaussian_spec(x.l1, alpha, mu, sigma1, sigma2),
        r.l2 == gaussian_spec(x.l2, alpha, mu, sigma1, sigma2),
        r.l3 == gaussian_spec(x.l3, alpha, mu, sigma1, sigma2),
{
    Batch4 {
        l0: gaussian(x.l0, alpha, mu, sigma1, sigma2),
        l1: gaussian(x.l1, alpha, mu, sigma1, sigma2),
        l2: gaussian(x.l2, alpha, mu, sigma1, sigma2),
        l3: gaussian(x.l3, alpha, mu, sigma1, sigma2),
    }
}

/// The first radiation constant, 2hc², in the units that the radiance is given in.
pub open spec fn hcc2_spec<S: Scalar>() -> S {
    S::from_decimal_spec(11910429723971884, 45)
}

/// hc / k, in m·K, the second radiation constant.
pub open spec fn hkc_spec<S: Scalar>() -> S {
    S::from_decimal_spec(1438777085924334, 17)
}

/// Nanometres in metres.
pub open spec fn nano_spec<S: Scalar>() -> S {
    S::from_decimal_spec(1, 9)
}

/// Planck's law: the radiance of a black body at `temperature` kelvin, at
/// the wavelength `lambda` nanometres. With `l` the wavelength in metres it
/// is `l⁻⁵ · 2hc² / (exp(hc / (k · l · T)) - 1)`.
pub open spec fn blackbody_spec<S: Scalar>(temperature: S, lambda: S) -> S {
    let l = lambda.mul_spec(nano_spec::<S>());
    l.powf_spec(S::from_index_spec(5).neg_spec()).mul_spec(hcc2_spec::<S>()).div_spec(
        difference_spec(hkc_spec::<S>().div_spec(l.mul_spec(temperature)).exp_spec(), S::one_spec()),
    )
}

pub fn blackbody<S: Scalar>(temperature: S, lambda: S) -> (r: S)
    ensures
        r == blackbody_spec(temperature, lambda),
{
    let l = lambda.mul(S::from_decimal(1, 9));
    let hcc2 = S::from_decimal(11910429723971884, 45);
    let hkc = S::from_decimal(1438777085924334, 17);
    l.powf(S::from_index(5).neg()).mul(hcc2).div(
        difference(hkc.div(l.mul(temperature)).exp(), S::one()),
    )
}

/// Planck's law at four wavelengths at once, each lane by itself.
pub fn blackbody_f32x4<S: Scalar>(temperature: S, lambda: Batch4<S>) -> (r: Batch4<S>)
    ensures
        r.l0 == blackbody_spec(temperature, lambda.l0),
        r.l1 == blackbody_spec(temperature, lambda.l1),
        r.l2 == blackbody_spec(temperature, lambda.l2),
        r.l3 == blackbody_spec(temperature, lambda.l3),
{
    Batch4 {
        l0: blackbody(temperature, lambda.l0),
        l1: blackbody(temperature, lambda.l1),
        l2: blackbody(temperature, lambda.l2),
        l3: blackbody(temperature, lambda.l3),
    }
}

/// Wien's displacement law: the wavelength, in nanometres, at which a black
/// body of the given temperature radiates most, `b / (T · 10⁻⁹)` with
/// `b = 2.8977721 · 10⁻³ m·K`.
pub open spec fn max_blackbody_lambda_spec<S: Scalar>(temp: S) -> S {
    S::from_decimal_spec(28977721, 10).div_spec(temp.mul_spec(nano_spec::<S>()))
}

pub fn max_blackbody_lambda<S: Scalar>(temp: S) -> (r: S)
    ensures
        r == max_blackbody_lambda_spec(temp),
{
    S::from_decimal(28977721, 10).div(temp.mul(S::from_decimal(1, 9)))
}

/// The circle's number, to sixteen digits.
pub open spec fn pi_spec<S: Scalar>() -> S {
    S::from_decimal_spec(3141592653589793, 15)
}

pub fn pi<S: Scalar>() -> (r: S)
    ensures
        r == pi_spec::<S>(),
{
    S::from_decimal(3141592653589793, 15)
}

/// A bell that integrates to `mul`, whatever its width:
/// `mul · exp(-(x - offset)² / sigma) / √(sigma · π)`.
pub open spec fn w_spec<S: Scalar>(x: S, mul: S, offset: S, sigma: S) -> S {
    let d = difference_spec(x, offset);
    mul.mul_spec(d.mul_spec(d).neg_spec().div_spec(sigma).exp_spec()).div_spec(
        sigma.mul_spec(pi_spec::<S>()).sqrt_spec(),
    )
}

pub fn w<S: Scalar>(x: S, mul: S, offset: S, sigma: S) -> (r: S)
    ensures
        r == w_spec(x, mul, offset, sigma),
{
    let d = difference(x, offset);
    mul.mul(d.mul(d).neg().div(sigma).exp()).div(sigma.mul(pi()).sqrt())
}

/// The direction that a point `(u, v)` of the unit square stands for on
/// the sphere: `u` goes once around the pole, `v` from the pole to its
/// opposite. With `θ = (u - ½) · 2π` and `φ = v · π` it is
/// `(sin φ · cos θ, sin φ · sin θ, cos φ)`.
pub open spec fn uv_to_direction_spec<S: Scalar>(uv: (S, S)) -> Vec3<S> {
    let theta = difference_spec(uv.0, S::from_decimal_spec(5, 1)).mul_spec(
        S::from_index_spec(2),
    ).mul_spec(pi_spec::<S>());
    let phi = uv.1.mul_spec(pi_spec::<S>());
    Vec3::<S>::new_spec(
        phi.sin_spec().mul_spec(theta.cos_spec()),
        phi.sin_spec().mul_spec(theta.sin_spec()),
        phi.cos_spec(),
    )
}

pub fn uv_to_direction<S: Scalar>(uv: (S, S)) -> (r: Vec3<S>)
    ensures
        r == uv_to_direction_spec(uv),
{
    let theta = difference(uv.0, S::from_decimal(5, 1)).mul(S::from_index(2)).mul(pi());
    let phi = uv.1.mul(pi());
    Vec3::new(phi.sin().mul(theta.cos()), phi.sin().mul(theta.sin()), phi.cos())
}

/// The point of the unit square that stands for a direction of length one:
/// `(atan2(y, x) / 2 / π + ½, acos(z) / π)`.
pub open spec fn direction_to_uv_spec<S: Scalar>(direction: Vec3<S>) -> (S, S) {
    let theta = direction.0.l1.atan2_spec(direction.0.l0);
    let phi = direction.0.l2.acos_spec();
    (
        theta.div_spec(S::from_index_spec(2)).div_spec(pi_spec::<S>()).add_spec(
            S::from_decimal_spec(5, 1),
        ),
        phi.div_spec(pi_spec::<S>()),
    )
}

pub fn direction_to_uv<S: Scalar>(direction: Vec3<S>) -> (r: (S, S))
    ensures
        r == direction_to_uv_spec(direction),
{
    let theta = direction.y().atan2(direction.x());
    let phi = direction.z().acos();
    (theta.div(S::from_index(2)).div(pi()).add(S::from_decimal(5, 1)), phi.div(pi()))
}

} // verus!
