//! What holds of the library's results beyond their formulas.
//!
//! The library's functions are specified for any type of numbers, and of
//! such a type little can be said: its sum need not even be a sum. The laws
//! of this file therefore name what they need of the numbers, as predicates
//! such as [`obeys_order_laws`], and hold for every type of which the
//! predicates are true. Exact arithmetic meets all of them. Floating point
//! meets those on order for numbers that are numbers, and those on
//! arithmetic up to rounding.

use crate::batch::Batch4;
use crate::bounds::Bounds1D;
use crate::cdf::{
    inverted_spec, linear_cdf_signal_spec, running_sum_spec, samples_of_spec, CurveWithCDF,
};
use crate::curves::{
    bell_sum_spec, bin_width_spec, bisect_finds_partition, bisect_in_range, keys_of,
    linear_eval_spec, one_sub_epsilon_spec, partitioned_at, tabulated_eval_spec, Curve, CurveView,
    InterpolationMode,
};
use crate::misc::gaussian_spec;
use crate::integral::{step_place_spec, trapezoid_spec};
use crate::order::{clamp_spec, difference_spec, le_spec, lt_spec};
use crate::pdf::{area_to_projected, area_to_solid_angle, solid_angle_to_projected};
use crate::spd::SpectralPowerDistributionFunction;
use crate::traits::{Abs, Field, FromScalar, Scalar};
use vstd::prelude::*;

verus! {

/// The comparison of `S` is an order: every number is at most itself, a
/// number that is at most another is not above it, and "at most" carries
/// over a third number. Numbers that are not a number break the first.
pub open spec fn obeys_order_laws<S: Scalar>() -> bool {
    &&& forall|a: S| #[trigger] le_spec(a, a)
    &&& forall|a: S, b: S| #[trigger] le_spec(a, b) ==> !lt_spec(b, a)
    &&& forall|a: S, b: S, c: S| #[trigger] le_spec(a, b) && #[trigger] le_spec(b, c) ==> le_spec(a, c)
    &&& forall|a: S, b: S, c: S| #[trigger] le_spec(a, b) && #[trigger] lt_spec(b, c) ==> lt_spec(a, c)
}

/// The arithmetic of `S` goes with its order as that of the real numbers
/// does: adding what is not negative does not make less, a product of two
/// that are not negative is not negative, dividing by what is positive keeps
/// the order, and a positive number goes into itself once and into zero not
/// at all. Arithmetic that rounds keeps these for numbers that are finite.
pub open spec fn obeys_ordered_arithmetic<S: Scalar>() -> bool {
    &&& forall|a: S, b: S| le_spec(S::zero_spec(), b) ==> le_spec(a, #[trigger] a.add_spec(b))
    &&& forall|a: S, b: S|
        le_spec(S::zero_spec(), a) && le_spec(S::zero_spec(), b) ==> le_spec(
            S::zero_spec(),
            #[trigger] a.mul_spec(b),
        )
    &&& forall|a: S, b: S, s: S|
        le_spec(a, b) && lt_spec(S::zero_spec(), s) ==> le_spec(
            #[trigger] a.div_spec(s),
            #[trigger] b.div_spec(s),
        )
    &&& forall|s: S| lt_spec(S::zero_spec(), s) ==> #[trigger] s.div_spec(s) == S::one_spec()
    &&& forall|s: S|
        lt_spec(S::zero_spec(), s) ==> #[trigger] S::zero_spec().div_spec(s) == S::zero_spec()
}

/// Each entry is at most every later one.
pub open spec fn ascending<S: Scalar>(keys: Seq<S>) -> bool {
    forall|i: int, j: int| 0 <= i <= j < keys.len() ==> le_spec(#[trigger] keys[i], #[trigger] keys[j])
}

/// No entry is below zero.
pub open spec fn nowhere_negative<S: Scalar>(signal: Seq<S>) -> bool {
    forall|i: int| 0 <= i < signal.len() ==> le_spec(S::zero_spec(), #[trigger] signal[i])
}

/// A table of pairs in the order of their keys gives, at or below its first
/// key, the first pair's value as it stands, and above its last key the
/// last pair's value: nothing is extrapolated.
pub proof fn tabulated_boundary_policy<S: Scalar>(
    signal: Seq<(S, S)>,
    mode: InterpolationMode,
    x: S,
)
    requires
        obeys_order_laws::<S>(),
        signal.len() > 0,
        ascending(keys_of(signal)),
    ensures
        le_spec(x, signal[0].0) ==> tabulated_eval_spec(signal, mode, x) == signal[0].1,
        lt_spec(signal[signal.len() - 1].0, x) ==> tabulated_eval_spec(signal, mode, x)
            == signal[signal.len() - 1].1,
{
    let keys = keys_of(signal);
    let n = signal.len() as int;
    if le_spec(x, signal[0].0) {
        assert forall|i: int| 0 <= i < n implies !lt_spec(#[trigger] keys[i], x) by {
            assert(le_spec(keys[0], keys[i]));
            assert(le_spec(x, keys[0]));
            assert(le_spec(x, keys[i]));
        }
        assert(partitioned_at(keys, x, 0));
        bisect_finds_partition(keys, x, 0, 0, n);
    }
    if lt_spec(signal[n - 1].0, x) {
        assert forall|i: int| 0 <= i < n implies lt_spec(#[trigger] keys[i], x) by {
            assert(le_spec(keys[i], keys[n - 1]));
            assert(lt_spec(keys[n - 1], x));
        }
        assert(partitioned_at(keys, x, n));
        bisect_finds_partition(keys, x, n, 0, n);
    }
}

/// The running sum of samples that are nowhere negative, over bins of a
/// width that is not negative, does not fall.
pub proof fn running_sum_ascends<S: Scalar>(signal: Seq<S>, width: S, i: nat, j: nat)
    requires
        obeys_order_laws::<S>(),
        obeys_ordered_arithmetic::<S>(),
        nowhere_negative(signal),
        le_spec(S::zero_spec(), width),
        i <= j <= signal.len(),
    ensures
        le_spec(running_sum_spec(signal, width, i), running_sum_spec(signal, width, j)),
    decreases j - i,
{
    if i < j {
        running_sum_ascends(signal, width, i, (j - 1) as nat);
        let before = running_sum_spec(signal, width, (j - 1) as nat);
        let term = signal[j - 1].mul_spec(width);
        assert(le_spec(S::zero_spec(), signal[j - 1]));
        assert(le_spec(S::zero_spec(), term));
        assert(le_spec(before, before.add_spec(term)));
        assert(le_spec(running_sum_spec(signal, width, i), before));
    }
}

/// The cumulative distribution of equally spaced samples starts at zero,
/// ends at one, does not fall in between and has every entry between zero
/// and one, where no sample is negative, the bins' width is not negative and
/// the samples' sum is positive.
pub proof fn linear_cdf_is_a_distribution<S: Scalar>(signal: Seq<S>, width: S)
    requires
        obeys_order_laws::<S>(),
        obeys_ordered_arithmetic::<S>(),
        nowhere_negative(signal),
        le_spec(S::zero_spec(), width),
        lt_spec(S::zero_spec(), running_sum_spec(signal, width, signal.len())),
    ensures
        linear_cdf_signal_spec(signal, width).len() == signal.len() + 1,
        linear_cdf_signal_spec(signal, width)[0] == S::zero_spec(),
        linear_cdf_signal_spec(signal, width)[signal.len() as int] == S::one_spec(),
        ascending(linear_cdf_signal_spec(signal, width)),
        forall|i: int|
            0 <= i <= signal.len() ==> le_spec(
                S::zero_spec(),
                #[trigger] linear_cdf_signal_spec(signal, width)[i],
            ) && le_spec(linear_cdf_signal_spec(signal, width)[i], S::one_spec()),
{
    let cdf = linear_cdf_signal_spec(signal, width);
    let total = running_sum_spec(signal, width, signal.len());
    assert forall|i: int| 0 <= i <= signal.len() implies le_spec(
        S::zero_spec(),
        #[trigger] cdf[i],
    ) && le_spec(cdf[i], S::one_spec()) by {
        running_sum_ascends(signal, width, 0, i as nat);
        running_sum_ascends(signal, width, i as nat, signal.len());
        assert(cdf[i] == running_sum_spec(signal, width, i as nat).div_spec(total));
        assert(cdf[0] == running_sum_spec(signal, width, 0).div_spec(total));
        assert(cdf[signal.len() as int] == total.div_spec(total));
    }
    assert(cdf[0] == running_sum_spec(signal, width, 0).div_spec(total));
    assert(cdf[signal.len() as int] == total.div_spec(total));
    assert forall|i: int, j: int| 0 <= i <= j < cdf.len() implies le_spec(
        #[trigger] cdf[i],
        #[trigger] cdf[j],
    ) by {
        running_sum_ascends(signal, width, i as nat, j as nat);
        assert(cdf[i] == running_sum_spec(signal, width, i as nat).div_spec(total));
        assert(cdf[j] == running_sum_spec(signal, width, j as nat).div_spec(total));
    }
}

/// A curve that is nowhere negative has no negative sample.
pub proof fn samples_are_not_negative<S: Scalar>(curve: CurveView<S>, bounds: Bounds1D<S>, n: nat)
    requires
        forall|x: S| le_spec(S::zero_spec(), #[trigger] curve.eval_spec(x)),
    ensures
        nowhere_negative(samples_of_spec(curve, bounds, n)),
{
}

/// The cumulative distribution that `to_cdf` makes of any curve starts at
/// zero, ends at one, does not fall from entry to entry and has every entry
/// between zero and one, where none of the samples that it sums is negative,
/// the bins' width is not negative and the total is positive.
pub proof fn cdf_is_a_distribution<S: Scalar>(
    curve: CurveView<S>,
    bounds: Bounds1D<S>,
    resolution: nat,
)
    requires
        obeys_order_laws::<S>(),
        obeys_ordered_arithmetic::<S>(),
        nowhere_negative(curve.cdf_samples_spec(bounds, resolution)),
        le_spec(S::zero_spec(), curve.cdf_width_spec(bounds, resolution)),
        lt_spec(S::zero_spec(), curve.cdf_total_spec(bounds, resolution)),
    ensures
        curve.cdf_spec(bounds, resolution) is Linear,
        curve.cdf_spec(bounds, resolution)->Linear_signal.len() == curve.cdf_samples_spec(
            bounds,
            resolution,
        ).len() + 1,
        curve.cdf_spec(bounds, resolution)->Linear_signal[0] == S::zero_spec(),
        curve.cdf_spec(bounds, resolution)->Linear_signal[curve.cdf_samples_spec(
            bounds,
            resolution,
        ).len() as int] == S::one_spec(),
        ascending(curve.cdf_spec(bounds, resolution)->Linear_signal),
        forall|i: int|
            0 <= i <= curve.cdf_samples_spec(bounds, resolution).len() ==> le_spec(
                S::zero_spec(),
                #[trigger] curve.cdf_spec(bounds, resolution)->Linear_signal[i],
            ) && le_spec(curve.cdf_spec(bounds, resolution)->Linear_signal[i], S::one_spec()),
{
    linear_cdf_is_a_distribution(
        curve.cdf_samples_spec(bounds, resolution),
        curve.cdf_width_spec(bounds, resolution),
    );
}

/// The cumulative distribution that `to_cdf` makes of any curve is zero at
/// the lower bound and one at the upper bound, where the distribution's
/// bounds are not empty and under the conditions of `cdf_is_a_distribution`.
/// The bounds are the curve's own for equally spaced samples, and those
/// handed to `to_cdf` for any other curve.
pub proof fn cdf_at_the_bounds<S: Scalar>(curve: CurveView<S>, bounds: Bounds1D<S>, resolution: nat)
    requires
        obeys_order_laws::<S>(),
        obeys_ordered_arithmetic::<S>(),
        nowhere_negative(curve.cdf_samples_spec(bounds, resolution)),
        le_spec(S::zero_spec(), curve.cdf_width_spec(bounds, resolution)),
        lt_spec(S::zero_spec(), curve.cdf_total_spec(bounds, resolution)),
        lt_spec(curve.cdf_bounds_spec(bounds).lower, curve.cdf_bounds_spec(bounds).upper),
    ensures
        curve.cdf_spec(bounds, resolution).eval_spec(curve.cdf_bounds_spec(bounds).lower)
            == S::zero_spec(),
        curve.cdf_spec(bounds, resolution).eval_spec(curve.cdf_bounds_spec(bounds).upper)
            == S::one_spec(),
{
    cdf_is_a_distribution(curve, bounds, resolution);
    let own = curve.cdf_bounds_spec(bounds);
    let cdf = curve.cdf_spec(bounds, resolution)->Linear_signal;
    let mode = curve.cdf_spec(bounds, resolution)->Linear_mode;
    assert(le_spec(own.lower, own.lower));
    assert(le_spec(own.upper, own.upper));
    assert(!le_spec(own.upper, own.lower)) by {
        if le_spec(own.upper, own.lower) {
            assert(!lt_spec(own.lower, own.upper));
        }
    }
    assert(linear_eval_spec(cdf, own, mode, own.lower) == cdf[0]);
    assert(linear_eval_spec(cdf, own, mode, own.upper) == cdf[cdf.len() - 1]);
}

/// Evaluating a curve at four wavelengths at once gives in each lane what
/// evaluating it at that lane's wavelength alone gives, for the power and
/// for the clamped value.
pub proof fn batched_evaluation_is_lane_by_lane<S: Scalar>(
    curve: Curve<S>,
    lambda: Batch4<S>,
    i: int,
)
    requires
        0 <= i < 4,
    ensures
        <Curve<S> as SpectralPowerDistributionFunction<S, Batch4<S>>>::power_of(
            &curve,
            lambda,
        ).lane_spec(i) == <Curve<S> as SpectralPowerDistributionFunction<S, S>>::power_of(
            &curve,
            lambda.lane_spec(i),
        ),
        <Curve<S> as SpectralPowerDistributionFunction<S, Batch4<S>>>::clamped_of(
            &curve,
            lambda,
        ).lane_spec(i) == <Curve<S> as SpectralPowerDistributionFunction<S, S>>::clamped_of(
            &curve,
            lambda.lane_spec(i),
        ),
{
}

/// Zero and one are neutral in `T`, a number less itself is zero, the
/// smaller of a number and itself is that number, and multiplication spreads
/// over a sum. Arithmetic that rounds keeps these only where nothing is
/// rounded.
#[verifier::opaque]
pub open spec fn obeys_sum_laws<T: Field>() -> bool {
    &&& forall|a: T| #[trigger] a.add_spec(T::zero_spec()) == a
    &&& forall|a: T| #[trigger] difference_spec(a, a) == T::zero_spec()
    &&& forall|a: T| #[trigger] a.mul_spec(T::zero_spec()) == T::zero_spec()
    &&& forall|a: T| #[trigger] T::zero_spec().mul_spec(a) == T::zero_spec()
    &&& forall|a: T| #[trigger] T::one_spec().mul_spec(a) == a
    &&& forall|a: T| #[trigger] a.min_spec(a) == a
    &&& T::zero_spec().abs_spec() == T::zero_spec()
    &&& forall|a: T, b: T, c: T|
        #[trigger] a.add_spec(b).mul_spec(c) == a.mul_spec(c).add_spec(b.mul_spec(c))
}

/// Multiplication in `T` is associative and commutative, a quotient times a
/// factor is the product's quotient, and the absolute value of a product is
/// the product of the absolute values.
#[verifier::opaque]
pub open spec fn obeys_product_laws<T: Field>() -> bool {
    &&& forall|a: T, b: T| #[trigger] a.mul_spec(b) == b.mul_spec(a)
    &&& forall|a: T, b: T, c: T| #[trigger] a.mul_spec(b).mul_spec(c) == a.mul_spec(b.mul_spec(c))
    &&& forall|a: T, b: T, d: T| #[trigger] a.div_spec(d).mul_spec(b) == a.mul_spec(b).div_spec(d)
    &&& forall|a: T, b: T| #[trigger] a.mul_spec(b).abs_spec() == a.abs_spec().mul_spec(b.abs_spec())
}

/// Counts are numbers in the usual way: none is zero, one more is one
/// added, and a count that is not zero divides out again.
#[verifier::opaque]
pub open spec fn obeys_count_laws<S: Scalar>() -> bool {
    &&& S::from_index_spec(0) == S::zero_spec()
    &&& forall|n: usize|
        n < usize::MAX ==> #[trigger] S::from_index_spec((n + 1) as usize) == S::from_index_spec(
            n,
        ).add_spec(S::one_spec())
    &&& forall|n: usize, a: S|
        n > 0 ==> S::from_index_spec(n).mul_spec(#[trigger] a.div_spec(S::from_index_spec(n))) == a
}

/// One trapezoid between two equal values is the width times the value.
proof fn flat_trapezoid<S: Scalar>(width: S, value: S)
    requires
        obeys_sum_laws::<S>(),
    ensures
        trapezoid_spec(width, value, value) == width.mul_spec(value),
{
    reveal(obeys_sum_laws);
    assert(difference_spec(value, value) == S::zero_spec());
    assert(S::from_decimal_spec(5, 1).mul_spec(S::zero_spec()) == S::zero_spec());
    assert(value.min_spec(value) == value);
    assert(value.add_spec(S::zero_spec()) == value);
}

/// `(k + 1) · w · c` is `k · w · c + w · c`.
proof fn one_step_more<S: Scalar>(before: S, width: S, value: S)
    requires
        obeys_sum_laws::<S>(),
    ensures
        before.add_spec(S::one_spec()).mul_spec(width).mul_spec(value) == before.mul_spec(
            width,
        ).mul_spec(value).add_spec(width.mul_spec(value)),
{
    reveal(obeys_sum_laws);
    assert(before.add_spec(S::one_spec()).mul_spec(width) == before.mul_spec(width).add_spec(
        S::one_spec().mul_spec(width),
    ));
    assert(S::one_spec().mul_spec(width) == width);
    assert(before.mul_spec(width).add_spec(width).mul_spec(value) == before.mul_spec(
        width,
    ).mul_spec(value).add_spec(width.mul_spec(value)));
}

/// No steps, no area.
proof fn no_step<S: Scalar>(width: S, value: S)
    requires
        obeys_sum_laws::<S>(),
        obeys_count_laws::<S>(),
    ensures
        S::from_index_spec(0).mul_spec(width).mul_spec(value) == S::zero_spec(),
{
    reveal(obeys_sum_laws);
    reveal(obeys_count_laws);
    assert(S::zero_spec().mul_spec(width) == S::zero_spec());
    assert(S::zero_spec().mul_spec(value) == S::zero_spec());
}

/// The count after `k - 1`.
proof fn next_count<S: Scalar>(k: nat)
    requires
        obeys_count_laws::<S>(),
        0 < k <= usize::MAX,
    ensures
        S::from_index_spec(k as usize) == S::from_index_spec((k - 1) as usize).add_spec(
            S::one_spec(),
        ),
{
    reveal(obeys_count_laws);
    let n = (k - 1) as usize;
    assert(S::from_index_spec((n + 1) as usize) == S::from_index_spec(n).add_spec(S::one_spec()));
}

/// What is integrated of a constant curve, the same at every place: the
/// constant floored at zero, and clamped as a reflectance where `clamped`
/// says so.
pub open spec fn constant_integrand_spec<S: Scalar>(c: S, clamped: bool) -> S {
    if clamped {
        clamp_spec(c.max_spec(S::zero_spec()), S::zero_spec(), one_sub_epsilon_spec::<S>())
    } else {
        c.max_spec(S::zero_spec())
    }
}

/// The trapezoids under a constant, step by step: after `k` steps of the
/// given width their sum is `(k · width) · v`, with `v` what is integrated.
proof fn constant_trapezoids<S: Scalar>(c: S, bounds: Bounds1D<S>, n: nat, clamped: bool, k: nat)
    requires
        obeys_sum_laws::<S>(),
        obeys_count_laws::<S>(),
        k <= usize::MAX,
    ensures
        CurveView::Const(c).trapezoid_sum_spec(bounds, n, clamped, k) == S::from_index_spec(
            k as usize,
        ).mul_spec(bin_width_spec(bounds, n)).mul_spec(constant_integrand_spec(c, clamped)),
    decreases k,
{
    let width = bin_width_spec(bounds, n);
    let value = constant_integrand_spec(c, clamped);
    let curve = CurveView::Const(c);
    if k == 0 {
        no_step(width, value);
    } else {
        constant_trapezoids(c, bounds, n, clamped, (k - 1) as nat);
        let f0 = curve.integrand_spec(clamped, step_place_spec(bounds, width, (k - 1) as nat));
        let f1 = curve.integrand_spec(clamped, step_place_spec(bounds, width, k));
        assert(f0 == value && f1 == value);
        flat_trapezoid(width, value);
        next_count::<S>(k);
        one_step_more(S::from_index_spec((k - 1) as usize), width, value);
    }
}

/// The trapezoidal rule is exact on a constant: with any number of steps
/// but none, the integral of a constant curve over the bounds is `span · v`,
/// where `v` is the constant floored at zero, and clamped as a reflectance
/// where the integral is asked for clamped.
pub proof fn integral_of_a_constant<S: Scalar>(
    c: S,
    bounds: Bounds1D<S>,
    samples: usize,
    clamped: bool,
)
    requires
        obeys_sum_laws::<S>(),
        obeys_count_laws::<S>(),
        samples > 0,
    ensures
        CurveView::Const(c).trapezoid_sum_spec(bounds, samples as nat, clamped, samples as nat)
            == bounds.span_spec().mul_spec(constant_integrand_spec(c, clamped)),
{
    constant_trapezoids(c, bounds, samples as nat, clamped, samples as nat);
    assert(S::from_index_spec(samples).mul_spec(
        bounds.span_spec().div_spec(S::from_index_spec(samples)),
    ) == bounds.span_spec()) by {
        reveal(obeys_count_laws);
    }
}

/// Going from area to solid angle and on to projected solid angle gives the
/// same density as going from area to projected solid angle at once, where a
/// product of single numbers is made into a `T` as the product of the two.
pub proof fn measure_round_trip<T: Field + FromScalar<S>, S: Scalar>(
    v: T,
    cos_i: S,
    cos_o: S,
    distance_squared: S,
)
    requires
        obeys_product_laws::<T>(),
        T::from_scalar_spec(cos_o.mul_spec(cos_i)) == T::from_scalar_spec(cos_o).mul_spec(
            T::from_scalar_spec(cos_i),
        ),
    ensures
        solid_angle_to_projected::<T, S>(
            area_to_solid_angle::<T, S>(v, cos_i, distance_squared),
            cos_o,
        ) == area_to_projected::<T, S>(v, cos_i, cos_o, distance_squared),
{
    let i = T::from_scalar_spec(cos_i).abs_spec();
    let o = T::from_scalar_spec(cos_o).abs_spec();
    let d = T::from_scalar_spec(distance_squared);
    assert(v.mul_spec(i).div_spec(d).mul_spec(o) == v.mul_spec(i).mul_spec(o).div_spec(d)) by {
        reveal(obeys_product_laws);
    }
    assert(v.mul_spec(i).mul_spec(o) == v.mul_spec(i.mul_spec(o))) by {
        reveal(obeys_product_laws);
    }
    assert(i.mul_spec(o) == o.mul_spec(i)) by {
        reveal(obeys_product_laws);
    }
    assert(T::from_scalar_spec(cos_o).mul_spec(T::from_scalar_spec(cos_i)).abs_spec() == o.mul_spec(
        i,
    )) by {
        reveal(obeys_product_laws);
    }
}

/// Any two numbers of `S` compare: one is below the other, or the other is
/// at most the one.
pub open spec fn obeys_totality<S: Scalar>() -> bool {
    forall|a: S, b: S| #[trigger] lt_spec(a, b) || le_spec(b, a)
}

/// A wavelength that is drawn from a cumulative distribution of equally
/// spaced entries lies within the distribution's bounds, where these are in
/// order.
pub proof fn drawn_wavelength_is_within_the_bounds<S: Scalar>(
    signal: Seq<S>,
    own: Bounds1D<S>,
    mode: InterpolationMode,
    x: S,
)
    requires
        obeys_order_laws::<S>(),
        obeys_totality::<S>(),
        le_spec(own.lower, own.upper),
        inverted_spec(signal, own, mode, x) is Ok,
    ensures
        le_spec(own.lower, inverted_spec(signal, own, mode, x)->Ok_0),
        le_spec(inverted_spec(signal, own, mode, x)->Ok_0, own.upper),
{
    let lambda = inverted_spec(signal, own, mode, x)->Ok_0;
    assert(le_spec(own.lower, own.lower));
    assert(le_spec(own.upper, own.upper));
    assert(lt_spec(lambda, own.lower) || le_spec(own.lower, lambda));
    assert(lt_spec(own.upper, lambda) || le_spec(lambda, own.upper));
}

/// Dividing a number that is not zero by its own quotient with a positive
/// number gives that number back: `a / (a / b) = b`.
pub open spec fn obeys_quotient_law<S: Scalar>() -> bool {
    forall|a: S, b: S|
        a != S::zero_spec() && lt_spec(S::zero_spec(), b) ==> a.div_spec(#[trigger] a.div_spec(b))
            == b
}

/// For each draw from a cumulative distribution of equally spaced entries,
/// the energy that is drawn, where it is not zero, over the density of the
/// draw is the distribution's `pdf_integral`, and so is the average of any
/// number of draws. In a distribution that `to_cdf` made, `pdf_integral` is
/// the left-rule sum of the curve over the distribution's bounds.
pub proof fn each_draw_gives_the_integral<S: Scalar>(
    curve: CurveWithCDF<S>,
    wavelength_range: Bounds1D<S>,
    u: S,
)
    requires
        obeys_quotient_law::<S>(),
        curve.cdf@ is Linear,
        curve.sample_spec(wavelength_range, u) is Ok,
        curve.sample_spec(wavelength_range, u)->Ok_0.1 != S::zero_spec(),
    ensures
        curve.sample_spec(wavelength_range, u)->Ok_0.1.div_spec(
            curve.sample_spec(wavelength_range, u)->Ok_0.2,
        ) == curve.pdf_integral,
{
}

/// The greater of a number and zero is not below zero.
pub open spec fn obeys_floor_law<S: Scalar>() -> bool {
    forall|a: S| le_spec(S::zero_spec(), #[trigger] a.max_spec(S::zero_spec()))
}

/// The power of a curve is nowhere negative, and neither is the value of a
/// constant, of a polynomial, of one less a sum of bells, or of a machine.
pub proof fn power_is_not_negative<S: Scalar>(curve: CurveView<S>, lambda: S)
    requires
        obeys_floor_law::<S>(),
    ensures
        le_spec(S::zero_spec(), curve.power_spec(lambda)),
        curve is Const || curve is Polynomial || curve is InverseExponential || curve is Machine
            ==> le_spec(S::zero_spec(), curve.eval_spec(lambda)),
{
}

/// The clamped value of a curve lies between zero and `1 - 2⁻²³`, where that
/// number is not below zero.
pub proof fn clamped_value_is_a_reflectance<S: Scalar>(curve: CurveView<S>, lambda: S)
    requires
        obeys_order_laws::<S>(),
        obeys_totality::<S>(),
        le_spec(S::zero_spec(), one_sub_epsilon_spec::<S>()),
    ensures
        le_spec(S::zero_spec(), curve.clamped_spec(lambda)),
        le_spec(curve.clamped_spec(lambda), one_sub_epsilon_spec::<S>()),
{
    let v = curve.eval_spec(lambda);
    let hi = one_sub_epsilon_spec::<S>();
    assert(le_spec(S::zero_spec(), S::zero_spec()));
    assert(le_spec(hi, hi));
    assert(lt_spec(v, S::zero_spec()) || le_spec(S::zero_spec(), v));
    assert(lt_spec(hi, v) || le_spec(v, hi));
}

/// An interval that was made from two numbers in either order has its lower
/// end at most its upper end.
pub proof fn interval_is_in_order<S: Scalar>(lower: S, upper: S)
    requires
        obeys_totality::<S>(),
    ensures
        le_spec(
            Bounds1D::<S>::from_pair_spec((lower, upper)).lower,
            Bounds1D::<S>::from_pair_spec((lower, upper)).upper,
        ),
{
    assert(lt_spec(upper, lower) || le_spec(lower, upper));
}

/// Sums, products and quotients of numbers that are not negative are not
/// negative, and neither is a square or an exponential.
pub open spec fn obeys_sign_laws<S: Scalar>() -> bool {
    &&& le_spec(S::zero_spec(), S::zero_spec())
    &&& forall|a: S, b: S|
        le_spec(S::zero_spec(), a) && le_spec(S::zero_spec(), b) ==> le_spec(
            S::zero_spec(),
            #[trigger] a.add_spec(b),
        )
    &&& forall|a: S, b: S|
        le_spec(S::zero_spec(), a) && le_spec(S::zero_spec(), b) ==> le_spec(
            S::zero_spec(),
            #[trigger] a.mul_spec(b),
        )
    &&& forall|a: S, b: S|
        le_spec(S::zero_spec(), a) && le_spec(S::zero_spec(), b) ==> le_spec(
            S::zero_spec(),
            #[trigger] a.div_spec(b),
        )
    &&& forall|a: S| le_spec(S::zero_spec(), #[trigger] a.mul_spec(a))
    &&& forall|a: S| le_spec(S::zero_spec(), #[trigger] a.exp_spec())
}

/// The curve's data are not negative, for the curves whose value is not
/// floored: no sample of equally spaced samples or of a table, where the
/// value is taken from the nearest sample; neither number of Cauchy's
/// equation; no amplitude of a sum of bells. Of samples that are
/// interpolated otherwise and of a black body nothing is said here.
pub open spec fn data_are_not_negative<S: Scalar>(curve: CurveView<S>) -> bool {
    match curve {
        CurveView::Linear { signal, bounds, mode } => mode == InterpolationMode::Nearest
            && signal.len() > 0 && nowhere_negative(signal),
        CurveView::Tabulated { signal, mode } => mode == InterpolationMode::Nearest && signal.len()
            > 0 && forall|i: int| 0 <= i < signal.len() ==> le_spec(
            S::zero_spec(),
            (#[trigger] signal[i]).1,
        ),
        CurveView::Cauchy { a, b } => le_spec(S::zero_spec(), a) && le_spec(S::zero_spec(), b),
        CurveView::Exponential { signal } => forall|i: int|
            0 <= i < signal.len() ==> le_spec(S::zero_spec(), (#[trigger] signal[i]).3),
        CurveView::Blackbody { temperature, boost } => false,
        _ => true,
    }
}

/// A sum of bells whose amplitudes are not negative is not negative.
proof fn bells_are_not_negative<S: Scalar>(signal: Seq<(S, S, S, S)>, x: S, n: nat)
    requires
        obeys_sign_laws::<S>(),
        n <= signal.len(),
        forall|i: int| 0 <= i < signal.len() ==> le_spec(S::zero_spec(), (#[trigger] signal[i]).3),
    ensures
        le_spec(S::zero_spec(), bell_sum_spec(signal, x, n)),
    decreases n,
{
    if n > 0 {
        bells_are_not_negative(signal, x, (n - 1) as nat);
        let b = signal[n - 1];
        assert(le_spec(S::zero_spec(), b.3));
        assert(le_spec(S::zero_spec(), gaussian_spec(x, b.3, b.0, b.1, b.2)));
    }
}

/// No value of a curve is negative where its data are not.
pub proof fn value_is_not_negative_where_the_data_are_not<S: Scalar>(curve: CurveView<S>, x: S)
    requires
        obeys_sign_laws::<S>(),
        obeys_floor_law::<S>(),
        data_are_not_negative(curve),
    ensures
        le_spec(S::zero_spec(), curve.eval_spec(x)),
{
    match curve {
        CurveView::Linear { signal, bounds, mode } => {
            let v = linear_eval_spec(signal, bounds, mode, x);
            assert(exists|i: int| 0 <= i < signal.len() && v == signal[i]) by {
                let index = crate::curves::bin_index_spec(bounds, signal.len(), x);
                if le_spec(x, bounds.lower) {
                    assert(v == signal[0]);
                } else if le_spec(bounds.upper, x) {
                    assert(v == signal[signal.len() - 1]);
                } else if index + 1 < signal.len() {
                    assert(v == signal[index as int] || v == signal[index + 1]);
                } else {
                    assert(v == signal[signal.len() - 1]);
                }
            }
        },
        CurveView::Tabulated { signal, mode } => {
            let v = tabulated_eval_spec(signal, mode, x);
            let index = crate::curves::bisect_spec(keys_of(signal), x, 0, signal.len() as int);
            bisect_in_range(keys_of(signal), x, 0, signal.len() as int);
            assert(exists|i: int| 0 <= i < signal.len() && v == signal[i].1) by {
                if index == signal.len() {
                    assert(v == signal[signal.len() - 1].1);
                } else if index == 0 {
                    assert(v == signal[0].1);
                } else {
                    assert(v == signal[index - 1].1 || v == signal[index].1);
                }
            }
        },
        CurveView::Cauchy { a, b } => {
            assert(le_spec(S::zero_spec(), x.mul_spec(x)));
            assert(le_spec(S::zero_spec(), b.div_spec(x.mul_spec(x))));
        },
        CurveView::Exponential { signal } => {
            bells_are_not_negative(signal, x, signal.len());
        },
        _ => {},
    }
}

} // verus!
