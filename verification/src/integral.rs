use crate::batch::Batch4;
use crate::bounds::Bounds1D;
use crate::color::{response_spec, x_bar, y_bar, z_bar, XYZColor};
use crate::curves::{bin_width_spec, Curve, CurveView};
use crate::order::{clamp, difference, difference_spec};
use crate::traits::{Abs, Field, Scalar};
use vstd::prelude::*;

verus! {

impl<S: Scalar> CurveView<S> {
    /// What is integrated: the curve's value, clamped as a reflectance where
    /// `clamped` says so.
    pub open spec fn integrand_spec(self, clamped: bool, x: S) -> S {
        if clamped {
            self.clamped_spec(x)
        } else {
            self.eval_spec(x)
        }
    }

    /// What is summed up for a color: the clamped value where `clamped`
    /// says so, the power otherwise.
    pub open spec fn color_weight_spec(self, clamped: bool, x: S) -> S {
        if clamped {
            self.clamped_spec(x)
        } else {
            self.power_spec(x)
        }
    }

    /// The trapezoids over the first `k` of `n` steps from the lower bound.
    /// The area of one, between the values `f₀` and `f₁`, is
    /// `width · (min(f₀, f₁) + ½ · |f₀ - f₁|)`.
    pub open spec fn trapezoid_sum_spec(self, bounds: Bounds1D<S>, n: nat, clamped: bool, k: nat) -> S
        decreases k,
    {
        if k == 0 {
            S::zero_spec()
        } else {
            let width = bin_width_spec(bounds, n);
            let f0 = self.integrand_spec(clamped, step_place_spec(bounds, width, (k - 1) as nat));
            let f1 = self.integrand_spec(clamped, step_place_spec(bounds, width, k));
            self.trapezoid_sum_spec(bounds, n, clamped, (k - 1) as nat).add_spec(
                trapezoid_spec(width, f0, f1),
            )
        }
    }

    /// The color summed up over the first `k` steps of the given width:
    /// at each step's start the weight times the three responses, times the
    /// width.
    pub open spec fn color_sum_spec(self, bounds: Bounds1D<S>, step_size: S, clamped: bool, k: nat)
        -> Batch4<S>
        decreases k,
    {
        if k == 0 {
            Batch4::<S>::zero_spec()
        } else {
            let lambda = bounds.lower.add_spec(
                S::from_index_spec((k - 1) as usize).mul_spec(step_size),
            );
            self.color_sum_spec(bounds, step_size, clamped, (k - 1) as nat).add_spec(
                response_spec(
                    self.color_weight_spec(clamped, lambda),
                    lambda.mul_spec(S::from_index_spec(10)),
                ).mul_spec(Batch4::<S>::splat_spec(step_size)),
            )
        }
    }
}

/// Where step `i` ends: `lower + i · width`. Step 0 ends at the lower
/// bound itself, taken as it is.
pub open spec fn step_place_spec<S: Scalar>(bounds: Bounds1D<S>, width: S, i: nat) -> S {
    if i == 0 {
        bounds.lower
    } else {
        bounds.lower.add_spec(S::from_index_spec(i as usize).mul_spec(width))
    }
}

/// The area of one trapezoid.
pub open spec fn trapezoid_spec<S: Scalar>(width: S, f0: S, f1: S) -> S {
    width.mul_spec(
        f0.min_spec(f1).add_spec(S::from_decimal_spec(5, 1).mul_spec(difference_spec(f0, f1).abs_spec())),
    )
}

impl<S: Scalar> Curve<S> {
    fn integrand(&self, clamped: bool, x: S) -> (r: S)
        requires
            self@.wf(),
        ensures
            r == self@.integrand_spec(clamped, x),
    {
        if clamped {
            clamp(self.evaluate(x), S::zero(), S::from_decimal(99999988, 8))
        } else {
            self.evaluate(x)
        }
    }

    /// The integral of the curve over the bounds by the trapezoidal rule
    /// with `samples` steps.
    pub fn evaluate_integral(&self, integration_bounds: Bounds1D<S>, samples: usize, clamped: bool)
        -> (r: S)
        requires
            self@.wf(),
        ensures
            r == self@.trapezoid_sum_spec(integration_bounds, samples as nat, clamped, samples as nat),
    {
        let step_size = integration_bounds.span().div(S::from_index(samples));
        let mut sum = S::zero();
        let mut last_f = self.integrand(clamped, integration_bounds.lower);
        let mut k: usize = 0;
        while k < samples
            invariant
                k <= samples,
                self@.wf(),
                step_size == bin_width_spec(integration_bounds, samples as nat),
                sum == self@.trapezoid_sum_spec(
                    integration_bounds,
                    samples as nat,
                    clamped,
                    k as nat,
                ),
                last_f == self@.integrand_spec(
                    clamped,
                    step_place_spec(integration_bounds, step_size, k as nat),
                ),
            decreases samples - k,
        {
            let x = integration_bounds.lower.add(S::from_index(k + 1).mul(step_size));
            let f_x = self.integrand(clamped, x);
            sum = sum.add(
                step_size.mul(
                    last_f.min(f_x).add(S::from_decimal(5, 1).mul(difference(last_f, f_x).abs())),
                ),
            );
            last_f = f_x;
            k = k + 1;
        }
        sum
    }

    /// The color of the curve: its power, or its clamped value, weighed
    /// with the three responses of the eye and summed up over the bounds in
    /// steps of `step_size` nanometres.
    pub fn convert_to_xyz(&self, integration_bounds: Bounds1D<S>, step_size: S, clamped: bool) -> (r:
        XYZColor<S>)
        requires
            self@.wf(),
        ensures
            r.0 == self@.color_sum_spec(
                integration_bounds,
                step_size,
                clamped,
                integration_bounds.span_spec().div_spec(step_size).to_index_spec() as nat,
            ),
    {
        let iterations = integration_bounds.span().div(step_size).to_index();
        let mut sum = Batch4::<S>::zero();
        let mut i: usize = 0;
        while i < iterations
            invariant
                i <= iterations,
                self@.wf(),
                sum == self@.color_sum_spec(integration_bounds, step_size, clamped, i as nat),
            decreases iterations - i,
        {
            let lambda = integration_bounds.lower.add(S::from_index(i).mul(step_size));
            let angstroms = lambda.mul(S::from_index(10));
            let val = if clamped {
                clamp(self.evaluate(lambda), S::zero(), S::from_decimal(99999988, 8))
            } else {
                self.evaluate(lambda).max(S::zero())
            };
            let term = Batch4 {
                l0: val.mul(x_bar(angstroms)),
                l1: val.mul(y_bar(angstroms)),
                l2: val.mul(z_bar(angstroms)),
                l3: S::zero(),
            };
            sum = sum.add(term.mul(Batch4::splat(step_size)));
            i = i + 1;
        }
        XYZColor(sum)
    }
}

} // verus!
