use crate::batch::Batch4;
use crate::bounds::Bounds1D;
use crate::curves::{
    bin_width_spec, bisect_spec, interpolate, interpolate_spec, search_samples, Curve, CurveView,
    InterpolationMode,
};
use crate::order::{
    clamp, clamp_spec, difference, difference_spec, eq, eq_spec, le, le_spec, lt_spec,
};
use crate::spectral::{hero_wavelength_spec, single_wavelength_spec};
use crate::traits::{Field, Scalar};
use vstd::prelude::*;

verus! {

/// A curve together with its cumulative distribution, for drawing
/// wavelengths in proportion to the curve.
#[derive(Debug)]
pub struct CurveWithCDF<S: Scalar> {
    /// The curve itself. It need not integrate to one.
    pub pdf: Curve<S>,
    /// Its running integral, divided by the total so that it starts at zero
    /// and ends at one.
    pub cdf: Curve<S>,
    /// The total that the running integral was divided by: the curve's
    /// integral over the distribution's bounds, by the left rule.
    pub pdf_integral: S,
}

impl<S: Scalar> Clone for CurveWithCDF<S> {
    /// A distribution that holds the same.
    fn clone(&self) -> (r: Self)
        ensures
            r.pdf@ == self.pdf@,
            r.cdf@ == self.cdf@,
            r.pdf_integral == self.pdf_integral,
    {
        CurveWithCDF {
            pdf: self.pdf.clone(),
            cdf: self.cdf.clone(),
            pdf_integral: self.pdf_integral,
        }
    }
}

impl<S: Scalar> Default for CurveWithCDF<S> {
    /// The distribution of the curve that is zero everywhere. Its integral
    /// is zero, so no wavelength can be drawn from it.
    fn default() -> (r: Self)
        ensures
            r.pdf@ == CurveView::Const(S::zero_spec()),
            r.cdf@ == CurveView::Const(S::zero_spec()),
            r.pdf_integral == S::zero_spec(),
    {
        CurveWithCDF {
            pdf: Curve::Const(S::zero()),
            cdf: Curve::Const(S::zero()),
            pdf_integral: S::zero(),
        }
    }
}

/// The left-rule sum of the first `n` samples, each weighed with the bin's
/// width: `Σ signal[j] · width` for `j < n`, added from the first upward.
pub open spec fn running_sum_spec<S: Scalar>(signal: Seq<S>, width: S, n: nat) -> S
    decreases n,
{
    if n == 0 {
        S::zero_spec()
    } else {
        running_sum_spec(signal, width, (n - 1) as nat).add_spec(signal[n - 1].mul_spec(width))
    }
}

/// The cumulative distribution of equally spaced samples: entry `i` is the
/// running sum before sample `i`, over the sum of all; one entry more than
/// there are samples.
pub open spec fn linear_cdf_signal_spec<S: Scalar>(signal: Seq<S>, width: S) -> Seq<S> {
    Seq::new(
        signal.len() + 1,
        |i: int|
            running_sum_spec(signal, width, i as nat).div_spec(
                running_sum_spec(signal, width, signal.len()),
            ),
    )
}

/// Place `i` of `n` equally spaced places over `bounds`, the first at the
/// lower bound: `lower + i · width`.
pub open spec fn sample_place_spec<S: Scalar>(bounds: Bounds1D<S>, n: nat, i: nat) -> S {
    bounds.lower.add_spec(S::from_index_spec(i as usize).mul_spec(bin_width_spec(bounds, n)))
}

/// A curve's values at `n` equally spaced places over `bounds`, the first
/// at the lower bound.
pub open spec fn samples_of_spec<S: Scalar>(curve: CurveView<S>, bounds: Bounds1D<S>, n: nat) -> Seq<
    S,
> {
    Seq::new(n, |i: int| curve.eval_spec(sample_place_spec(bounds, n, i as nat)))
}

impl<S: Scalar> CurveView<S> {
    /// The samples that `to_cdf` sums up: a sampled curve's own, and of any
    /// other curve its values at `resolution` places over `bounds`.
    pub open spec fn cdf_samples_spec(self, bounds: Bounds1D<S>, resolution: nat) -> Seq<S> {
        match self {
            CurveView::Linear { signal, bounds: own, mode } => signal,
            _ => samples_of_spec(self, bounds, resolution),
        }
    }

    /// The bounds of the distribution that `to_cdf` makes: a sampled
    /// curve's own, and `bounds` for any other curve.
    pub open spec fn cdf_bounds_spec(self, bounds: Bounds1D<S>) -> Bounds1D<S> {
        match self {
            CurveView::Linear { signal, bounds: own, mode } => own,
            _ => bounds,
        }
    }

    /// The width of one of the bins that `to_cdf` sums over.
    pub open spec fn cdf_width_spec(self, bounds: Bounds1D<S>, resolution: nat) -> S {
        bin_width_spec(
            self.cdf_bounds_spec(bounds),
            self.cdf_samples_spec(bounds, resolution).len(),
        )
    }

    /// The total that `to_cdf` divides by: the left-rule sum of the samples,
    /// each times the bin's width. It is the curve's integral over the
    /// distribution's bounds as far as that many samples tell it.
    pub open spec fn cdf_total_spec(self, bounds: Bounds1D<S>, resolution: nat) -> S {
        running_sum_spec(
            self.cdf_samples_spec(bounds, resolution),
            self.cdf_width_spec(bounds, resolution),
            self.cdf_samples_spec(bounds, resolution).len(),
        )
    }

    /// The cumulative distribution that `to_cdf` makes: entry `i` is the
    /// left-rule sum before sample `i`, over the total, so that the first
    /// entry stands for nothing summed and the last for all of it. For
    /// equally spaced samples it is over the curve's own bounds and with its
    /// own mode, whatever `bounds` and `resolution` are. Any other curve is
    /// sampled at `resolution` places over `bounds`, and the result is
    /// interpolated cubically.
    pub open spec fn cdf_spec(self, bounds: Bounds1D<S>, resolution: nat) -> CurveView<S> {
        CurveView::Linear {
            signal: linear_cdf_signal_spec(
                self.cdf_samples_spec(bounds, resolution),
                self.cdf_width_spec(bounds, resolution),
            ),
            bounds: self.cdf_bounds_spec(bounds),
            mode: match self {
                CurveView::Linear { signal, bounds: own, mode } => mode,
                _ => InterpolationMode::Cubic,
            },
        }
    }
}

/// Divides every entry by `total`.
fn divide_all<S: Scalar>(signal: &mut Vec<S>, total: S)
    ensures
        final(signal)@.len() == old(signal)@.len(),
        forall|i: int|
            0 <= i < old(signal)@.len() ==> (#[trigger] final(signal)@[i]) == old(signal)@[i].div_spec(
                total,
            ),
{
    let mut i: usize = 0;
    let ghost before = signal@;
    while i < signal.len()
        invariant
            i <= signal@.len(),
            signal@.len() == before.len(),
            forall|j: int| 0 <= j < i ==> (#[trigger] signal@[j]) == before[j].div_spec(total),
            forall|j: int| i <= j < before.len() ==> (#[trigger] signal@[j]) == before[j],
        decreases signal@.len() - i,
    {
        let v = signal[i];
        signal.set(i, v.div(total));
        i = i + 1;
    }
}

impl<S: Scalar> Curve<S> {
    /// The curve with its cumulative distribution.
    pub fn to_cdf(&self, bounds: Bounds1D<S>, resolution: usize) -> (r: CurveWithCDF<S>)
        requires
            self@.wf(),
        ensures
            r.pdf@ == self@,
            r.cdf@ == self@.cdf_spec(bounds, resolution as nat),
            r.pdf_integral == self@.cdf_total_spec(bounds, resolution as nat),
    {
        match self {
            Curve::Linear { signal, bounds: own, mode } => {
                let width = own.span().div(S::from_index(signal.len()));
                let mut cdf_signal: Vec<S> = Vec::new();
                let mut s = S::zero();
                let mut i: usize = 0;
                while i < signal.len()
                    invariant
                        i <= signal@.len(),
                        cdf_signal@.len() == i,
                        s == running_sum_spec(signal@, width, i as nat),
                        forall|j: int|
                            0 <= j < i ==> (#[trigger] cdf_signal@[j]) == running_sum_spec(
                                signal@,
                                width,
                                j as nat,
                            ),
                    decreases signal@.len() - i,
                {
                    cdf_signal.push(s);
                    s = s.add(signal[i].mul(width));
                    i = i + 1;
                }
                cdf_signal.push(s);
                divide_all(&mut cdf_signal, s);
                assert(cdf_signal@ =~= linear_cdf_signal_spec(signal@, width));
                CurveWithCDF {
                    pdf: self.clone(),
                    cdf: Curve::Linear { signal: cdf_signal, bounds: *own, mode: *mode },
                    pdf_integral: s,
                }
            },
            _ => {
                let width = bounds.span().div(S::from_index(resolution));
                let ghost samples = samples_of_spec(self@, bounds, resolution as nat);
                let mut cdf_signal: Vec<S> = Vec::new();
                let mut s = S::zero();
                let mut i: usize = 0;
                while i < resolution
                    invariant
                        i <= resolution,
                        self@.wf(),
                        cdf_signal@.len() == i,
                        samples == samples_of_spec(self@, bounds, resolution as nat),
                        width == bin_width_spec(bounds, resolution as nat),
                        s == running_sum_spec(samples, width, i as nat),
                        forall|j: int|
                            0 <= j < i ==> (#[trigger] cdf_signal@[j]) == running_sum_spec(
                                samples,
                                width,
                                j as nat,
                            ),
                    decreases resolution - i,
                {
                    let lambda = bounds.lower.add(S::from_index(i).mul(width));
                    cdf_signal.push(s);
                    assert(samples[i as int] == self@.eval_spec(lambda));
                    s = s.add(self.evaluate(lambda).mul(width));
                    i = i + 1;
                }
                cdf_signal.push(s);
                divide_all(&mut cdf_signal, s);
                assert(cdf_signal@ =~= linear_cdf_signal_spec(samples, width));
                CurveWithCDF {
                    pdf: self.clone(),
                    cdf: Curve::Linear {
                        signal: cdf_signal,
                        bounds,
                        mode: InterpolationMode::Cubic,
                    },
                    pdf_integral: s,
                }
            },
        }
    }
}

/// Why no wavelength could be drawn.
#[derive(Copy, Clone, Debug, PartialEq, Eq, Structural)]
pub enum SampleError {
    /// The curve's integral is not greater than zero.
    ZeroIntegral,
    /// The draw lies above every entry of the cumulative distribution, which
    /// therefore does not end where it should.
    AboveDistribution,
    /// The draw does not lie between the two entries that were found for
    /// it, as happens where entries of the cumulative distribution do not
    /// compare with it.
    FractionOutOfRange,
}

/// The draw `u` of the unit interval, brought between the cumulative
/// distribution's values at the two ends of the part of its bounds that lies
/// in `range`: `lo + u · (hi - lo)`.
pub open spec fn remapped_sample_spec<S: Scalar>(
    cdf: CurveView<S>,
    own: Bounds1D<S>,
    range: Bounds1D<S>,
    u: S,
) -> S {
    let restricted = own.intersection_spec(range);
    let lo = cdf.eval_spec(restricted.lower);
    let hi = cdf.eval_spec(restricted.upper);
    lo.add_spec(u.mul_spec(difference_spec(hi, lo)))
}

/// The place of entry `index` of `n` entries over `own`:
/// `lower + index · (upper - lower) / n`.
pub open spec fn entry_place_spec<S: Scalar>(own: Bounds1D<S>, n: nat, index: S) -> S {
    own.lower.add_spec(
        index.mul_spec(difference_spec(own.upper, own.lower)).div_spec(
            S::from_index_spec(n as usize),
        ),
    )
}

/// How far `x` lies from `v0` toward `v1`, as a fraction; zero where the two
/// are equal.
pub open spec fn inverse_fraction_spec<S: Scalar>(v0: S, v1: S, x: S) -> S {
    if eq_spec(v0, v1) {
        S::zero_spec()
    } else {
        difference_spec(x, v0).div_spec(difference_spec(v1, v0))
    }
}

/// The wavelength at which a cumulative distribution of equally spaced
/// entries reaches `x`.
///
/// The entries are searched for the first that is not below `x`. If that is
/// the first entry, the wavelength is the lower bound. Otherwise the
/// interpolation between the entry before and the entry found is inverted:
/// exactly for `Linear`; for `Nearest` and `Cubic` the fraction of the
/// linear case is put into the forward weights, which is an approximation.
/// The result is held within the bounds.
pub open spec fn inverted_spec<S: Scalar>(
    signal: Seq<S>,
    own: Bounds1D<S>,
    mode: InterpolationMode,
    x: S,
) -> Result<S, SampleError> {
    let index = bisect_spec(signal, x, 0, signal.len() as int);
    if index == 0 {
        Ok(own.lower)
    } else if index >= signal.len() {
        Err(SampleError::AboveDistribution)
    } else {
        let at = S::from_index_spec(index as usize);
        let left = entry_place_spec(own, signal.len(), difference_spec(at, S::one_spec()));
        let right = entry_place_spec(own, signal.len(), at);
        let t = inverse_fraction_spec(signal[index - 1], signal[index], x);
        if le_spec(S::zero_spec(), t) && le_spec(t, S::one_spec()) {
            Ok(clamp_spec(interpolate_spec(mode, t, left, right), own.lower, own.upper))
        } else {
            Err(SampleError::FractionOutOfRange)
        }
    }
}

pub(crate) fn invert<S: Scalar>(signal: &Vec<S>, own: &Bounds1D<S>, mode: InterpolationMode, x: S) -> (r:
    Result<S, SampleError>)
    ensures
        r == inverted_spec(signal@, *own, mode, x),
{
    let index = search_samples(signal, x);
    if index == 0 {
        return Ok(own.lower);
    }
    if index >= signal.len() {
        return Err(SampleError::AboveDistribution);
    }
    let at = S::from_index(index);
    let n = S::from_index(signal.len());
    let width = difference(own.upper, own.lower);
    let left = own.lower.add(difference(at, S::one()).mul(width).div(n));
    let right = own.lower.add(at.mul(width).div(n));
    let v0 = signal[index - 1];
    let v1 = signal[index];
    let t = if eq(&v0, &v1) {
        S::zero()
    } else {
        difference(x, v0).div(difference(v1, v0))
    };
    if le(&S::zero(), &t) && le(&t, &S::one()) {
        Ok(clamp(interpolate(mode, t, left, right), own.lower, own.upper))
    } else {
        Err(SampleError::FractionOutOfRange)
    }
}

impl<S: Scalar> CurveView<S> {
    /// A wavelength drawn evenly from `range`, with the curve's value
    /// there and the density of the even draw: `(λ, value, 1 / span)`.
    pub open spec fn uniform_sample_spec(self, range: Bounds1D<S>, u: S) -> (S, S, S) {
        let lambda = single_wavelength_spec(u, range);
        (lambda, self.eval_spec(lambda), S::one_spec().div_spec(range.span_spec()))
    }

    /// Four wavelengths drawn evenly from `range` by one draw, with the
    /// curve's power at each and the density of the even draw in every lane.
    pub open spec fn uniform_hero_spec(self, range: Bounds1D<S>, u: S) -> (
        Batch4<S>,
        Batch4<S>,
        Batch4<S>,
    ) {
        let lambda = hero_lanes_spec(u, range);
        (
            lambda,
            self.power_lanes_spec(lambda),
            Batch4::<S>::splat_spec(S::one_spec().div_spec(range.span_spec())),
        )
    }

    /// The curve's power in each of four lanes: what four evaluations, one
    /// for each lane, give.
    pub open spec fn power_lanes_spec(self, lambda: Batch4<S>) -> Batch4<S> {
        Batch4 {
            l0: self.power_spec(lambda.l0),
            l1: self.power_spec(lambda.l1),
            l2: self.power_spec(lambda.l2),
            l3: self.power_spec(lambda.l3),
        }
    }

    /// The curve's clamped value in each of four lanes.
    pub open spec fn clamped_lanes_spec(self, lambda: Batch4<S>) -> Batch4<S> {
        Batch4 {
            l0: self.clamped_spec(lambda.l0),
            l1: self.clamped_spec(lambda.l1),
            l2: self.clamped_spec(lambda.l2),
            l3: self.clamped_spec(lambda.l3),
        }
    }
}

/// The four wavelengths that one draw gives.
pub open spec fn hero_lanes_spec<S: Scalar>(u: S, range: Bounds1D<S>) -> Batch4<S> {
    Batch4 {
        l0: hero_wavelength_spec(u, range, 0),
        l1: hero_wavelength_spec(u, range, 1),
        l2: hero_wavelength_spec(u, range, 2),
        l3: hero_wavelength_spec(u, range, 3),
    }
}

impl<S: Scalar> CurveWithCDF<S> {
    /// Both curves can be evaluated.
    pub open spec fn wf(self) -> bool {
        self.pdf@.wf() && self.cdf@.wf()
    }

    /// The wavelength that the draw `u` picks, where `range` restricts the
    /// wavelengths wanted. Only a cumulative distribution of equally spaced
    /// entries is inverted.
    pub open spec fn drawn_lambda_spec(self, range: Bounds1D<S>, u: S) -> Result<S, SampleError>
        recommends
            self.cdf@ is Linear,
    {
        inverted_spec(
            self.cdf@->Linear_signal,
            self.cdf@->Linear_bounds,
            self.cdf@->Linear_mode,
            remapped_sample_spec(self.cdf@, self.cdf@->Linear_bounds, range, u),
        )
    }

    /// What a draw gives: the wavelength, the curve's value there, and the
    /// density with which that wavelength is drawn, the value over the
    /// curve's integral.
    ///
    /// A constant cumulative distribution stands for an even draw from
    /// `range`, with the constant as the value. One of any other shape but
    /// equally spaced entries falls back on the curve's own even draw.
    pub open spec fn sample_spec(self, range: Bounds1D<S>, u: S) -> Result<(S, S, S), SampleError> {
        if !lt_spec(S::zero_spec(), self.pdf_integral) {
            Err(SampleError::ZeroIntegral)
        } else {
            match self.cdf@ {
                CurveView::Const(v) => Ok(
                    (range.lerp_spec(u), v, S::one_spec().div_spec(self.pdf_integral)),
                ),
                CurveView::Linear { signal, bounds, mode } => match self.drawn_lambda_spec(
                    range,
                    u,
                ) {
                    Ok(lambda) => Ok(
                        (
                            lambda,
                            self.pdf@.eval_spec(lambda),
                            self.pdf@.eval_spec(lambda).div_spec(self.pdf_integral),
                        ),
                    ),
                    Err(e) => Err(e),
                },
                _ => Ok(self.pdf@.uniform_sample_spec(range, u)),
            }
        }
    }

    /// What a draw of four wavelengths gives: the wavelengths, the curve's
    /// power at each, and a density.
    ///
    /// One wavelength is drawn as for a single draw; the others follow it
    /// at quarters of the cumulative distribution's own bounds. The power is
    /// that of the curve in each lane. The density is that of the first lane
    /// in all four lanes.
    pub open spec fn hero_sample_spec(self, range: Bounds1D<S>, u: S) -> Result<
        (Batch4<S>, Batch4<S>, Batch4<S>),
        SampleError,
    > {
        if !lt_spec(S::zero_spec(), self.pdf_integral) {
            Err(SampleError::ZeroIntegral)
        } else {
            match self.cdf@ {
                CurveView::Const(v) => Ok(
                    (
                        hero_lanes_spec(u, range),
                        Batch4::<S>::splat_spec(v),
                        Batch4::<S>::splat_spec(S::one_spec().div_spec(self.pdf_integral)),
                    ),
                ),
                CurveView::Linear { signal, bounds, mode } => match self.drawn_lambda_spec(
                    range,
                    u,
                ) {
                    Ok(hero) => {
                        let correlated = difference_spec(hero, bounds.lower).div_spec(
                            bounds.span_spec(),
                        );
                        let lambda = hero_lanes_spec(correlated, bounds);
                        let power = self.pdf@.power_lanes_spec(lambda);
                        Ok(
                            (
                                lambda,
                                power,
                                Batch4::<S>::splat_spec(power.l0.div_spec(self.pdf_integral)),
                            ),
                        )
                    },
                    Err(e) => Err(e),
                },
                _ => Ok(self.pdf@.uniform_hero_spec(range, u)),
            }
        }
    }
}

} // verus!
