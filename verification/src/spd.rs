use crate::batch::Batch4;
use crate::bounds::Bounds1D;
use crate::cdf::{invert, CurveWithCDF, SampleError};
use crate::curves::{Curve, CurveView, InterpolationMode};
use crate::order::{clamp, difference, lt};
use crate::pdf::PDF;
use crate::sample::Sample1D;
use crate::spectral::{WavelengthEnergy, WavelengthEnergyTrait};
use crate::traits::{Field, Scalar, Uniform01};
use vstd::prelude::*;

verus! {

/// A spectral power distribution: something that has a power at each
/// wavelength and that wavelengths can be drawn from. `T` is a single
/// number, or a batch of four that are worked on together.
pub trait SpectralPowerDistributionFunction<S: Scalar, T: Field> {
    /// The distribution can be evaluated.
    spec fn ready(&self) -> bool;

    /// The power at `lambda`.
    spec fn power_of(&self, lambda: T) -> T;

    /// The value at `lambda` as a reflectance.
    spec fn clamped_of(&self, lambda: T) -> T;

    /// What a draw gives, where it gives anything: the wavelength, the
    /// energy there, and the density of the draw.
    spec fn sample_of(&self, wavelength_range: Bounds1D<S>, sample: Sample1D<S>) -> Option<
        (T, T, T),
    >;

    fn evaluate_power(&self, lambda: T) -> (r: T)
        requires
            self.ready(),
        ensures
            r == self.power_of(lambda),
    ;

    fn evaluate_clamped(&self, lambda: T) -> (r: T)
        requires
            self.ready(),
        ensures
            r == self.clamped_of(lambda),
    ;

    /// Draws a wavelength from `wavelength_range` with the number `sample`
    /// of the unit interval.
    fn sample_power_and_pdf(&self, wavelength_range: Bounds1D<S>, sample: Sample1D<S>) -> (r: (
        WavelengthEnergy<T, T>,
        PDF<T, Uniform01>,
    ))
        requires
            self.ready(),
            self.sample_of(wavelength_range, sample) is Some,
        ensures
            r.0.lambda == self.sample_of(wavelength_range, sample).unwrap().0,
            r.0.energy == self.sample_of(wavelength_range, sample).unwrap().1,
            r.1.density() == self.sample_of(wavelength_range, sample).unwrap().2,
            r.1.label() == (Uniform01 {  }),
    ;
}

/// The power of a curve in each of four lanes.
fn power_lanes<S: Scalar>(curve: &Curve<S>, lambda: Batch4<S>) -> (r: Batch4<S>)
    requires
        curve@.wf(),
    ensures
        r == curve@.power_lanes_spec(lambda),
{
    Batch4 {
        l0: curve.evaluate(lambda.l0).max(S::zero()),
        l1: curve.evaluate(lambda.l1).max(S::zero()),
        l2: curve.evaluate(lambda.l2).max(S::zero()),
        l3: curve.evaluate(lambda.l3).max(S::zero()),
    }
}

impl<S: Scalar> SpectralPowerDistributionFunction<S, S> for Curve<S> {
    open spec fn ready(&self) -> bool {
        self@.wf()
    }

    open spec fn power_of(&self, lambda: S) -> S {
        self@.power_spec(lambda)
    }

    open spec fn clamped_of(&self, lambda: S) -> S {
        self@.clamped_spec(lambda)
    }

    /// A curve by itself is drawn from evenly.
    open spec fn sample_of(&self, wavelength_range: Bounds1D<S>, sample: Sample1D<S>) -> Option<
        (S, S, S),
    > {
        Some(self@.uniform_sample_spec(wavelength_range, sample.x))
    }

    fn evaluate_power(&self, lambda: S) -> (r: S) {
        self.evaluate(lambda).max(S::zero())
    }

    fn evaluate_clamped(&self, lambda: S) -> (r: S) {
        clamp(self.evaluate(lambda), S::zero(), S::from_decimal(99999988, 8))
    }

    fn sample_power_and_pdf(&self, wavelength_range: Bounds1D<S>, sample: Sample1D<S>) -> (r: (
        WavelengthEnergy<S, S>,
        PDF<S, Uniform01>,
    )) {
        let ws = <WavelengthEnergy<S, S> as WavelengthEnergyTrait<S, S, S>>::new_from_range(
            sample.x,
            wavelength_range,
        );
        let energy = self.evaluate(ws.lambda);
        (ws.replace_energy(energy), PDF::new(S::one().div(wavelength_range.span())))
    }
}

impl<S: Scalar> SpectralPowerDistributionFunction<S, Batch4<S>> for Curve<S> {
    open spec fn ready(&self) -> bool {
        self@.wf()
    }

    open spec fn power_of(&self, lambda: Batch4<S>) -> Batch4<S> {
        self@.power_lanes_spec(lambda)
    }

    open spec fn clamped_of(&self, lambda: Batch4<S>) -> Batch4<S> {
        self@.clamped_lanes_spec(lambda)
    }

    open spec fn sample_of(&self, wavelength_range: Bounds1D<S>, sample: Sample1D<S>) -> Option<
        (Batch4<S>, Batch4<S>, Batch4<S>),
    > {
        Some(self@.uniform_hero_spec(wavelength_range, sample.x))
    }

    fn evaluate_power(&self, lambda: Batch4<S>) -> (r: Batch4<S>) {
        power_lanes(self, lambda)
    }

    fn evaluate_clamped(&self, lambda: Batch4<S>) -> (r: Batch4<S>) {
        let lo = S::zero();
        let hi = S::from_decimal(99999988, 8);
        Batch4 {
            l0: clamp(self.evaluate(lambda.l0), lo, hi),
            l1: clamp(self.evaluate(lambda.l1), lo, hi),
            l2: clamp(self.evaluate(lambda.l2), lo, hi),
            l3: clamp(self.evaluate(lambda.l3), lo, hi),
        }
    }

    fn sample_power_and_pdf(&self, wavelength_range: Bounds1D<S>, sample: Sample1D<S>) -> (r: (
        WavelengthEnergy<Batch4<S>, Batch4<S>>,
        PDF<Batch4<S>, Uniform01>,
    )) {
        let ws = <WavelengthEnergy<Batch4<S>, Batch4<S>> as WavelengthEnergyTrait<
            S,
            Batch4<S>,
            Batch4<S>,
        >>::new_from_range(sample.x, wavelength_range);
        let energy = power_lanes(self, ws.lambda);
        (ws.replace_energy(energy), PDF::new(Batch4::splat(S::one().div(wavelength_range.span()))))
    }
}

impl<S: Scalar> CurveWithCDF<S> {
    /// Whether both curves can be evaluated.
    pub fn is_well_formed(&self) -> (r: bool)
        ensures
            r == self.wf(),
    {
        self.pdf.is_well_formed() && self.cdf.is_well_formed()
    }

    /// The wavelength that a draw picks from a cumulative distribution of
    /// equally spaced entries, which are handed over beside the curve.
    fn draw_lambda(
        &self,
        signal: &Vec<S>,
        bounds: &Bounds1D<S>,
        mode: InterpolationMode,
        wavelength_range: Bounds1D<S>,
        u: S,
    ) -> (r: Result<S, SampleError>)
        requires
            self.wf(),
            self.cdf@ == (CurveView::Linear { signal: signal@, bounds: *bounds, mode }),
        ensures
            r == self.drawn_lambda_spec(wavelength_range, u),
    {
        let restricted = bounds.intersection(wavelength_range);
        let lower_cdf_value = self.cdf.evaluate(restricted.lower);
        let upper_cdf_value = self.cdf.evaluate(restricted.upper);
        let x = lower_cdf_value.add(u.mul(difference(upper_cdf_value, lower_cdf_value)));
        invert(signal, bounds, mode, x)
    }

    /// Draws a wavelength in proportion to the curve, or says why none can
    /// be drawn.
    pub fn try_sample_power_and_pdf(&self, wavelength_range: Bounds1D<S>, sample: Sample1D<S>) -> (r:
        Result<(WavelengthEnergy<S, S>, PDF<S, Uniform01>), SampleError>)
        requires
            self.wf(),
        ensures
            r is Ok <==> self.sample_spec(wavelength_range, sample.x) is Ok,
            r is Err ==> r->Err_0 == self.sample_spec(wavelength_range, sample.x)->Err_0,
            r is Ok ==> {
                let v = self.sample_spec(wavelength_range, sample.x)->Ok_0;
                let w = r->Ok_0;
                w.0.lambda == v.0 && w.0.energy == v.1 && w.1.density() == v.2 && w.1.label() == (
                Uniform01 {  })
            },
    {
        if !lt(&S::zero(), &self.pdf_integral) {
            return Err(SampleError::ZeroIntegral);
        }
        match &self.cdf {
            Curve::Const(v) => Ok(
                (
                    WavelengthEnergy { lambda: wavelength_range.sample(sample.x), energy: *v },
                    PDF::new(S::one().div(self.pdf_integral)),
                ),
            ),
            Curve::Linear { signal, bounds, mode } => {
                match self.draw_lambda(signal, bounds, *mode, wavelength_range, sample.x) {
                    Ok(lambda) => {
                        let power = self.pdf.evaluate(lambda);
                        Ok(
                            (
                                WavelengthEnergy { lambda, energy: power },
                                PDF::new(power.div(self.pdf_integral)),
                            ),
                        )
                    },
                    Err(e) => Err(e),
                }
            },
            _ => Ok(
                <Curve<S> as SpectralPowerDistributionFunction<S, S>>::sample_power_and_pdf(
                    &self.pdf,
                    wavelength_range,
                    sample,
                ),
            ),
        }
    }

    /// Draws four wavelengths by one draw, or says why none can be drawn.
    pub fn try_sample_power_and_pdf_hero(
        &self,
        wavelength_range: Bounds1D<S>,
        sample: Sample1D<S>,
    ) -> (r: Result<
        (WavelengthEnergy<Batch4<S>, Batch4<S>>, PDF<Batch4<S>, Uniform01>),
        SampleError,
    >)
        requires
            self.wf(),
        ensures
            r is Ok <==> self.hero_sample_spec(wavelength_range, sample.x) is Ok,
            r is Err ==> r->Err_0 == self.hero_sample_spec(wavelength_range, sample.x)->Err_0,
            r is Ok ==> {
                let v = self.hero_sample_spec(wavelength_range, sample.x)->Ok_0;
                let w = r->Ok_0;
                w.0.lambda == v.0 && w.0.energy == v.1 && w.1.density() == v.2 && w.1.label() == (
                Uniform01 {  })
            },
    {
        if !lt(&S::zero(), &self.pdf_integral) {
            return Err(SampleError::ZeroIntegral);
        }
        match &self.cdf {
            Curve::Const(v) => {
                let ws = <WavelengthEnergy<Batch4<S>, Batch4<S>> as WavelengthEnergyTrait<
                    S,
                    Batch4<S>,
                    Batch4<S>,
                >>::new_from_range(sample.x, wavelength_range);
                Ok(
                    (
                        ws.replace_energy(Batch4::splat(*v)),
                        PDF::new(Batch4::splat(S::one().div(self.pdf_integral))),
                    ),
                )
            },
            Curve::Linear { signal, bounds, mode } => {
                match self.draw_lambda(signal, bounds, *mode, wavelength_range, sample.x) {
                    Ok(hero_lambda) => {
                        let correlated = difference(hero_lambda, bounds.lower).div(bounds.span());
                        let out_we = <WavelengthEnergy<
                            Batch4<S>,
                            Batch4<S>,
                        > as WavelengthEnergyTrait<S, Batch4<S>, Batch4<S>>>::new_from_range(
                            correlated,
                            *bounds,
                        );
                        let power = power_lanes(&self.pdf, out_we.lambda);
                        Ok(
                            (
                                out_we.replace_energy(power),
                                PDF::new(Batch4::splat(power.l0.div(self.pdf_integral))),
                            ),
                        )
                    },
                    Err(e) => Err(e),
                }
            },
            _ => Ok(
                <Curve<S> as SpectralPowerDistributionFunction<S, Batch4<S>>>::sample_power_and_pdf(
                    &self.pdf,
                    wavelength_range,
                    sample,
                ),
            ),
        }
    }
}

impl<S: Scalar> SpectralPowerDistributionFunction<S, S> for CurveWithCDF<S> {
    open spec fn ready(&self) -> bool {
        self.wf()
    }

    open spec fn power_of(&self, lambda: S) -> S {
        self.pdf@.eval_spec(lambda)
    }

    open spec fn clamped_of(&self, lambda: S) -> S {
        self.pdf@.clamped_spec(lambda)
    }

    open spec fn sample_of(&self, wavelength_range: Bounds1D<S>, sample: Sample1D<S>) -> Option<
        (S, S, S),
    > {
        match self.sample_spec(wavelength_range, sample.x) {
            Ok(v) => Some(v),
            Err(_) => None,
        }
    }

    fn evaluate_power(&self, lambda: S) -> (r: S) {
        self.pdf.evaluate(lambda)
    }

    fn evaluate_clamped(&self, lambda: S) -> (r: S) {
        <Curve<S> as SpectralPowerDistributionFunction<S, S>>::evaluate_clamped(&self.pdf, lambda)
    }

    fn sample_power_and_pdf(&self, wavelength_range: Bounds1D<S>, sample: Sample1D<S>) -> (r: (
        WavelengthEnergy<S, S>,
        PDF<S, Uniform01>,
    )) {
        self.try_sample_power_and_pdf(wavelength_range, sample).unwrap()
    }
}

impl<S: Scalar> SpectralPowerDistributionFunction<S, Batch4<S>> for CurveWithCDF<S> {
    open spec fn ready(&self) -> bool {
        self.wf()
    }

    open spec fn power_of(&self, lambda: Batch4<S>) -> Batch4<S> {
        self.pdf@.power_lanes_spec(lambda)
    }

    open spec fn clamped_of(&self, lambda: Batch4<S>) -> Batch4<S> {
        self.pdf@.clamped_lanes_spec(lambda)
    }

    open spec fn sample_of(&self, wavelength_range: Bounds1D<S>, sample: Sample1D<S>) -> Option<
        (Batch4<S>, Batch4<S>, Batch4<S>),
    > {
        match self.hero_sample_spec(wavelength_range, sample.x) {
            Ok(v) => Some(v),
            Err(_) => None,
        }
    }

    fn evaluate_power(&self, lambda: Batch4<S>) -> (r: Batch4<S>) {
        power_lanes(&self.pdf, lambda)
    }

    fn evaluate_clamped(&self, lambda: Batch4<S>) -> (r: Batch4<S>) {
        <Curve<S> as SpectralPowerDistributionFunction<S, Batch4<S>>>::evaluate_clamped(
            &self.pdf,
            lambda,
        )
    }

    fn sample_power_and_pdf(&self, wavelength_range: Bounds1D<S>, sample: Sample1D<S>) -> (r: (
        WavelengthEnergy<Batch4<S>, Batch4<S>>,
        PDF<Batch4<S>, Uniform01>,
    )) {
        self.try_sample_power_and_pdf_hero(wavelength_range, sample).unwrap()
    }
}

} // verus!
