use crate::batch::Batch4;
use crate::bounds::Bounds1D;
use crate::order::{difference, difference_spec, lt, lt_spec};
use crate::traits::{Field, Scalar};
use vstd::prelude::*;

verus! {

/// The range of wavelengths that is taken as visible, 380 to 780 nanometres.
pub fn bounded_visible_range<S: Scalar>() -> (r: Bounds1D<S>)
    ensures
        r == (Bounds1D { lower: S::from_index_spec(380), upper: S::from_index_spec(780) }),
{
    Bounds1D { lower: S::from_index(380), upper: S::from_index(780) }
}

/// The visible range with a margin of ten nanometres at either end.
pub fn extended_visible_range<S: Scalar>() -> (r: Bounds1D<S>)
    ensures
        r == (Bounds1D { lower: S::from_index_spec(370), upper: S::from_index_spec(790) }),
{
    Bounds1D { lower: S::from_index(370), upper: S::from_index(790) }
}

/// One wavelength with its energy.
pub type SingleWavelength<S> = WavelengthEnergy<S, S>;

/// Four wavelengths from one draw, with their energies.
pub type HeroWavelength<S> = WavelengthEnergy<Batch4<S>, Batch4<S>>;

/// A wavelength, or a batch of wavelengths, with the energy carried at it.
#[derive(Copy, Clone, Debug, PartialEq)]
pub struct WavelengthEnergy<L: Field, E: Field> {
    pub lambda: L,
    pub energy: E,
}

impl<L: Field, E: Field> WavelengthEnergy<L, E> {
    /// The same wavelength with the energy `e`.
    pub fn replace_energy(self, e: E) -> (r: Self)
        ensures
            r.lambda == self.lambda,
            r.energy == e,
    {
        WavelengthEnergy { lambda: self.lambda, energy: e }
    }
}

/// One wavelength that was drawn from an interval by `sample`:
/// `lower + sample · span`.
pub open spec fn single_wavelength_spec<S: Scalar>(sample: S, bounds: Bounds1D<S>) -> S {
    bounds.lower.add_spec(sample.mul_spec(bounds.span_spec()))
}

/// Lane `i` of the four wavelengths that one draw gives: the drawn one
/// moved up by `i` quarters of the span, and brought back by one span where
/// that leaves the interval at its upper end.
pub open spec fn hero_wavelength_spec<S: Scalar>(sample: S, bounds: Bounds1D<S>, i: usize) -> S {
    let hero = sample.mul_spec(bounds.span_spec());
    let delta = bounds.span_spec().div_spec(S::from_index_spec(4));
    let w = bounds.lower.add_spec(hero.add_spec(S::from_index_spec(i).mul_spec(delta)));
    if lt_spec(bounds.upper, w) {
        difference_spec(w, bounds.span_spec())
    } else {
        difference_spec(w, S::zero_spec())
    }
}

/// Making a wavelength with its energy from its parts, or by drawing from an
/// interval.
pub trait WavelengthEnergyTrait<S: Scalar, L: Field, E: Field> {
    /// What `new_from_range` returns.
    spec fn new_from_range_spec(sample: S, bounds: Bounds1D<S>) -> WavelengthEnergy<L, E>;

    fn new(lambda: L, energy: E) -> (r: WavelengthEnergy<L, E>)
        ensures
            r.lambda == lambda,
            r.energy == energy,
    ;

    /// The wavelength that `sample`, a number of the unit interval, picks
    /// from `bounds`, with no energy yet.
    fn new_from_range(sample: S, bounds: Bounds1D<S>) -> (r: WavelengthEnergy<L, E>)
        ensures
            r == Self::new_from_range_spec(sample, bounds),
    ;
}

impl<S: Scalar> WavelengthEnergyTrait<S, S, S> for WavelengthEnergy<S, S> {
    open spec fn new_from_range_spec(sample: S, bounds: Bounds1D<S>) -> WavelengthEnergy<S, S> {
        WavelengthEnergy { lambda: single_wavelength_spec(sample, bounds), energy: S::zero_spec() }
    }

    fn new(lambda: S, energy: S) -> (r: WavelengthEnergy<S, S>) {
        WavelengthEnergy { lambda, energy }
    }

    fn new_from_range(sample: S, bounds: Bounds1D<S>) -> (r: WavelengthEnergy<S, S>) {
        WavelengthEnergy { lambda: bounds.lower.add(sample.mul(bounds.span())), energy: S::zero() }
    }
}

/// One lane of a hero wavelength.
fn hero_lane<S: Scalar>(sample: S, bounds: Bounds1D<S>, i: usize) -> (r: S)
    ensures
        r == hero_wavelength_spec(sample, bounds, i),
{
    let hero = sample.mul(bounds.span());
    let delta = bounds.span().div(S::from_index(4));
    let w = bounds.lower.add(hero.add(S::from_index(i).mul(delta)));
    if lt(&bounds.upper, &w) {
        difference(w, bounds.span())
    } else {
        difference(w, S::zero())
    }
}

impl<S: Scalar> WavelengthEnergyTrait<S, Batch4<S>, Batch4<S>> for WavelengthEnergy<
    Batch4<S>,
    Batch4<S>,
> {
    open spec fn new_from_range_spec(sample: S, bounds: Bounds1D<S>) -> WavelengthEnergy<
        Batch4<S>,
        Batch4<S>,
    > {
        WavelengthEnergy {
            lambda: Batch4 {
                l0: hero_wavelength_spec(sample, bounds, 0),
                l1: hero_wavelength_spec(sample, bounds, 1),
                l2: hero_wavelength_spec(sample, bounds, 2),
                l3: hero_wavelength_spec(sample, bounds, 3),
            },
            energy: Batch4::<S>::zero_spec(),
        }
    }

    fn new(lambda: Batch4<S>, energy: Batch4<S>) -> (r: WavelengthEnergy<Batch4<S>, Batch4<S>>) {
        WavelengthEnergy { lambda, energy }
    }

    fn new_from_range(sample: S, bounds: Bounds1D<S>) -> (r: WavelengthEnergy<
        Batch4<S>,
        Batch4<S>,
    >) {
        WavelengthEnergy {
            lambda: Batch4 {
                l0: hero_lane(sample, bounds, 0),
                l1: hero_lane(sample, bounds, 1),
                l2: hero_lane(sample, bounds, 2),
                l3: hero_lane(sample, bounds, 3),
            },
            energy: Batch4::<S>::zero(),
        }
    }
}

} // verus!
