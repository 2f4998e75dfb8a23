use crate::traits::{
    Abs, CheckInf, CheckNAN, CheckResult, Comparison, Field, FromScalar, Scalar, SimdFloatPatch,
    ToScalar, TotalPartialOrd,
};
use vstd::prelude::*;

verus! {

/// Four numbers that are worked on together, lane by lane.
#[derive(Copy, Clone, Debug, PartialEq)]
pub struct Batch4<S: Scalar> {
    pub l0: S,
    pub l1: S,
    pub l2: S,
    pub l3: S,
}

/// The three-way answer that the answers of four lanes add up to.
pub open spec fn tally_spec(a: bool, b: bool, c: bool, d: bool) -> CheckResult {
    if a && b && c && d {
        CheckResult::All
    } else if a || b || c || d {
        CheckResult::SomeLanes
    } else {
        CheckResult::NoLane
    }
}

/// `All` when the four answers are all yes, `NoLane` when all are no,
/// `SomeLanes` otherwise.
pub fn tally(a: bool, b: bool, c: bool, d: bool) -> (r: CheckResult)
    ensures
        r == tally_spec(a, b, c, d),
{
    if a && b && c && d {
        CheckResult::All
    } else if a || b || c || d {
        CheckResult::SomeLanes
    } else {
        CheckResult::NoLane
    }
}

/// A lane's answer counts as yes only when the whole lane has the property.
pub open spec fn lane_has(c: CheckResult) -> bool {
    c == CheckResult::All
}

pub open spec fn is_equal(c: Option<Comparison>) -> bool {
    c == Some(Comparison::Equal)
}

pub open spec fn is_at_least(c: Option<Comparison>) -> bool {
    c == Some(Comparison::Equal) || c == Some(Comparison::Greater)
}

pub open spec fn is_at_most(c: Option<Comparison>) -> bool {
    c == Some(Comparison::Equal) || c == Some(Comparison::Less)
}

/// How two batches compare, given how their lanes do: equal when every lane
/// is; greater when every lane is greater or equal; less when every lane is
/// less or equal; otherwise they do not compare.
pub open spec fn compare_lanes_spec(
    c0: Option<Comparison>,
    c1: Option<Comparison>,
    c2: Option<Comparison>,
    c3: Option<Comparison>,
) -> Option<Comparison> {
    if is_equal(c0) && is_equal(c1) && is_equal(c2) && is_equal(c3) {
        Some(Comparison::Equal)
    } else if is_at_least(c0) && is_at_least(c1) && is_at_least(c2) && is_at_least(c3) {
        Some(Comparison::Greater)
    } else if is_at_most(c0) && is_at_most(c1) && is_at_most(c2) && is_at_most(c3) {
        Some(Comparison::Less)
    } else {
        None
    }
}

fn equal(c: Option<Comparison>) -> (r: bool)
    ensures
        r == is_equal(c),
{
    match c {
        Some(Comparison::Equal) => true,
        _ => false,
    }
}

fn at_least(c: Option<Comparison>) -> (r: bool)
    ensures
        r == is_at_least(c),
{
    match c {
        Some(Comparison::Equal) => true,
        Some(Comparison::Greater) => true,
        _ => false,
    }
}

fn at_most(c: Option<Comparison>) -> (r: bool)
    ensures
        r == is_at_most(c),
{
    match c {
        Some(Comparison::Equal) => true,
        Some(Comparison::Less) => true,
        _ => false,
    }
}

fn all_of(c: CheckResult) -> (r: bool)
    ensures
        r == lane_has(c),
{
    match c {
        CheckResult::All => true,
        _ => false,
    }
}

impl<S: Scalar> Batch4<S> {
    /// The batch with the given lanes.
    pub fn new(l0: S, l1: S, l2: S, l3: S) -> (r: Self)
        ensures
            r == (Batch4 { l0, l1, l2, l3 }),
    {
        Batch4 { l0, l1, l2, l3 }
    }

    /// The batch whose four lanes all hold `v`.
    pub open spec fn splat_spec(v: S) -> Self {
        Batch4 { l0: v, l1: v, l2: v, l3: v }
    }

    pub fn splat(v: S) -> (r: Self)
        ensures
            r == Self::splat_spec(v),
    {
        Batch4 { l0: v, l1: v, l2: v, l3: v }
    }

    /// Lane `i`, counted from 0.
    pub open spec fn lane_spec(self, i: int) -> S {
        if i == 0 {
            self.l0
        } else if i == 1 {
            self.l1
        } else if i == 2 {
            self.l2
        } else {
            self.l3
        }
    }

    pub fn lane(&self, i: usize) -> (r: S)
        requires
            i < 4,
        ensures
            r == self.lane_spec(i as int),
    {
        if i == 0 {
            self.l0
        } else if i == 1 {
            self.l1
        } else if i == 2 {
            self.l2
        } else {
            self.l3
        }
    }

    /// The sum of the four lanes, added from lane 0 upward.
    pub open spec fn reduce_sum_spec(self) -> S {
        self.l0.add_spec(self.l1).add_spec(self.l2).add_spec(self.l3)
    }

    pub fn reduce_sum(&self) -> (r: S)
        ensures
            r == self.reduce_sum_spec(),
    {
        self.l0.add(self.l1).add(self.l2).add(self.l3)
    }
}

impl<S: Scalar> Abs for Batch4<S> {
    open spec fn abs_spec(self) -> Self {
        Batch4 {
            l0: self.l0.abs_spec(),
            l1: self.l1.abs_spec(),
            l2: self.l2.abs_spec(),
            l3: self.l3.abs_spec(),
        }
    }

    fn abs(self) -> (r: Self) {
        Batch4 { l0: self.l0.abs(), l1: self.l1.abs(), l2: self.l2.abs(), l3: self.l3.abs() }
    }
}

impl<S: Scalar> TotalPartialOrd for Batch4<S> {
    open spec fn partial_cmp_spec(&self, other: &Self) -> Option<Comparison> {
        compare_lanes_spec(
            self.l0.partial_cmp_spec(&other.l0),
            self.l1.partial_cmp_spec(&other.l1),
            self.l2.partial_cmp_spec(&other.l2),
            self.l3.partial_cmp_spec(&other.l3),
        )
    }

    fn partial_cmp(&self, other: &Self) -> (r: Option<Comparison>) {
        let c0 = self.l0.partial_cmp(&other.l0);
        let c1 = self.l1.partial_cmp(&other.l1);
        let c2 = self.l2.partial_cmp(&other.l2);
        let c3 = self.l3.partial_cmp(&other.l3);
        if equal(c0) && equal(c1) && equal(c2) && equal(c3) {
            Some(Comparison::Equal)
        } else if at_least(c0) && at_least(c1) && at_least(c2) && at_least(c3) {
            Some(Comparison::Greater)
        } else if at_most(c0) && at_most(c1) && at_most(c2) && at_most(c3) {
            Some(Comparison::Less)
        } else {
            None
        }
    }
}

impl<S: Scalar> CheckNAN for Batch4<S> {
    open spec fn check_nan_spec(&self) -> CheckResult {
        tally_spec(
            lane_has(self.l0.check_nan_spec()),
            lane_has(self.l1.check_nan_spec()),
            lane_has(self.l2.check_nan_spec()),
            lane_has(self.l3.check_nan_spec()),
        )
    }

    fn check_nan(&self) -> (r: CheckResult) {
        tally(
            all_of(self.l0.check_nan()),
            all_of(self.l1.check_nan()),
            all_of(self.l2.check_nan()),
            all_of(self.l3.check_nan()),
        )
    }
}

impl<S: Scalar> CheckInf for Batch4<S> {
    open spec fn check_inf_spec(&self) -> CheckResult {
        tally_spec(
            lane_has(self.l0.check_inf_spec()),
            lane_has(self.l1.check_inf_spec()),
            lane_has(self.l2.check_inf_spec()),
            lane_has(self.l3.check_inf_spec()),
        )
    }

    fn check_inf(&self) -> (r: CheckResult) {
        tally(
            all_of(self.l0.check_inf()),
            all_of(self.l1.check_inf()),
            all_of(self.l2.check_inf()),
            all_of(self.l3.check_inf()),
        )
    }
}

impl<S: Scalar> Field for Batch4<S> {
    open spec fn zero_spec() -> Self {
        Self::splat_spec(S::zero_spec())
    }

    open spec fn one_spec() -> Self {
        Self::splat_spec(S::one_spec())
    }

    open spec fn add_spec(self, other: Self) -> Self {
        Batch4 {
            l0: self.l0.add_spec(other.l0),
            l1: self.l1.add_spec(other.l1),
            l2: self.l2.add_spec(other.l2),
            l3: self.l3.add_spec(other.l3),
        }
    }

    open spec fn mul_spec(self, other: Self) -> Self {
        Batch4 {
            l0: self.l0.mul_spec(other.l0),
            l1: self.l1.mul_spec(other.l1),
            l2: self.l2.mul_spec(other.l2),
            l3: self.l3.mul_spec(other.l3),
        }
    }

    open spec fn div_spec(self, other: Self) -> Self {
        Batch4 {
            l0: self.l0.div_spec(other.l0),
            l1: self.l1.div_spec(other.l1),
            l2: self.l2.div_spec(other.l2),
            l3: self.l3.div_spec(other.l3),
        }
    }

    open spec fn neg_spec(self) -> Self {
        Batch4 {
            l0: self.l0.neg_spec(),
            l1: self.l1.neg_spec(),
            l2: self.l2.neg_spec(),
            l3: self.l3.neg_spec(),
        }
    }

    open spec fn min_spec(&self, other: Self) -> Self {
        Batch4 {
            l0: self.l0.min_spec(other.l0),
            l1: self.l1.min_spec(other.l1),
            l2: self.l2.min_spec(other.l2),
            l3: self.l3.min_spec(other.l3),
        }
    }

    open spec fn max_spec(&self, other: Self) -> Self {
        Batch4 {
            l0: self.l0.max_spec(other.l0),
            l1: self.l1.max_spec(other.l1),
            l2: self.l2.max_spec(other.l2),
            l3: self.l3.max_spec(other.l3),
        }
    }

    fn zero() -> (r: Self) {
        Self::splat(S::zero())
    }

    fn one() -> (r: Self) {
        Self::splat(S::one())
    }

    fn add(self, other: Self) -> (r: Self) {
        Batch4 {
            l0: self.l0.add(other.l0),
            l1: self.l1.add(other.l1),
            l2: self.l2.add(other.l2),
            l3: self.l3.add(other.l3),
        }
    }

    fn mul(self, other: Self) -> (r: Self) {
        Batch4 {
            l0: self.l0.mul(other.l0),
            l1: self.l1.mul(other.l1),
            l2: self.l2.mul(other.l2),
            l3: self.l3.mul(other.l3),
        }
    }

    fn div(self, other: Self) -> (r: Self) {
        Batch4 {
            l0: self.l0.div(other.l0),
            l1: self.l1.div(other.l1),
            l2: self.l2.div(other.l2),
            l3: self.l3.div(other.l3),
        }
    }

    fn neg(self) -> (r: Self) {
        Batch4 { l0: self.l0.neg(), l1: self.l1.neg(), l2: self.l2.neg(), l3: self.l3.neg() }
    }

    fn min(&self, other: Self) -> (r: Self) {
        Batch4 {
            l0: self.l0.min(other.l0),
            l1: self.l1.min(other.l1),
            l2: self.l2.min(other.l2),
            l3: self.l3.min(other.l3),
        }
    }

    fn max(&self, other: Self) -> (r: Self) {
        Batch4 {
            l0: self.l0.max(other.l0),
            l1: self.l1.max(other.l1),
            l2: self.l2.max(other.l2),
            l3: self.l3.max(other.l3),
        }
    }
}

impl<S: Scalar> SimdFloatPatch for Batch4<S> {
    open spec fn exp_spec(self) -> Self {
        Batch4 {
            l0: self.l0.exp_spec(),
            l1: self.l1.exp_spec(),
            l2: self.l2.exp_spec(),
            l3: self.l3.exp_spec(),
        }
    }

    open spec fn powf_spec(self, other: Self) -> Self {
        Batch4 {
            l0: self.l0.powf_spec(other.l0),
            l1: self.l1.powf_spec(other.l1),
            l2: self.l2.powf_spec(other.l2),
            l3: self.l3.powf_spec(other.l3),
        }
    }

    fn exp(self) -> (r: Self) {
        Batch4 { l0: self.l0.exp(), l1: self.l1.exp(), l2: self.l2.exp(), l3: self.l3.exp() }
    }

    fn powf(self, other: Self) -> (r: Self) {
        Batch4 {
            l0: self.l0.powf(other.l0),
            l1: self.l1.powf(other.l1),
            l2: self.l2.powf(other.l2),
            l3: self.l3.powf(other.l3),
        }
    }
}

impl<S: Scalar> ToScalar<S> for Batch4<S> {
    open spec fn to_scalar_spec(&self) -> S {
        self.l0
    }

    fn to_scalar(&self) -> (r: S) {
        self.l0
    }
}

impl<S: Scalar> ToScalar<S> for S {
    open spec fn to_scalar_spec(&self) -> S {
        *self
    }

    fn to_scalar(&self) -> (r: S) {
        *self
    }
}

impl<S: Scalar> FromScalar<S> for Batch4<S> {
    open spec fn from_scalar_spec(v: S) -> Self {
        Self::splat_spec(v)
    }

    fn from_scalar(v: S) -> (r: Self) {
        Self::splat(v)
    }
}

impl<S: Scalar> FromScalar<S> for S {
    open spec fn from_scalar_spec(v: S) -> Self {
        v
    }

    fn from_scalar(v: S) -> (r: S) {
        v
    }
}

} // verus!
