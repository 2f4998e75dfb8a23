use crate::traits::{Comparison, Field, Scalar, TotalPartialOrd};
use vstd::prelude::*;

verus! {

/// `a < b`: the two compare, and `a` is the smaller.
pub open spec fn lt_spec<T: TotalPartialOrd>(a: T, b: T) -> bool {
    a.partial_cmp_spec(&b) == Some(Comparison::Less)
}

/// `a <= b`: the two compare, and `a` is not the greater.
pub open spec fn le_spec<T: TotalPartialOrd>(a: T, b: T) -> bool {
    a.partial_cmp_spec(&b) == Some(Comparison::Less) || a.partial_cmp_spec(&b) == Some(
        Comparison::Equal,
    )
}

/// `a == b` as numbers: the two compare as equal.
pub open spec fn eq_spec<T: TotalPartialOrd>(a: T, b: T) -> bool {
    a.partial_cmp_spec(&b) == Some(Comparison::Equal)
}

/// `a - b`, as `a + (-b)`.
pub open spec fn difference_spec<T: Field>(a: T, b: T) -> T {
    a.add_spec(b.neg_spec())
}

pub fn lt<T: TotalPartialOrd>(a: &T, b: &T) -> (r: bool)
    ensures
        r == lt_spec(*a, *b),
{
    match a.partial_cmp(b) {
        Some(Comparison::Less) => true,
        _ => false,
    }
}

pub fn le<T: TotalPartialOrd>(a: &T, b: &T) -> (r: bool)
    ensures
        r == le_spec(*a, *b),
{
    match a.partial_cmp(b) {
        Some(Comparison::Less) => true,
        Some(Comparison::Equal) => true,
        _ => false,
    }
}

pub fn eq<T: TotalPartialOrd>(a: &T, b: &T) -> (r: bool)
    ensures
        r == eq_spec(*a, *b),
{
    match a.partial_cmp(b) {
        Some(Comparison::Equal) => true,
        _ => false,
    }
}

pub fn difference<T: Field>(a: T, b: T) -> (r: T)
    ensures
        r == difference_spec(a, b),
{
    a.add(b.neg())
}

/// `v` held between `lo` and `hi`: `lo` where `v < lo`, `hi` where
/// `hi < v`, and `v` itself otherwise (also where `v` compares with neither).
pub open spec fn clamp_spec<S: Scalar>(v: S, lo: S, hi: S) -> S {
    if lt_spec(v, lo) {
        lo
    } else if lt_spec(hi, v) {
        hi
    } else {
        v
    }
}

pub fn clamp<S: Scalar>(v: S, lo: S, hi: S) -> (r: S)
    ensures
        r == clamp_spec(v, lo, hi),
{
    if lt(&v, &lo) {
        lo
    } else if lt(&hi, &v) {
        hi
    } else {
        v
    }
}

} // verus!
