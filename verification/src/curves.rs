use crate::bounds::Bounds1D;
use crate::misc::{
    blackbody, blackbody_spec, gaussian, gaussian_spec, max_blackbody_lambda,
    max_blackbody_lambda_spec,
};
use crate::order::{clamp_spec, difference, difference_spec, eq, eq_spec, le, le_spec, lt, lt_spec};
use crate::traits::{Field, Scalar};
use vstd::prelude::*;

verus! {

/// How a step of a `Machine` joins the running value and a curve's value.
#[derive(Copy, Clone, Debug, PartialEq, Eq, Structural)]
pub enum Op {
    Add,
    Mul,
}

/// How a value between two samples is made from them.
#[derive(Copy, Clone, Debug, PartialEq, Eq, Structural)]
pub enum InterpolationMode {
    Linear,
    Nearest,
    Cubic,
}

/// A function of one variable, the wavelength, in one of several shapes.
#[derive(Debug)]
#[allow(inconsistent_fields)]
pub enum Curve<S: Scalar> {
    /// The same value everywhere.
    Const(S),
    /// Samples at equal distances over `bounds`.
    Linear { signal: Vec<S>, bounds: Bounds1D<S>, mode: InterpolationMode },
    /// Pairs `(x, y)`, in the order of their `x`.
    Tabulated { signal: Vec<(S, S)>, mode: InterpolationMode },
    /// A polynomial of degree eight without constant term; the mapping holds
    /// the offset and scale of `x` and then the offset and scale of `y`.
    Polynomial { domain_range_mapping: [S; 4], coefficients: [S; 8] },
    /// Cauchy's equation, `a + b / x²`.
    Cauchy { a: S, b: S },
    /// A sum of bells; each entry is `(center, left sigma, right sigma,
    /// amplitude)`.
    Exponential { signal: Vec<(S, S, S, S)> },
    /// One minus a sum of bells.
    InverseExponential { signal: Vec<(S, S, S, S)> },
    /// Planck's law at a temperature. With `boost` zero it is the radiance
    /// itself, otherwise the radiance scaled so that its peak is `boost`.
    Blackbody { temperature: S, boost: S },
    /// Starting from `seed`, each entry adds or multiplies the value of its
    /// curve to the running value, from the first entry to the last.
    Machine { seed: S, list: Vec<(Op, Curve<S>)> },
}

/// What a `Curve` holds, as a mathematical value.
#[allow(inconsistent_fields)]
pub enum CurveView<S: Scalar> {
    Const(S),
    Linear { signal: Seq<S>, bounds: Bounds1D<S>, mode: InterpolationMode },
    Tabulated { signal: Seq<(S, S)>, mode: InterpolationMode },
    Polynomial { domain_range_mapping: [S; 4], coefficients: [S; 8] },
    Cauchy { a: S, b: S },
    Exponential { signal: Seq<(S, S, S, S)> },
    InverseExponential { signal: Seq<(S, S, S, S)> },
    Blackbody { temperature: S, boost: S },
    Machine { seed: S, list: Seq<(Op, CurveView<S>)> },
}

impl<S: Scalar> Curve<S> {
    /// What the curve holds.
    pub open spec fn model(self) -> CurveView<S>
        decreases self, 0nat,
    {
        match self {
            Curve::Const(c) => CurveView::Const(c),
            Curve::Linear { signal, bounds, mode } => CurveView::Linear {
                signal: signal@,
                bounds,
                mode,
            },
            Curve::Tabulated { signal, mode } => CurveView::Tabulated { signal: signal@, mode },
            Curve::Polynomial { domain_range_mapping, coefficients } => CurveView::Polynomial {
                domain_range_mapping,
                coefficients,
            },
            Curve::Cauchy { a, b } => CurveView::Cauchy { a, b },
            Curve::Exponential { signal } => CurveView::Exponential { signal: signal@ },
            Curve::InverseExponential { signal } => CurveView::InverseExponential {
                signal: signal@,
            },
            Curve::Blackbody { temperature, boost } => CurveView::Blackbody { temperature, boost },
            Curve::Machine { seed, list } => CurveView::Machine {
                seed,
                list: Self::model_list(list@, list@.len()),
            },
        }
    }

    /// What the first `n` entries of a `Machine` hold.
    pub open spec fn model_list(list: Seq<(Op, Curve<S>)>, n: nat) -> Seq<(Op, CurveView<S>)>
        decreases list, n,
    {
        if n == 0 || n > list.len() {
            Seq::empty()
        } else {
            Self::model_list(list, (n - 1) as nat).push((list[n - 1].0, list[n - 1].1.model()))
        }
    }

    /// The model of a list has an entry for each entry of the list: its
    /// operator, and the model of its curve.
    pub proof fn model_list_entries(list: Seq<(Op, Curve<S>)>, n: nat)
        requires
            n <= list.len(),
        ensures
            Self::model_list(list, n).len() == n,
            forall|j: int|
                0 <= j < n ==> (#[trigger] Self::model_list(list, n)[j]) == (
                    list[j].0,
                    list[j].1.model(),
                ),
        decreases n,
    {
        if n > 0 {
            Self::model_list_entries(list, (n - 1) as nat);
        }
    }
}

impl<S: Scalar> View for Curve<S> {
    type V = CurveView<S>;

    open spec fn view(&self) -> CurveView<S> {
        self.model()
    }
}

impl<S: Scalar> CurveView<S> {
    /// A curve that can be evaluated: a sampled curve has a sample, a
    /// polynomial's `x` scale is greater than zero, and the curves inside a
    /// `Machine` can be evaluated themselves.
    pub open spec fn wf(self) -> bool
        decreases self,
    {
        match self {
            CurveView::Linear { signal, bounds, mode } => signal.len() > 0,
            CurveView::Tabulated { signal, mode } => signal.len() > 0,
            CurveView::Polynomial { domain_range_mapping, coefficients } => lt_spec(
                S::zero_spec(),
                domain_range_mapping@[1],
            ),
            CurveView::Machine { seed, list } => forall|i: int|
                0 <= i < list.len() ==> (#[trigger] list[i]).1.wf(),
            _ => true,
        }
    }
}

/// The value between `left` and `right` at the fraction `t` of the way.
///
/// `Linear` is `(1 - t) · left + t · right`. `Nearest` is `left` for `t`
/// below one half and `right` otherwise. `Cubic` weighs the two with the
/// Hermite basis, `(1 + 2t)(1 - t)² · left + t²(3 - 2t) · right`, and uses no
/// tangents.
pub open spec fn interpolate_spec<S: Scalar>(mode: InterpolationMode, t: S, left: S, right: S) -> S {
    match mode {
        InterpolationMode::Linear => difference_spec(S::one_spec(), t).mul_spec(left).add_spec(
            t.mul_spec(right),
        ),
        InterpolationMode::Nearest => if lt_spec(t, S::from_decimal_spec(5, 1)) {
            left
        } else {
            right
        },
        InterpolationMode::Cubic => {
            let t2 = S::from_index_spec(2).mul_spec(t);
            let one_sub_t = difference_spec(S::one_spec(), t);
            let h00 = S::one_spec().add_spec(t2).mul_spec(one_sub_t).mul_spec(one_sub_t);
            let h01 = t.mul_spec(t).mul_spec(difference_spec(S::from_index_spec(3), t2));
            h00.mul_spec(left).add_spec(h01.mul_spec(right))
        },
    }
}

pub fn interpolate<S: Scalar>(mode: InterpolationMode, t: S, left: S, right: S) -> (r: S)
    ensures
        r == interpolate_spec(mode, t, left, right),
{
    match mode {
        InterpolationMode::Linear => difference(S::one(), t).mul(left).add(t.mul(right)),
        InterpolationMode::Nearest => if lt(&t, &S::from_decimal(5, 1)) {
            left
        } else {
            right
        },
        InterpolationMode::Cubic => {
            let t2 = S::from_index(2).mul(t);
            let one_sub_t = difference(S::one(), t);
            let h00 = S::one().add(t2).mul(one_sub_t).mul(one_sub_t);
            let h01 = t.mul(t).mul(difference(S::from_index(3), t2));
            h00.mul(left).add(h01.mul(right))
        },
    }
}

/// Where a search by halving ends, between `lo` and `hi`: it looks at the
/// key in the middle, goes on above it where that key is below `x`, and
/// below it otherwise.
pub open spec fn bisect_spec<S: Scalar>(keys: Seq<S>, x: S, lo: int, hi: int) -> int
    decreases hi - lo,
{
    if lo >= hi {
        lo
    } else {
        let mid = lo + (hi - lo) / 2;
        if lt_spec(keys[mid], x) {
            bisect_spec(keys, x, mid + 1, hi)
        } else {
            bisect_spec(keys, x, lo, mid)
        }
    }
}

/// The keys below `x` come first: there is a place `k` such that exactly the
/// keys before it are below `x`. Keys in ascending order are so for every `x`.
pub open spec fn partitioned_at<S: Scalar>(keys: Seq<S>, x: S, k: int) -> bool {
    &&& 0 <= k <= keys.len()
    &&& forall|i: int| 0 <= i < k ==> lt_spec(#[trigger] keys[i], x)
    &&& forall|i: int| k <= i < keys.len() ==> !lt_spec(#[trigger] keys[i], x)
}

/// On keys of which those below `x` come first, the search by halving finds
/// the first key that is not below `x`.
pub proof fn bisect_finds_partition<S: Scalar>(keys: Seq<S>, x: S, k: int, lo: int, hi: int)
    requires
        partitioned_at(keys, x, k),
        0 <= lo <= k <= hi <= keys.len(),
    ensures
        bisect_spec(keys, x, lo, hi) == k,
    decreases hi - lo,
{
    if lo < hi {
        let mid = lo + (hi - lo) / 2;
        if lt_spec(keys[mid], x) {
            bisect_finds_partition(keys, x, k, mid + 1, hi);
        } else {
            bisect_finds_partition(keys, x, k, lo, mid);
        }
    }
}

/// The search by halving stays within its range.
pub proof fn bisect_in_range<S: Scalar>(keys: Seq<S>, x: S, lo: int, hi: int)
    requires
        lo <= hi,
    ensures
        lo <= bisect_spec(keys, x, lo, hi) <= hi,
    decreases hi - lo,
{
    if lo < hi {
        let mid = lo + (hi - lo) / 2;
        if lt_spec(keys[mid], x) {
            bisect_in_range(keys, x, mid + 1, hi);
        } else {
            bisect_in_range(keys, x, lo, mid);
        }
    }
}

/// The first components of a table's pairs.
pub open spec fn keys_of<S: Scalar>(signal: Seq<(S, S)>) -> Seq<S> {
    Seq::new(signal.len(), |i: int| signal[i].0)
}

/// The place of `x` among samples: where those below `x` come first, as
/// they do among ascending samples, the number of samples below it.
pub fn search_samples<S: Scalar>(signal: &Vec<S>, x: S) -> (r: usize)
    ensures
        r == bisect_spec(signal@, x, 0, signal@.len() as int),
        r <= signal@.len(),
        forall|k: int| partitioned_at(signal@, x, k) ==> r == k,
{
    let mut lo: usize = 0;
    let mut hi: usize = signal.len();
    proof {
        bisect_in_range(signal@, x, 0, signal@.len() as int);
        assert forall|k: int| partitioned_at(signal@, x, k) implies bisect_spec(
            signal@,
            x,
            0,
            signal@.len() as int,
        ) == k by {
            bisect_finds_partition(signal@, x, k, 0, signal@.len() as int);
        }
    }
    while lo < hi
        invariant
            lo <= hi <= signal@.len(),
            bisect_spec(signal@, x, lo as int, hi as int) == bisect_spec(
                signal@,
                x,
                0,
                signal@.len() as int,
            ),
        decreases hi - lo,
    {
        let mid: usize = lo + (hi - lo) / 2;
        if lt(&signal[mid], &x) {
            lo = mid + 1;
        } else {
            hi = mid;
        }
    }
    lo
}

/// The place of `x` among a table's keys: where those below `x` come
/// first, as they do among ascending keys, the number of keys below it.
pub fn search_table<S: Scalar>(signal: &Vec<(S, S)>, x: S) -> (r: usize)
    ensures
        r == bisect_spec(keys_of(signal@), x, 0, signal@.len() as int),
        r <= signal@.len(),
        forall|k: int| partitioned_at(keys_of(signal@), x, k) ==> r == k,
{
    let mut lo: usize = 0;
    let mut hi: usize = signal.len();
    proof {
        bisect_in_range(keys_of(signal@), x, 0, signal@.len() as int);
        assert forall|k: int| partitioned_at(keys_of(signal@), x, k) implies bisect_spec(
            keys_of(signal@),
            x,
            0,
            signal@.len() as int,
        ) == k by {
            bisect_finds_partition(keys_of(signal@), x, k, 0, signal@.len() as int);
        }
    }
    while lo < hi
        invariant
            lo <= hi <= signal@.len(),
            bisect_spec(keys_of(signal@), x, lo as int, hi as int) == bisect_spec(
                keys_of(signal@),
                x,
                0,
                signal@.len() as int,
            ),
        decreases hi - lo,
    {
        let mid: usize = lo + (hi - lo) / 2;
        let key = signal[mid].0;
        assert(keys_of(signal@)[mid as int] == key);
        if lt(&key, &x) {
            lo = mid + 1;
        } else {
            hi = mid;
        }
    }
    lo
}

/// The width of one bin of `n` equal bins over `bounds`.
pub open spec fn bin_width_spec<S: Scalar>(bounds: Bounds1D<S>, n: nat) -> S {
    bounds.span_spec().div_spec(S::from_index_spec(n as usize))
}

/// The bin that `x` falls into: `(x - lower) / width`, cut down to a count.
pub open spec fn bin_index_spec<S: Scalar>(bounds: Bounds1D<S>, n: nat, x: S) -> usize {
    difference_spec(x, bounds.lower).div_spec(bin_width_spec(bounds, n)).to_index_spec()
}

/// How far into its bin `x` lies, as a fraction of the bin's width.
pub open spec fn bin_fraction_spec<S: Scalar>(bounds: Bounds1D<S>, n: nat, x: S) -> S {
    let width = bin_width_spec(bounds, n);
    let index = bin_index_spec(bounds, n, x);
    difference_spec(x, bounds.lower.add_spec(S::from_index_spec(index).mul_spec(width))).div_spec(
        width,
    )
}

/// The value at `x` of equally spaced samples over `bounds`.
///
/// At or below the lower bound it is the first sample, at or above the upper
/// bound the last one. In between, `x` falls into a bin; the value is
/// interpolated between that bin's sample and the next. The last bin has no
/// next sample and gives its own.
pub open spec fn linear_eval_spec<S: Scalar>(
    signal: Seq<S>,
    bounds: Bounds1D<S>,
    mode: InterpolationMode,
    x: S,
) -> S
    recommends
        signal.len() > 0,
{
    if le_spec(x, bounds.lower) {
        signal[0]
    } else if le_spec(bounds.upper, x) {
        signal[signal.len() - 1]
    } else {
        let index = bin_index_spec(bounds, signal.len(), x);
        if index + 1 < signal.len() {
            interpolate_spec(
                mode,
                bin_fraction_spec(bounds, signal.len(), x),
                signal[index as int],
                signal[index + 1],
            )
        } else {
            signal[signal.len() - 1]
        }
    }
}

/// The value at `x` of a table of pairs in the order of their keys.
///
/// At or below the first key it is the first pair's value, above the last
/// key the last pair's, as they stand. Otherwise it is interpolated between the two
/// pairs that `x` lies between, at the fraction `(x - x₀) / (x₁ - x₀)`.
pub open spec fn tabulated_eval_spec<S: Scalar>(
    signal: Seq<(S, S)>,
    mode: InterpolationMode,
    x: S,
) -> S
    recommends
        signal.len() > 0,
{
    let index = bisect_spec(keys_of(signal), x, 0, signal.len() as int);
    if index == signal.len() {
        signal[signal.len() - 1].1
    } else if index == 0 {
        signal[0].1
    } else {
        let left = signal[index - 1];
        let right = signal[index];
        let t = difference_spec(x, left.0).div_spec(difference_spec(right.0, left.0));
        interpolate_spec(mode, t, left.1, right.1)
    }
}

/// `x` to the power `n`, for `n` at least one, by repeated multiplication.
pub open spec fn repeated_product_spec<S: Scalar>(x: S, n: nat) -> S
    decreases n,
{
    if n <= 1 {
        x
    } else {
        repeated_product_spec(x, (n - 1) as nat).mul_spec(x)
    }
}

/// The polynomial's value after its first `n` terms: the `y` offset, and for
/// each coefficient `y scale · coefficient · xⁱ⁺¹`.
pub open spec fn polynomial_sum_spec<S: Scalar>(
    y_offset: S,
    y_scale: S,
    coefficients: Seq<S>,
    x: S,
    n: nat,
) -> S
    decreases n,
{
    if n == 0 {
        y_offset
    } else {
        polynomial_sum_spec(y_offset, y_scale, coefficients, x, (n - 1) as nat).add_spec(
            y_scale.mul_spec(coefficients[n - 1]).mul_spec(repeated_product_spec(x, n)),
        )
    }
}

/// The polynomial at `x`: `x` is first moved by the `x` offset and divided
/// by the `x` scale, and the result is floored at zero.
pub open spec fn polynomial_eval_spec<S: Scalar>(mapping: [S; 4], coefficients: [S; 8], x: S) -> S {
    let xr = difference_spec(x, mapping@[0]).div_spec(mapping@[1]);
    polynomial_sum_spec(mapping@[2], mapping@[3], coefficients@, xr, 8).max_spec(S::zero_spec())
}

/// The sum of the first `n` bells at `x`.
pub open spec fn bell_sum_spec<S: Scalar>(signal: Seq<(S, S, S, S)>, x: S, n: nat) -> S
    decreases n,
{
    if n == 0 {
        S::zero_spec()
    } else {
        let b = signal[n - 1];
        bell_sum_spec(signal, x, (n - 1) as nat).add_spec(gaussian_spec(x, b.3, b.0, b.1, b.2))
    }
}

/// One, less the first `n` bells at `x`, taken away one after the other.
pub open spec fn bell_rest_spec<S: Scalar>(signal: Seq<(S, S, S, S)>, x: S, n: nat) -> S
    decreases n,
{
    if n == 0 {
        S::one_spec()
    } else {
        let b = signal[n - 1];
        difference_spec(
            bell_rest_spec(signal, x, (n - 1) as nat),
            gaussian_spec(x, b.3, b.0, b.1, b.2),
        )
    }
}

/// A black body's curve at `x`: the radiance itself where `boost` is zero,
/// otherwise `boost` times the radiance over the radiance at the peak.
pub open spec fn blackbody_eval_spec<S: Scalar>(temperature: S, boost: S, x: S) -> S {
    if eq_spec(boost, S::zero_spec()) {
        blackbody_spec(temperature, x)
    } else {
        boost.mul_spec(blackbody_spec(temperature, x)).div_spec(
            blackbody_spec(temperature, max_blackbody_lambda_spec(temperature)),
        )
    }
}

/// One step of a `Machine`.
pub open spec fn apply_op_spec<S: Scalar>(op: Op, value: S, eval: S) -> S {
    match op {
        Op::Add => value.add_spec(eval),
        Op::Mul => value.mul_spec(eval),
    }
}

impl<S: Scalar> CurveView<S> {
    /// The curve's value at `x`, before any clamping.
    ///
    /// It is what the curve's data give: only a constant, a polynomial, one
    /// less a sum of bells and a machine are floored at zero. Samples, a
    /// table, Cauchy's equation, a sum of bells and a black body can be
    /// below zero where their data are. The power, `power_spec`, floors
    /// every curve.
    pub open spec fn eval_spec(self, x: S) -> S
        decreases self, 0nat,
    {
        match self {
            CurveView::Const(c) => c.max_spec(S::zero_spec()),
            CurveView::Linear { signal, bounds, mode } => linear_eval_spec(signal, bounds, mode, x),
            CurveView::Tabulated { signal, mode } => tabulated_eval_spec(signal, mode, x),
            CurveView::Polynomial { domain_range_mapping, coefficients } => polynomial_eval_spec(
                domain_range_mapping,
                coefficients,
                x,
            ),
            CurveView::Cauchy { a, b } => a.add_spec(b.div_spec(x.mul_spec(x))),
            CurveView::Exponential { signal } => bell_sum_spec(signal, x, signal.len()),
            CurveView::InverseExponential { signal } => bell_rest_spec(
                signal,
                x,
                signal.len(),
            ).max_spec(S::zero_spec()),
            CurveView::Blackbody { temperature, boost } => blackbody_eval_spec(
                temperature,
                boost,
                x,
            ),
            CurveView::Machine { seed, list } => Self::fold_spec(seed, list, x, list.len()).max_spec(
                S::zero_spec(),
            ),
        }
    }

    /// The running value of a `Machine` after its first `n` steps.
    pub open spec fn fold_spec(seed: S, list: Seq<(Op, CurveView<S>)>, x: S, n: nat) -> S
        decreases list, n,
    {
        if n == 0 || n > list.len() {
            seed
        } else {
            apply_op_spec(
                list[n - 1].0,
                Self::fold_spec(seed, list, x, (n - 1) as nat),
                list[n - 1].1.eval_spec(x),
            )
        }
    }
}

fn evaluate_linear<S: Scalar>(
    signal: &Vec<S>,
    bounds: &Bounds1D<S>,
    mode: InterpolationMode,
    x: S,
) -> (r: S)
    requires
        signal@.len() > 0,
    ensures
        r == linear_eval_spec(signal@, *bounds, mode, x),
{
    let n = signal.len();
    if le(&x, &bounds.lower) {
        return signal[0];
    }
    if le(&bounds.upper, &x) {
        return signal[n - 1];
    }
    let width = bounds.span().div(S::from_index(n));
    let index = difference(x, bounds.lower).div(width).to_index();
    if index < n - 1 {
        let t = difference(x, bounds.lower.add(S::from_index(index).mul(width))).div(width);
        interpolate(mode, t, signal[index], signal[index + 1])
    } else {
        signal[n - 1]
    }
}

fn evaluate_tabulated<S: Scalar>(signal: &Vec<(S, S)>, mode: InterpolationMode, x: S) -> (r: S)
    requires
        signal@.len() > 0,
    ensures
        r == tabulated_eval_spec(signal@, mode, x),
{
    let index = search_table(signal, x);
    if index == signal.len() {
        return signal[index - 1].1;
    }
    if index == 0 {
        return signal[0].1;
    }
    let left = signal[index - 1];
    let right = signal[index];
    let t = difference(x, left.0).div(difference(right.0, left.0));
    interpolate(mode, t, left.1, right.1)
}

fn evaluate_polynomial<S: Scalar>(mapping: &[S; 4], coefficients: &[S; 8], x: S) -> (r: S)
    ensures
        r == polynomial_eval_spec(*mapping, *coefficients, x),
{
    let xr = difference(x, mapping[0]).div(mapping[1]);
    let mut val = mapping[2];
    let mut xpow = xr;
    let mut i: usize = 0;
    while i < 8
        invariant
            i <= 8,
            val == polynomial_sum_spec(mapping@[2], mapping@[3], coefficients@, xr, i as nat),
            xpow == repeated_product_spec(xr, (i + 1) as nat),
        decreases 8 - i,
    {
        val = val.add(mapping[3].mul(coefficients[i]).mul(xpow));
        xpow = xpow.mul(xr);
        i = i + 1;
    }
    val.max(S::zero())
}

fn evaluate_bells<S: Scalar>(signal: &Vec<(S, S, S, S)>, x: S) -> (r: S)
    ensures
        r == bell_sum_spec(signal@, x, signal@.len()),
{
    let mut val = S::zero();
    let mut i: usize = 0;
    while i < signal.len()
        invariant
            i <= signal@.len(),
            val == bell_sum_spec(signal@, x, i as nat),
        decreases signal@.len() - i,
    {
        let b = signal[i];
        val = val.add(gaussian(x, b.3, b.0, b.1, b.2));
        i = i + 1;
    }
    val
}

fn evaluate_inverse_bells<S: Scalar>(signal: &Vec<(S, S, S, S)>, x: S) -> (r: S)
    ensures
        r == bell_rest_spec(signal@, x, signal@.len()).max_spec(S::zero_spec()),
{
    let mut val = S::one();
    let mut i: usize = 0;
    while i < signal.len()
        invariant
            i <= signal@.len(),
            val == bell_rest_spec(signal@, x, i as nat),
        decreases signal@.len() - i,
    {
        let b = signal[i];
        val = difference(val, gaussian(x, b.3, b.0, b.1, b.2));
        i = i + 1;
    }
    val.max(S::zero())
}

fn evaluate_blackbody<S: Scalar>(temperature: S, boost: S, x: S) -> (r: S)
    ensures
        r == blackbody_eval_spec(temperature, boost, x),
{
    if eq(&boost, &S::zero()) {
        blackbody(temperature, x)
    } else {
        boost.mul(blackbody(temperature, x)).div(
            blackbody(temperature, max_blackbody_lambda(temperature)),
        )
    }
}

/// What the view of a `Machine` holds: the seed, and entry for entry the
/// operator with the view of the curve.
pub proof fn machine_view<S: Scalar>(c: Curve<S>)
    requires
        c is Machine,
    ensures
        c@ is Machine,
        c@->Machine_seed == c->Machine_seed,
        c@->Machine_list.len() == c->Machine_list@.len(),
        forall|j: int|
            0 <= j < c->Machine_list@.len() ==> (#[trigger] c@->Machine_list[j]) == (
                c->Machine_list@[j].0,
                c->Machine_list@[j].1@,
            ),
        forall|j: int|
            0 <= j < c->Machine_list@.len() ==> decreases_to!(c => (#[trigger] c->Machine_list@[j]).1),
{
    Curve::<S>::model_list_entries(c->Machine_list@, c->Machine_list@.len());
}

impl<S: Scalar> Curve<S> {
    /// Whether the curve can be evaluated.
    pub fn is_well_formed(&self) -> (r: bool)
        ensures
            r == self@.wf(),
        decreases self,
    {
        match self {
            Curve::Linear { signal, bounds, mode } => signal.len() > 0,
            Curve::Tabulated { signal, mode } => signal.len() > 0,
            Curve::Polynomial { domain_range_mapping, coefficients } => lt(
                &S::zero(),
                &domain_range_mapping[1],
            ),
            Curve::Machine { seed, list } => {
                proof {
                    machine_view(*self);
                }
                let mut i: usize = 0;
                while i < list.len()
                    invariant
                        i <= list@.len(),
                        self@ matches CurveView::Machine { list: views, .. } && views.len()
                            == list@.len() && (forall|j: int|
                            0 <= j < list@.len() ==> (#[trigger] views[j]).1 == list@[j].1@) && (
                        forall|j: int| 0 <= j < i ==> (#[trigger] views[j]).1.wf()),
                        forall|j: int| 0 <= j < list@.len() ==> decreases_to!(self => list@[j].1),
                    decreases list@.len() - i,
                {
                    assert(self@->Machine_list[i as int].1 == list@[i as int].1@);
                    if !list[i].1.is_well_formed() {
                        return false;
                    }
                    i = i + 1;
                }
                true
            },
            _ => true,
        }
    }

    /// The curve's value at `x`, before any clamping. Only the power is
    /// floored at zero for every curve: this value is below zero where the
    /// data of samples, of a table, of Cauchy's equation, of a sum of bells
    /// or of a black body make it so.
    pub fn evaluate(&self, x: S) -> (r: S)
        requires
            self@.wf(),
        ensures
            r == self@.eval_spec(x),
        decreases self,
    {
        match self {
            Curve::Const(v) => v.max(S::zero()),
            Curve::Linear { signal, bounds, mode } => evaluate_linear(signal, bounds, *mode, x),
            Curve::Tabulated { signal, mode } => evaluate_tabulated(signal, *mode, x),
            Curve::Polynomial { domain_range_mapping, coefficients } => evaluate_polynomial(
                domain_range_mapping,
                coefficients,
                x,
            ),
            Curve::Cauchy { a, b } => a.add(b.div(x.mul(x))),
            Curve::Exponential { signal } => evaluate_bells(signal, x),
            Curve::InverseExponential { signal } => evaluate_inverse_bells(signal, x),
            Curve::Blackbody { temperature, boost } => evaluate_blackbody(*temperature, *boost, x),
            Curve::Machine { seed, list } => {
                let ghost views = self@->Machine_list;
                proof {
                    machine_view(*self);
                }
                let mut val = *seed;
                let mut i: usize = 0;
                while i < list.len()
                    invariant
                        i <= list@.len(),
                        self@ == (CurveView::Machine { seed: *seed, list: views }),
                        views.len() == list@.len(),
                        forall|j: int|
                            0 <= j < list@.len() ==> (#[trigger] views[j]) == (
                                list@[j].0,
                                list@[j].1@,
                            ),
                        forall|j: int| 0 <= j < list@.len() ==> (#[trigger] views[j]).1.wf(),
                        forall|j: int| 0 <= j < list@.len() ==> decreases_to!(self => list@[j].1),
                        val == CurveView::fold_spec(*seed, views, x, i as nat),
                    decreases list@.len() - i,
                {
                    assert(views[i as int].1 == list@[i as int].1@);
                    let eval = list[i].1.evaluate(x);
                    val =
                    match list[i].0 {
                        Op::Add => val.add(eval),
                        Op::Mul => val.mul(eval),
                    };
                    i = i + 1;
                }
                val.max(S::zero())
            },
        }
    }
}

/// A copy of a vector of plain values.
fn copy_of<T: Copy>(v: &Vec<T>) -> (r: Vec<T>)
    ensures
        r@ == v@,
{
    let mut r: Vec<T> = Vec::new();
    let mut i: usize = 0;
    while i < v.len()
        invariant
            i <= v@.len(),
            r@ == v@.take(i as int),
        decreases v@.len() - i,
    {
        r.push(v[i]);
        assert(v@.take(i as int).push(v@[i as int]) =~= v@.take(i + 1));
        i = i + 1;
    }
    assert(v@.take(v@.len() as int) =~= v@);
    r
}

impl<S: Scalar> Clone for Curve<S> {
    /// A curve that holds the same.
    fn clone(&self) -> (r: Self)
        ensures
            r@ == self@,
        decreases self,
    {
        match self {
            Curve::Const(c) => Curve::Const(*c),
            Curve::Linear { signal, bounds, mode } => Curve::Linear {
                signal: copy_of(signal),
                bounds: *bounds,
                mode: *mode,
            },
            Curve::Tabulated { signal, mode } => Curve::Tabulated {
                signal: copy_of(signal),
                mode: *mode,
            },
            Curve::Polynomial { domain_range_mapping, coefficients } => Curve::Polynomial {
                domain_range_mapping: *domain_range_mapping,
                coefficients: *coefficients,
            },
            Curve::Cauchy { a, b } => Curve::Cauchy { a: *a, b: *b },
            Curve::Exponential { signal } => Curve::Exponential { signal: copy_of(signal) },
            Curve::InverseExponential { signal } => Curve::InverseExponential {
                signal: copy_of(signal),
            },
            Curve::Blackbody { temperature, boost } => Curve::Blackbody {
                temperature: *temperature,
                boost: *boost,
            },
            Curve::Machine { seed, list } => {
                proof {
                    machine_view(*self);
                }
                let mut copy: Vec<(Op, Curve<S>)> = Vec::new();
                let mut i: usize = 0;
                while i < list.len()
                    invariant
                        i <= list@.len(),
                        copy@.len() == i,
                        forall|j: int|
                            0 <= j < i ==> (#[trigger] copy@[j]).0 == list@[j].0 && copy@[j].1@
                                == list@[j].1@,
                        forall|j: int| 0 <= j < list@.len() ==> decreases_to!(self => list@[j].1),
                    decreases list@.len() - i,
                {
                    let c = list[i].1.clone();
                    copy.push((list[i].0, c));
                    i = i + 1;
                }
                let r = Curve::Machine { seed: *seed, list: copy };
                proof {
                    machine_view(r);
                    assert(r@->Machine_list =~= self@->Machine_list);
                }
                r
            },
        }
    }
}

impl<S: Scalar> Default for Curve<S> {
    /// The curve that is zero everywhere.
    fn default() -> (r: Self)
        ensures
            r@ == CurveView::Const(S::zero_spec()),
    {
        Curve::Const(S::zero())
    }
}

/// The largest value that a clamped evaluation gives, `1 - 2⁻²³`: one, less
/// the distance from one to the next single-precision number above it.
pub open spec fn one_sub_epsilon_spec<S: Scalar>() -> S {
    S::from_decimal_spec(99999988, 8)
}

/// The middle of bin `i` of `samples` equal bins over `domain`:
/// `(i + 1/2) · width + lower`.
pub open spec fn bin_middle_spec<S: Scalar>(domain: Bounds1D<S>, samples: nat, i: nat) -> S {
    S::from_index_spec(i as usize).add_spec(S::from_decimal_spec(5, 1)).mul_spec(
        bin_width_spec(domain, samples),
    ).add_spec(domain.lower)
}

/// The bells of the CIE luminosity response, over wavelengths in nanometres.
pub open spec fn y_bar_signal_spec<S: Scalar>() -> Seq<(S, S, S, S)> {
    seq![
        (
            S::from_decimal_spec(5680, 1),
            S::from_decimal_spec(469, 1),
            S::from_decimal_spec(405, 1),
            S::from_decimal_spec(821, 3),
        ),
        (
            S::from_decimal_spec(5309, 1),
            S::from_decimal_spec(163, 1),
            S::from_decimal_spec(311, 1),
            S::from_decimal_spec(286, 3),
        ),
    ]
}

impl<S: Scalar> Curve<S> {
    /// The luminosity response of the eye as a curve: two bells, centered at
    /// 568.0 and 530.9 nanometres.
    pub fn y_bar() -> (r: Curve<S>)
        ensures
            r@ == (CurveView::Exponential { signal: y_bar_signal_spec::<S>() }),
    {
        let mut signal: Vec<(S, S, S, S)> = Vec::new();
        signal.push(
            (
                S::from_decimal(5680, 1),
                S::from_decimal(469, 1),
                S::from_decimal(405, 1),
                S::from_decimal(821, 3),
            ),
        );
        signal.push(
            (
                S::from_decimal(5309, 1),
                S::from_decimal(163, 1),
                S::from_decimal(311, 1),
                S::from_decimal(286, 3),
            ),
        );
        assert(signal@ =~= y_bar_signal_spec::<S>());
        Curve::Exponential { signal }
    }

    /// The curve of `samples` equally spaced samples of a function over
    /// `domain`, each taken in the middle of its bin.
    pub fn from_function<F: Fn(S) -> S>(
        func: F,
        samples: usize,
        domain: Bounds1D<S>,
        mode: InterpolationMode,
    ) -> (r: Self)
        requires
            forall|x: S| func.requires((x,)),
        ensures
            r@ is Linear,
            r@->Linear_bounds == domain,
            r@->Linear_mode == mode,
            r@->Linear_signal.len() == samples,
            forall|i: int|
                0 <= i < samples ==> func.ensures(
                    (bin_middle_spec(domain, samples as nat, i as nat),),
                    #[trigger] r@->Linear_signal[i],
                ),
    {
        let lower = domain.lower;
        let bin_size = domain.span().div(S::from_index(samples));
        let mut values: Vec<S> = Vec::new();
        let mut i: usize = 0;
        while i < samples
            invariant
                i <= samples,
                values@.len() == i,
                lower == domain.lower,
                bin_size == bin_width_spec(domain, samples as nat),
                forall|x: S| func.requires((x,)),
                forall|j: int|
                    0 <= j < i ==> func.ensures(
                        (bin_middle_spec(domain, samples as nat, j as nat),),
                        #[trigger] values@[j],
                    ),
            decreases samples - i,
        {
            let pt = S::from_index(i).add(S::from_decimal(5, 1)).mul(bin_size).add(lower);
            let value = func(pt);
            values.push(value);
            i = i + 1;
        }
        Curve::Linear { signal: values, bounds: domain, mode }
    }
}

impl<S: Scalar> CurveView<S> {
    /// The value at `lambda`, floored at zero.
    pub open spec fn power_spec(self, lambda: S) -> S {
        self.eval_spec(lambda).max_spec(S::zero_spec())
    }

    /// The value at `lambda`, held between zero and `1 - 2⁻²³`.
    pub open spec fn clamped_spec(self, lambda: S) -> S {
        clamp_spec(self.eval_spec(lambda), S::zero_spec(), one_sub_epsilon_spec::<S>())
    }
}

} // verus!
