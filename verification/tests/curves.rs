use math::bounds::Bounds1D;
use math::cdf::{CurveWithCDF, SampleError};
use math::curves::{Curve, InterpolationMode, Op};
use math::pdf::PDF;
use math::sample::Sample1D;
use math::spd::SpectralPowerDistributionFunction;
use math::spectral::WavelengthEnergy;
use math::batch::Batch4;
use math::traits::{
    Abs, Area, CheckInf, CheckNAN, CheckResult, Comparison, Field, Scalar, SimdFloatPatch,
    TotalPartialOrd, Uniform01,
};

/// Single precision, as the arithmetic that the library works with.
#[derive(Copy, Clone, Debug, PartialEq, PartialOrd)]
struct F(f32);

impl Abs for F {
    fn abs_spec(self) -> Self {
        self.abs()
    }
    fn abs(self) -> Self {
        F(self.0.abs())
    }
}

impl TotalPartialOrd for F {
    fn partial_cmp_spec(&self, other: &Self) -> Option<Comparison> {
        TotalPartialOrd::partial_cmp(self, other)
    }
    fn partial_cmp(&self, other: &Self) -> Option<Comparison> {
        match PartialOrd::partial_cmp(&self.0, &other.0) {
            Some(std::cmp::Ordering::Less) => Some(Comparison::Less),
            Some(std::cmp::Ordering::Equal) => Some(Comparison::Equal),
            Some(std::cmp::Ordering::Greater) => Some(Comparison::Greater),
            None => None,
        }
    }
}

impl CheckNAN for F {
    fn check_nan_spec(&self) -> CheckResult {
        self.check_nan()
    }
    fn check_nan(&self) -> CheckResult {
        if self.0.is_nan() {
            CheckResult::All
        } else {
            CheckResult::NoLane
        }
    }
}

impl CheckInf for F {
    fn check_inf_spec(&self) -> CheckResult {
        self.check_inf()
    }
    fn check_inf(&self) -> CheckResult {
        if self.0.is_infinite() {
            CheckResult::All
        } else {
            CheckResult::NoLane
        }
    }
}

impl Field for F {
    fn zero_spec() -> Self {
        Self::zero()
    }
    fn one_spec() -> Self {
        Self::one()
    }
    fn add_spec(self, other: Self) -> Self {
        self.add(other)
    }
    fn mul_spec(self, other: Self) -> Self {
        self.mul(other)
    }
    fn div_spec(self, other: Self) -> Self {
        self.div(other)
    }
    fn neg_spec(self) -> Self {
        self.neg()
    }
    fn min_spec(&self, other: Self) -> Self {
        self.min(other)
    }
    fn max_spec(&self, other: Self) -> Self {
        self.max(other)
    }
    fn zero() -> Self {
        F(0.0)
    }
    fn one() -> Self {
        F(1.0)
    }
    fn add(self, other: Self) -> Self {
        F(self.0 + other.0)
    }
    fn mul(self, other: Self) -> Self {
        F(self.0 * other.0)
    }
    fn div(self, other: Self) -> Self {
        F(self.0 / other.0)
    }
    fn neg(self) -> Self {
        F(-self.0)
    }
    fn min(&self, other: Self) -> Self {
        F(f32::min(self.0, other.0))
    }
    fn max(&self, other: Self) -> Self {
        F(f32::max(self.0, other.0))
    }
}

impl SimdFloatPatch for F {
    fn exp_spec(self) -> Self {
        self.exp()
    }
    fn powf_spec(self, other: Self) -> Self {
        self.powf(other)
    }
    fn exp(self) -> Self {
        F(self.0.exp())
    }
    fn powf(self, other: Self) -> Self {
        F(self.0.powf(other.0))
    }
}

impl Scalar for F {
    fn from_index_spec(n: usize) -> Self {
        Self::from_index(n)
    }
    fn to_index_spec(self) -> usize {
        self.to_index()
    }
    fn from_decimal_spec(digits: u64, places: u32) -> Self {
        Self::from_decimal(digits, places)
    }
    fn sqrt_spec(self) -> Self {
        self.sqrt()
    }
    fn sin_spec(self) -> Self {
        self.sin()
    }
    fn cos_spec(self) -> Self {
        self.cos()
    }
    fn acos_spec(self) -> Self {
        self.acos()
    }
    fn atan2_spec(self, other: Self) -> Self {
        self.atan2(other)
    }
    fn from_index(n: usize) -> Self {
        F(n as f32)
    }
    fn sqrt(self) -> Self {
        F(self.0.sqrt())
    }
    fn sin(self) -> Self {
        F(self.0.sin())
    }
    fn cos(self) -> Self {
        F(self.0.cos())
    }
    fn acos(self) -> Self {
        F(self.0.acos())
    }
    fn atan2(self, other: Self) -> Self {
        F(self.0.atan2(other.0))
    }
    fn to_index(self) -> usize {
        self.0 as usize
    }
    fn from_decimal(digits: u64, places: u32) -> Self {
        F(format!("{}e-{}", digits, places).parse::<f32>().unwrap())
    }
}

fn bounds(lower: f32, upper: f32) -> Bounds1D<F> {
    Bounds1D::new(F(lower), F(upper))
}

fn bounded_visible_range() -> Bounds1D<F> {
    bounds(380.0, 780.0)
}

fn samples(values: &[f32]) -> Vec<F> {
    values.iter().map(|v| F(*v)).collect()
}

fn test_signal() -> Vec<F> {
    samples(&[
        0.1, 0.4, 0.9, 1.5, 0.9, 2.0, 1.0, 0.4, 0.6, 0.9, 0.4, 1.4, 1.9, 2.0, 5.0, 9.0, 6.0, 3.0,
        1.0, 0.4,
    ])
}

fn bell(center: f32, left: f32, right: f32, amplitude: f32) -> (F, F, F, F) {
    (F(center), F(left), F(right), F(amplitude))
}

fn random_sample() -> Sample1D<F> {
    Sample1D::new(F(rand::random::<f32>()))
}

fn debug_random() -> f32 {
    rand::random()
}

fn seeded(seed: u64) -> rand::rngs::StdRng {
    <rand::rngs::StdRng as rand::SeedableRng>::seed_from_u64(seed)
}

fn draw(rng: &mut rand::rngs::StdRng) -> f32 {
    rand::Rng::gen::<f32>(rng)
}

fn linear(values: &[f32], lower: f32, upper: f32, mode: InterpolationMode) -> Curve<F> {
    Curve::Linear { signal: samples(values), bounds: bounds(lower, upper), mode }
}

fn table(pairs: &[(f32, f32)], mode: InterpolationMode) -> Curve<F> {
    Curve::Tabulated { signal: pairs.iter().map(|p| (F(p.0), F(p.1))).collect(), mode }
}

fn cdf_signal(cdf: &CurveWithCDF<F>) -> Vec<f32> {
    match &cdf.cdf {
        Curve::Linear { signal, .. } => signal.iter().map(|v| v.0).collect(),
        _ => panic!("the cumulative distribution has no samples"),
    }
}

#[test]
fn test_y_bar_spd() {
    let spd: Curve<F> = Curve::y_bar();
    assert!(spd.evaluate(F(550.0)) == F(0.99955124));
}

#[test]
fn test_curve_const() {
    let test_curve = Curve::Const(F(0.5));
    let integral = test_curve.evaluate_integral(bounds(100.0, 200.0), 20, false);
    assert_eq!(integral, F(50.0));
}

#[test]
fn test_curve_cauchy() {
    let test_curve = Curve::Cauchy { a: F(1.4), b: F(2400.0) };
    let integral = test_curve.evaluate_integral(bounds(400.0, 800.0), 100, false);
    assert_eq!(integral.0 / 400.0, 1.4075);
}

#[test]
fn test_curve_polynomial() {
    let curve = Curve::Polynomial {
        domain_range_mapping: [F(600.0), F(200.0), F(0.5), F(0.06)],
        coefficients: [F(-1.0), F(1.0), F(-1.0), F(1.0), F(-1.0), F(1.0), F(-1.0), F(1.0)],
    };
    let result: Batch4<F> =
        curve.evaluate_power(Batch4::new(F(450.0), F(550.0), F(650.0), F(750.0)));
    println!("{:?}", result);
}

#[test]
fn test_curve_machine() {}

#[test]
fn test_cdf1() {
    let cdf: CurveWithCDF<F> = Curve::Linear {
        signal: test_signal(),
        bounds: bounded_visible_range(),
        mode: InterpolationMode::Cubic,
    }
    .to_cdf(bounded_visible_range(), 100);

    let mut s = 0.0;
    for _ in 0..100 {
        let (we, pdf): (WavelengthEnergy<F, F>, PDF<F, Uniform01>) =
            cdf.sample_power_and_pdf(bounded_visible_range(), random_sample());
        s += we.energy.0 / pdf.value().0;
    }
    println!("{}", s);
}

#[test]
fn test_cdf2() {
    let cdf: CurveWithCDF<F> = Curve::Exponential {
        signal: vec![bell(400.0, 200.0, 200.0, 0.9), bell(600.0, 200.0, 300.0, 1.0)],
    }
    .to_cdf(bounded_visible_range(), 100);

    let mut s = 0.0;
    for _ in 0..100 {
        let (we, pdf): (WavelengthEnergy<F, F>, PDF<F, Uniform01>) =
            cdf.sample_power_and_pdf(bounded_visible_range(), random_sample());
        s += we.energy.0 / pdf.value().0;
    }
    println!("{}", s);
}

#[test]
fn test_cdf3() {
    let cdf: CurveWithCDF<F> = Curve::Linear {
        signal: test_signal(),
        bounds: bounded_visible_range(),
        mode: InterpolationMode::Cubic,
    }
    .to_cdf(bounded_visible_range(), 100);

    let narrowed_bounds = bounds(500.0, 600.0);
    let mut s = 0.0;
    for _ in 0..100 {
        let (we, pdf): (WavelengthEnergy<F, F>, PDF<F, Uniform01>) =
            cdf.sample_power_and_pdf(narrowed_bounds, random_sample());
        s += we.energy.0 / pdf.value().0;
    }
    println!("{}", s);
}

#[test]
fn test_cdf4() {
    let narrowed_bounds = bounds(500.0, 600.0);

    let cdf: CurveWithCDF<F> = Curve::Exponential {
        signal: vec![bell(400.0, 200.0, 200.0, 0.9), bell(600.0, 200.0, 300.0, 1.0)],
    }
    .to_cdf(narrowed_bounds, 100);

    let mut s = 0.0;
    for _ in 0..100 {
        let (we, pdf): (WavelengthEnergy<F, F>, PDF<F, Uniform01>) =
            cdf.sample_power_and_pdf(bounded_visible_range(), random_sample());
        s += we.energy.0 / pdf.value().0;
    }
    println!("{}", s);
}

#[test]
fn test_area_pdf() {
    let area_pdf_distant_object: PDF<F, Area> = PDF::new(F(1.0));
    let solid_angle = area_pdf_distant_object.convert_to_solid_angle(F(0.5), F(2.0));
    let projected_solid_angle0 =
        area_pdf_distant_object.convert_to_projected_solid_angle(F(0.5), F(0.5), F(2.0));
    let projected_solid_angle1 = solid_angle.convert_to_projected_solid_angle(F(0.5));

    println!("{:?}", area_pdf_distant_object);
    println!("{:?}", solid_angle);
    println!("{:?}", projected_solid_angle0);
    println!("{:?}", projected_solid_angle1);
    assert!(projected_solid_angle0.value() == projected_solid_angle1.value());

    let area_pdf_distant_object: PDF<Batch4<F>, Area> =
        PDF::new(Batch4::new(F(0.1), F(0.4), F(0.2), F(10.0)));
    let solid_angle = area_pdf_distant_object.convert_to_solid_angle(F(0.5), F(2.0));
    let projected_solid_angle0 =
        area_pdf_distant_object.convert_to_projected_solid_angle(F(0.5), F(0.5), F(2.0));
    let projected_solid_angle1 = solid_angle.convert_to_projected_solid_angle(F(0.5));

    println!("{:?}", area_pdf_distant_object);
    println!("{:?}", solid_angle);
    println!("{:?}", projected_solid_angle0);
    println!("{:?}", projected_solid_angle1);
    let a = projected_solid_angle0.value();
    let b = projected_solid_angle1.value();
    assert!(a.l0 == b.l0 && a.l1 == b.l1 && a.l2 == b.l2 && a.l3 == b.l3);
}

#[test]
fn test_solid_angle_pdf() {}

#[test]
fn test_projected_solid_angle_pdf() {}

#[test]
fn sampling_a_curve_without_integral_is_refused() {
    let cdf = CurveWithCDF {
        pdf: Curve::Const(F(1.0)),
        cdf: Curve::Const(F(1.0)),
        pdf_integral: F(0.0),
    };
    let r = cdf.try_sample_power_and_pdf(bounds(0.0, 1.0), Sample1D::new(F(0.5)));
    assert_eq!(r.err(), Some(SampleError::ZeroIntegral));
    let _ = Op::Add;
}

#[test]
fn test_cdf_addition() {
    let cdf1: CurveWithCDF<F> = Curve::Exponential {
        signal: vec![bell(400.0, 100.0, 100.0, 0.9), bell(600.0, 100.0, 100.0, 1.0)],
    }
    .to_cdf(bounded_visible_range(), 100);

    for i in 0..100 {
        let lambda = bounded_visible_range().lerp(F(i as f32 / 100.0));
        println!("{}, {}, {}", lambda.0, cdf1.pdf.evaluate(lambda).0, cdf1.cdf.evaluate(lambda).0);
    }
    println!();
    let cdf2: CurveWithCDF<F> = Curve::Linear {
        signal: test_signal(),
        bounds: bounded_visible_range(),
        mode: InterpolationMode::Cubic,
    }
    .to_cdf(bounded_visible_range(), 100);

    for i in 0..100 {
        let lambda = bounded_visible_range().lerp(F(i as f32 / 100.0));
        println!("{}, {}, {}", lambda.0, cdf2.pdf.evaluate(lambda).0, cdf2.cdf.evaluate(lambda).0);
    }
    println!();
    let integral1 = cdf1.pdf_integral;
    let integral2 = cdf2.pdf_integral;

    let combined_spd = Curve::Machine {
        seed: F(0.0),
        list: vec![(Op::Add, cdf1.pdf), (Op::Add, cdf2.pdf)],
    };

    let combined_cdf_curve = Curve::Machine {
        seed: F(0.0),
        list: vec![(Op::Add, cdf1.cdf), (Op::Add, cdf2.cdf)],
    };

    let combined_cdf = CurveWithCDF {
        pdf: combined_spd,
        cdf: combined_cdf_curve,
        pdf_integral: F(integral1.0 + integral2.0),
    };
    for i in 0..100 {
        let lambda = bounded_visible_range().lerp(F(i as f32 / 100.0));
        println!(
            "{}, {}, {}",
            lambda.0,
            combined_cdf.pdf.evaluate(lambda).0,
            combined_cdf.cdf.evaluate(lambda).0
        );
    }

    let mut s = 0.0;
    for _ in 0..1000 {
        let (we, pdf): (WavelengthEnergy<F, F>, PDF<F, Uniform01>) =
            combined_cdf.sample_power_and_pdf(bounded_visible_range(), random_sample());
        s += we.energy.0 / pdf.value().0;
    }
    println!("\n\n{} {}", s / 1000.0, combined_cdf.pdf_integral.0);
}

#[test]
fn test_from_func() {
    let bounds = bounds(0.0, 1.0);
    let curve = Curve::from_function(|x: F| F(x.0 * x.0), 100, bounds, InterpolationMode::Cubic);

    let true_integral = |x: f32| x * x * x / 3.0;
    println!(
        "{}, {}",
        true_integral(1.0) - true_integral(0.0),
        curve.evaluate_integral(bounds, 100, false).0
    );
}

#[test]
fn test_cdf_from_func() {
    let bounds = bounds(0.0, 1.0);
    let curve = Curve::from_function(|x: F| F(x.0 * x.0), 100, bounds, InterpolationMode::Cubic);

    let true_integral = |x: f32| x * x * x / 3.0;
    let true_integral = true_integral(1.0) - true_integral(0.0);
    let cdf = curve.to_cdf(bounds, 100);

    println!("pdf integral is {}", cdf.pdf_integral.0);

    let samples = 100;
    let mut estimate = 0.0;
    let mut variance_pt_1 = 0.0;

    let mut min_sample_x = 1.0;
    for _ in 0..samples {
        let sample = random_sample();
        let (v, pdf): (WavelengthEnergy<F, F>, PDF<F, Uniform01>) =
            cdf.sample_power_and_pdf(bounds, sample);
        if v.lambda.0 < min_sample_x {
            min_sample_x = v.lambda.0;
        }
        estimate += v.energy.0 / pdf.value().0 / samples as f32;
        println!("{}, {}, {:?}", v.lambda.0, v.energy.0, pdf);
        variance_pt_1 += (v.energy.0 / pdf.value().0).powi(2) / samples as f32;
    }
    println!("estimate = {}, true_integral = {}", estimate, true_integral);
    println!("variance = {:?}", (variance_pt_1 - estimate.powi(2)) / (samples - 1) as f32);
    println!("lowest sample is {}", min_sample_x);
}

#[test]
fn test_cdf_sample_hwss() {
    let cdf: CurveWithCDF<F> = Curve::Linear {
        signal: test_signal(),
        bounds: bounded_visible_range(),
        mode: InterpolationMode::Cubic,
    }
    .to_cdf(bounded_visible_range(), 100);

    let mut s = Batch4::<F>::zero();
    for _ in 0..100 {
        let (we, pdf): (WavelengthEnergy<Batch4<F>, Batch4<F>>, PDF<Batch4<F>, Uniform01>) =
            cdf.sample_power_and_pdf(bounded_visible_range(), random_sample());
        s = s.add(we.energy.div(pdf.value()));
    }
    println!("{:?}", s);
}

#[test]
fn test_adaptive_stratified_sampling() {
    let complex_curve: Curve<F> = Curve::Linear {
        signal: vec![],
        bounds: bounds(0.0, 1.0),
        mode: InterpolationMode::Cubic,
    };
    assert!(!complex_curve.is_well_formed());
}

fn mc_integrate<Func, Sampler>(
    func: Func,
    bounds: Bounds1D<F>,
    mut sampler: Sampler,
    samples: u16,
) -> (F, F)
where
    Func: Fn(F) -> F,
    Sampler: FnMut(Bounds1D<F>, u16) -> (F, PDF<F, Uniform01>),
{
    let mut estimate = F::zero();
    let mut sos_estimate = F::zero();
    let n = F(samples as f32);
    for idx in 0..samples {
        let (sample, pdf) = sampler(bounds, idx);
        let fs = func(sample);
        estimate = estimate.add(fs.div(pdf.value()));
        sos_estimate = sos_estimate.add(fs.mul(fs).div(pdf.value()));
    }
    (estimate.div(n), sos_estimate.div(n))
}

#[test]
fn test_mc_integrate() {
    let (estimate, square_estimate) = mc_integrate(
        |x: F| F(x.0 * x.0 * x.0),
        bounds(0.0, 1.0),
        |b, _| {
            let sample = b.sample(F(debug_random()));
            let pdf = 1.0 / b.span().0;
            (sample, PDF::new(F(pdf)))
        },
        100,
    );
    let variance = square_estimate.0 - estimate.0 * estimate.0;
    println!("{:?}, var = {:?}", estimate, variance);

    let (estimate, square_estimate) = mc_integrate(
        |x: F| F(x.0 * x.0 * x.0),
        bounds(0.0, 1.0),
        |b, _| {
            let c = b.span().0 / 2.0;
            let u = debug_random();
            let x = u.sqrt();
            let sample = b.sample(F(x));
            let pdf = x / c;
            (sample, PDF::new(F(pdf)))
        },
        100,
    );
    let variance = square_estimate.0 - estimate.0 * estimate.0;
    println!("{:?}, var = {:?}", estimate, variance);
}

#[test]
fn cdf_of_samples_starts_at_zero_ends_at_one_and_does_not_fall() {
    let curve = linear(&[0.1, 0.4, 0.9, 1.5, 0.9, 2.0], 380.0, 780.0, InterpolationMode::Linear);
    let cdf = curve.to_cdf(bounds(0.0, 1.0), 7);
    let signal = cdf_signal(&cdf);
    assert_eq!(signal.len(), 7);
    assert_eq!(signal[0], 0.0);
    assert_eq!(signal[6], 1.0);
    for i in 1..signal.len() {
        assert!(signal[i - 1] <= signal[i]);
    }
    assert_eq!(cdf.cdf.evaluate(F(380.0)), F(0.0));
    assert_eq!(cdf.cdf.evaluate(F(780.0)), F(1.0));
    let mut last = 0.0;
    for i in 0..=400 {
        let v = cdf.cdf.evaluate(F(380.0 + i as f32)).0;
        assert!(v >= last - 1e-5);
        last = v;
    }
}

#[test]
fn cdf_of_samples_is_the_left_rule_sum() {
    let curve = linear(&[1.0, 2.0, 1.0], 0.0, 3.0, InterpolationMode::Nearest);
    let cdf = curve.to_cdf(bounds(10.0, 20.0), 1000);
    assert_eq!(cdf.pdf_integral, F(4.0));
    assert_eq!(cdf_signal(&cdf), vec![0.0, 0.25, 0.75, 1.0]);
    match &cdf.cdf {
        Curve::Linear { bounds, mode, .. } => {
            assert_eq!(bounds.lower, F(0.0));
            assert_eq!(bounds.upper, F(3.0));
            assert_eq!(*mode, InterpolationMode::Nearest);
        }
        _ => panic!("not a sampled curve"),
    }
}

#[test]
fn cdf_of_another_curve_is_sampled_and_cubic() {
    let cdf = Curve::Const(F(2.0)).to_cdf(bounds(0.0, 4.0), 4);
    assert_eq!(cdf.pdf_integral, F(8.0));
    assert_eq!(cdf_signal(&cdf), vec![0.0, 0.25, 0.5, 0.75, 1.0]);
    match &cdf.cdf {
        Curve::Linear { bounds, mode, .. } => {
            assert_eq!(bounds.lower, F(0.0));
            assert_eq!(bounds.upper, F(4.0));
            assert_eq!(*mode, InterpolationMode::Cubic);
        }
        _ => panic!("not a sampled curve"),
    }
    assert_eq!(cdf.cdf.evaluate(F(0.0)), F(0.0));
    assert_eq!(cdf.cdf.evaluate(F(4.0)), F(1.0));
    let cauchy = Curve::Cauchy { a: F(1.0), b: F(4.0) }.to_cdf(bounds(1.0, 3.0), 2);
    assert_eq!(cauchy.pdf_integral, F(7.0));
    assert_eq!(cdf_signal(&cauchy), vec![0.0, 5.0 / 7.0, 1.0]);
}

#[test]
fn cdf_total_is_the_left_rule_sum_with_the_width() {
    let half = Curve::Const(F(0.5)).to_cdf(bounds(100.0, 200.0), 10);
    assert_eq!(half.pdf_integral, F(50.0));
    let signal = cdf_signal(&half);
    assert_eq!(signal.len(), 11);
    assert_eq!(signal[0], 0.0);
    assert_eq!(signal[10], 1.0);
    for i in 0..=10 {
        assert!((signal[i] - i as f32 / 10.0).abs() < 1e-6);
    }
    let wide = Curve::Cauchy { a: F(1.0), b: F(4.0) }.to_cdf(bounds(1.0, 5.0), 2);
    assert_eq!(wide.pdf_integral, F(5.0 * 2.0 + (1.0 + 4.0 / 9.0) * 2.0));
    assert_eq!(cdf_signal(&wide), vec![0.0, 10.0 / (10.0 + (1.0 + 4.0 / 9.0) * 2.0), 1.0]);
    let narrow = Curve::Const(F(3.0)).to_cdf(bounds(0.0, 1.0), 4);
    assert_eq!(narrow.pdf_integral, F(3.0));
    assert_eq!(cdf_signal(&narrow), vec![0.0, 0.25, 0.5, 0.75, 1.0]);
    let sampled = linear(&[1.0, 2.0, 1.0], 0.0, 6.0, InterpolationMode::Linear).to_cdf(bounds(0.0, 1.0), 9);
    assert_eq!(sampled.pdf_integral, F(8.0));
    assert_eq!(cdf_signal(&sampled), vec![0.0, 0.25, 0.75, 1.0]);
}

#[test]
fn every_draw_of_another_curve_gives_its_integral() {
    let cdf = Curve::Const(F(0.5)).to_cdf(bounds(100.0, 200.0), 10);
    let mut rng = seeded(29);
    for _ in 0..200 {
        let (we, pdf): (WavelengthEnergy<F, F>, PDF<F, Uniform01>) =
            cdf.sample_power_and_pdf(bounds(100.0, 200.0), Sample1D::new(F(draw(&mut rng))));
        assert!(we.lambda.0 >= 100.0 && we.lambda.0 <= 200.0);
        assert_eq!(we.energy, F(0.5));
        assert_eq!(we.energy.0 / pdf.value().0, 50.0);
    }
}

#[test]
fn distribution_is_cloned_and_has_a_default() {
    let cdf = linear(&[1.0, 3.0], 0.0, 2.0, InterpolationMode::Linear).to_cdf(bounds(0.0, 2.0), 10);
    let copy = cdf.clone();
    assert_eq!(copy.pdf_integral, cdf.pdf_integral);
    assert_eq!(cdf_signal(&copy), cdf_signal(&cdf));
    for x in [0.0f32, 0.5, 1.5, 2.0] {
        assert_eq!(copy.pdf.evaluate(F(x)), cdf.pdf.evaluate(F(x)));
        assert_eq!(copy.cdf.evaluate(F(x)), cdf.cdf.evaluate(F(x)));
    }
    let none: CurveWithCDF<F> = CurveWithCDF::default();
    assert_eq!(none.pdf_integral, F(0.0));
    assert_eq!(none.pdf.evaluate(F(1.0)), F(0.0));
    assert_eq!(none.cdf.evaluate(F(1.0)), F(0.0));
    let r = none.try_sample_power_and_pdf(bounds(0.0, 1.0), Sample1D::new(F(0.5)));
    assert_eq!(r.err(), Some(SampleError::ZeroIntegral));
}

#[test]
fn monte_carlo_estimate_agrees_with_the_integral() {
    let values = [0.1, 0.4, 0.9, 1.5, 0.9, 2.0, 1.0, 0.4, 0.6, 0.9];
    let curve = linear(&values, 400.0, 700.0, InterpolationMode::Linear);
    let manual: f32 = values.iter().sum::<f32>() * 30.0;
    let cdf = curve.to_cdf(bounds(400.0, 700.0), 100);
    assert!((cdf.pdf_integral.0 - manual).abs() < 1e-3);
    let mut rng = seeded(7);
    let mut s = 0.0;
    for _ in 0..1000 {
        let (we, pdf): (WavelengthEnergy<F, F>, PDF<F, Uniform01>) =
            cdf.sample_power_and_pdf(bounds(400.0, 700.0), Sample1D::new(F(draw(&mut rng))));
        s += we.energy.0 / pdf.value().0;
    }
    let estimate = s / 1000.0;
    assert!((estimate - manual).abs() < 0.05 * manual, "{} {}", estimate, manual);
}

#[test]
fn narrowed_bounds_give_wavelengths_within_them() {
    let values = [0.1, 0.4, 0.9, 1.5, 0.9, 2.0, 1.0, 0.4, 0.6, 0.9];
    let curve = linear(&values, 400.0, 700.0, InterpolationMode::Linear);
    let cdf = curve.to_cdf(bounds(400.0, 700.0), 100);
    let narrowed = bounds(500.0, 600.0);
    let mut rng = seeded(11);
    for _ in 0..1000 {
        let (we, pdf): (WavelengthEnergy<F, F>, PDF<F, Uniform01>) =
            cdf.sample_power_and_pdf(narrowed, Sample1D::new(F(draw(&mut rng))));
        assert!(we.lambda.0 >= 400.0 && we.lambda.0 <= 700.0);
        assert!(we.lambda.0 >= 500.0 - 1e-3 && we.lambda.0 <= 600.0 + 1e-3, "{}", we.lambda.0);
        assert!((we.energy.0 / pdf.value().0 - cdf.pdf_integral.0).abs() < 1e-3 * cdf.pdf_integral.0);
    }
}

#[test]
fn integral_of_a_constant_is_exact() {
    let test_curve = Curve::Const(F(0.5));
    for samples in [1usize, 2, 4, 5, 8, 10, 16, 20, 25, 40, 50, 100] {
        let integral = test_curve.evaluate_integral(bounds(100.0, 200.0), samples, false);
        assert_eq!(integral, F(50.0), "{} steps", samples);
    }
    assert_eq!(test_curve.evaluate_integral(bounds(100.0, 200.0), 0, false), F(0.0));
    assert_eq!(Curve::Const(F(2.0)).evaluate_integral(bounds(0.0, 4.0), 4, true), F(4.0 * 0.99999988));
}

#[test]
fn trapezoids_follow_the_curve() {
    let curve = linear(&[0.0, 2.0, 4.0, 6.0, 8.0], 0.0, 5.0, InterpolationMode::Linear);
    assert_eq!(curve.evaluate_integral(bounds(0.0, 4.0), 4, false), F(16.0));
}

#[test]
fn batched_evaluation_equals_four_single_ones() {
    let lambda = Batch4::new(F(401.5), F(512.25), F(633.0), F(779.9));
    let curves = vec![
        linear(&[0.1, 0.4, 0.9, 1.5, 0.9, 2.0], 380.0, 780.0, InterpolationMode::Linear),
        linear(&[0.1, 0.4, 0.9, 1.5, 0.9, 2.0], 380.0, 780.0, InterpolationMode::Cubic),
        Curve::Exponential {
            signal: vec![bell(400.0, 200.0, 200.0, 0.9), bell(600.0, 200.0, 300.0, 1.0)],
        },
        Curve::Blackbody { temperature: F(5400.0), boost: F(1.0) },
        Curve::Blackbody { temperature: F(5400.0), boost: F(0.0) },
    ];
    for curve in curves.iter() {
        let batch: Batch4<F> = curve.evaluate_power(lambda);
        for i in 0..4 {
            let single: F = curve.evaluate_power(lambda.lane(i));
            assert_eq!(batch.lane(i), single);
            assert_eq!(single, F(curve.evaluate(lambda.lane(i)).0.max(0.0)));
        }
        let clamped: Batch4<F> = curve.evaluate_clamped(lambda);
        for i in 0..4 {
            let single: F = curve.evaluate_clamped(lambda.lane(i));
            assert_eq!(clamped.lane(i), single);
        }
    }
}

#[test]
fn table_gives_its_end_values_outside() {
    for mode in [InterpolationMode::Linear, InterpolationMode::Nearest, InterpolationMode::Cubic] {
        let curve = table(&[(400.0, 0.25), (500.0, 0.75), (700.0, 0.5)], mode);
        assert_eq!(curve.evaluate(F(100.0)), F(0.25));
        assert_eq!(curve.evaluate(F(399.99)), F(0.25));
        assert_eq!(curve.evaluate(F(400.0)), F(0.25));
        assert_eq!(curve.evaluate(F(700.01)), F(0.5));
        assert_eq!(curve.evaluate(F(10000.0)), F(0.5));
    }
}

#[test]
fn table_interpolates_between_its_pairs() {
    let pairs = [(400.0, 0.25), (500.0, 0.75), (700.0, 0.5)];
    let curve = table(&pairs, InterpolationMode::Linear);
    assert_eq!(curve.evaluate(F(450.0)), F(0.5));
    assert_eq!(curve.evaluate(F(500.0)), F(0.75));
    assert_eq!(curve.evaluate(F(600.0)), F(0.625));
    let curve = table(&pairs, InterpolationMode::Nearest);
    assert_eq!(curve.evaluate(F(449.0)), F(0.25));
    assert_eq!(curve.evaluate(F(450.0)), F(0.75));
    assert_eq!(curve.evaluate(F(650.0)), F(0.5));
    let curve = table(&pairs, InterpolationMode::Cubic);
    assert_eq!(curve.evaluate(F(450.0)), F(0.5));
    assert_eq!(curve.evaluate(F(425.0)), F(0.84375 * 0.25 + 0.15625 * 0.75));
}

#[test]
fn samples_give_their_edge_values_outside() {
    for mode in [InterpolationMode::Linear, InterpolationMode::Nearest, InterpolationMode::Cubic] {
        let curve = linear(&[1.0, 2.0, 4.0, 8.0], 0.0, 4.0, mode);
        assert_eq!(curve.evaluate(F(-1.0)), F(1.0));
        assert_eq!(curve.evaluate(F(0.0)), F(1.0));
        assert_eq!(curve.evaluate(F(4.0)), F(8.0));
        assert_eq!(curve.evaluate(F(100.0)), F(8.0));
        assert_eq!(curve.evaluate(F(3.5)), F(8.0));
    }
}

#[test]
fn samples_are_interpolated_within_a_bin() {
    let values = [1.0, 2.0, 4.0, 8.0];
    let curve = linear(&values, 0.0, 4.0, InterpolationMode::Linear);
    assert_eq!(curve.evaluate(F(0.5)), F(1.5));
    assert_eq!(curve.evaluate(F(1.25)), F(2.5));
    assert_eq!(curve.evaluate(F(2.75)), F(7.0));
    let curve = linear(&values, 0.0, 4.0, InterpolationMode::Nearest);
    assert_eq!(curve.evaluate(F(1.25)), F(2.0));
    assert_eq!(curve.evaluate(F(1.5)), F(4.0));
    assert_eq!(curve.evaluate(F(1.75)), F(4.0));
    let curve = linear(&values, 0.0, 4.0, InterpolationMode::Cubic);
    assert_eq!(curve.evaluate(F(1.5)), F(3.0));
    assert_eq!(curve.evaluate(F(1.25)), F(0.84375 * 2.0 + 0.15625 * 4.0));
}

#[test]
fn polynomial_is_remapped_and_floored() {
    let curve = Curve::Polynomial {
        domain_range_mapping: [F(600.0), F(200.0), F(0.5), F(2.0)],
        coefficients: [F(1.0), F(1.0), F(0.0), F(0.0), F(0.0), F(0.0), F(0.0), F(1.0)],
    };
    assert!(curve.is_well_formed());
    assert_eq!(curve.evaluate(F(600.0)), F(0.5));
    assert_eq!(curve.evaluate(F(700.0)), F(0.5 + 2.0 * 0.5 + 2.0 * 0.25 + 2.0 * 0.00390625));
    assert_eq!(curve.evaluate(F(500.0)), F(0.5 - 1.0 + 0.5 + 2.0 * 0.00390625));
    let falling = Curve::Polynomial {
        domain_range_mapping: [F(0.0), F(1.0), F(0.0), F(1.0)],
        coefficients: [F(-1.0), F(0.0), F(0.0), F(0.0), F(0.0), F(0.0), F(0.0), F(0.0)],
    };
    assert_eq!(falling.evaluate(F(3.0)), F(0.0));
    assert_eq!(falling.evaluate(F(-3.0)), F(3.0));
    let unscaled = Curve::Polynomial {
        domain_range_mapping: [F(0.0), F(0.0), F(0.0), F(1.0)],
        coefficients: [F(0.0); 8],
    };
    assert!(!unscaled.is_well_formed());
}

#[test]
fn cauchy_is_closed_form() {
    let curve = Curve::Cauchy { a: F(1.5), b: F(8.0) };
    assert_eq!(curve.evaluate(F(2.0)), F(3.5));
    assert_eq!(curve.evaluate(F(4.0)), F(2.0));
}

#[test]
fn bells_add_up_and_the_inverse_is_floored() {
    let one = Curve::Exponential { signal: vec![bell(500.0, 10.0, 20.0, 0.75)] };
    assert_eq!(one.evaluate(F(500.0)), F(0.75));
    assert_eq!(one.evaluate(F(490.0)), F(0.75 * (-0.5f32).exp()));
    assert_eq!(one.evaluate(F(520.0)), F(0.75 * (-0.5f32).exp()));
    assert_eq!(one.evaluate(F(510.0)), F(0.75 * (-0.125f32).exp()));
    let two = Curve::Exponential {
        signal: vec![bell(500.0, 10.0, 20.0, 0.75), bell(500.0, 10.0, 10.0, 0.5)],
    };
    assert_eq!(two.evaluate(F(500.0)), F(1.25));
    let inverse = Curve::InverseExponential { signal: vec![bell(500.0, 10.0, 20.0, 0.75)] };
    assert_eq!(inverse.evaluate(F(500.0)), F(0.25));
    let deep = Curve::InverseExponential { signal: vec![bell(500.0, 10.0, 20.0, 1.5)] };
    assert_eq!(deep.evaluate(F(500.0)), F(0.0));
    let none: Curve<F> = Curve::InverseExponential { signal: vec![] };
    assert_eq!(none.evaluate(F(500.0)), F(1.0));
}

#[test]
fn blackbody_with_boost_peaks_at_the_boost() {
    let temperature = 5400.0f32;
    let peak = math::misc::max_blackbody_lambda(F(temperature));
    assert!((peak.0 - 536.6245).abs() < 0.01);
    let curve = Curve::Blackbody { temperature: F(temperature), boost: F(3.0) };
    assert!((curve.evaluate(peak).0 - 3.0).abs() < 1e-5);
    assert!(curve.evaluate(F(peak.0 - 50.0)).0 < 3.0);
    assert!(curve.evaluate(F(peak.0 + 50.0)).0 < 3.0);
    let raw = Curve::Blackbody { temperature: F(temperature), boost: F(0.0) };
    assert_eq!(raw.evaluate(F(600.0)), math::misc::blackbody(F(temperature), F(600.0)));
    let radiance = raw.evaluate(F(600.0)).0;
    let l = 600.0e-9f64;
    let expected = l.powi(-5) * 1.1910429723971884e-29 / ((1.438777085924334e-2 / (l * 5400.0)).exp() - 1.0);
    assert!((radiance as f64 / expected - 1.0).abs() < 1e-4, "{} {}", radiance, expected);
}

#[test]
fn machine_folds_from_the_left_and_is_floored() {
    let machine = Curve::Machine {
        seed: F(1.0),
        list: vec![
            (Op::Add, Curve::Const(F(2.0))),
            (Op::Mul, Curve::Const(F(4.0))),
            (Op::Add, Curve::Cauchy { a: F(0.5), b: F(0.0) }),
        ],
    };
    assert!(machine.is_well_formed());
    assert_eq!(machine.evaluate(F(500.0)), F(12.5));
    let empty: Curve<F> = Curve::Machine { seed: F(-3.0), list: vec![] };
    assert_eq!(empty.evaluate(F(500.0)), F(0.0));
    let nested = Curve::Machine {
        seed: F(0.0),
        list: vec![(Op::Add, machine.clone()), (Op::Mul, Curve::Const(F(2.0)))],
    };
    assert_eq!(nested.evaluate(F(500.0)), F(25.0));
    let broken: Curve<F> = Curve::Machine {
        seed: F(0.0),
        list: vec![(Op::Add, Curve::Tabulated { signal: vec![], mode: InterpolationMode::Linear })],
    };
    assert!(!broken.is_well_formed());
}

#[test]
fn constant_is_floored_at_zero() {
    assert_eq!(Curve::Const(F(-1.0)).evaluate(F(3.0)), F(0.0));
    assert_eq!(Curve::Const(F(0.25)).evaluate(F(3.0)), F(0.25));
    let zero: Curve<F> = Curve::default();
    assert_eq!(zero.evaluate(F(3.0)), F(0.0));
}

#[test]
fn clamped_values_stay_below_one() {
    let curve = Curve::Const(F(7.0));
    let clamped: F = curve.evaluate_clamped(F(500.0));
    assert_eq!(clamped, F(1.0 - f32::EPSILON));
    let power: F = curve.evaluate_power(F(500.0));
    assert_eq!(power, F(7.0));
    let low = Curve::Cauchy { a: F(-2.0), b: F(0.0) };
    let clamped: F = low.evaluate_clamped(F(500.0));
    assert_eq!(clamped, F(0.0));
    let power: F = low.evaluate_power(F(500.0));
    assert_eq!(power, F(0.0));
    assert_eq!(low.evaluate(F(500.0)), F(-2.0));
}

#[test]
fn clone_holds_the_same() {
    let curve = Curve::Machine {
        seed: F(1.0),
        list: vec![(Op::Mul, linear(&[1.0, 2.0, 4.0, 8.0], 0.0, 4.0, InterpolationMode::Linear))],
    };
    let copy = curve.clone();
    for x in [-1.0f32, 0.5, 1.25, 2.75, 9.0] {
        assert_eq!(copy.evaluate(F(x)), curve.evaluate(F(x)));
    }
}

#[test]
fn from_function_samples_the_middle_of_each_bin() {
    let curve = Curve::from_function(|x: F| F(2.0 * x.0), 4, bounds(0.0, 8.0), InterpolationMode::Nearest);
    match &curve {
        Curve::Linear { signal, bounds, mode } => {
            assert_eq!(signal, &samples(&[2.0, 6.0, 10.0, 14.0]));
            assert_eq!(bounds.lower, F(0.0));
            assert_eq!(bounds.upper, F(8.0));
            assert_eq!(*mode, InterpolationMode::Nearest);
        }
        _ => panic!("not a sampled curve"),
    }
}

#[test]
fn search_counts_the_entries_below() {
    let v = samples(&[0.0, 0.25, 0.25, 0.5, 1.0]);
    assert_eq!(math::curves::search_samples(&v, F(-1.0)), 0);
    assert_eq!(math::curves::search_samples(&v, F(0.0)), 0);
    assert_eq!(math::curves::search_samples(&v, F(0.1)), 1);
    assert_eq!(math::curves::search_samples(&v, F(0.25)), 1);
    assert_eq!(math::curves::search_samples(&v, F(0.3)), 3);
    assert_eq!(math::curves::search_samples(&v, F(1.0)), 4);
    assert_eq!(math::curves::search_samples(&v, F(2.0)), 5);
    let t = vec![(F(1.0), F(0.0)), (F(2.0), F(0.0)), (F(3.0), F(0.0))];
    assert_eq!(math::curves::search_table(&t, F(0.0)), 0);
    assert_eq!(math::curves::search_table(&t, F(2.0)), 1);
    assert_eq!(math::curves::search_table(&t, F(2.5)), 2);
    assert_eq!(math::curves::search_table(&t, F(4.0)), 3);
}

#[test]
fn draw_inverts_a_linear_distribution() {
    let curve = linear(&[1.0, 3.0], 0.0, 2.0, InterpolationMode::Linear);
    let cdf = curve.to_cdf(bounds(0.0, 2.0), 10);
    assert_eq!(cdf_signal(&cdf), vec![0.0, 0.25, 1.0]);
    let at = |u: f32| {
        let (we, pdf) = cdf.try_sample_power_and_pdf(bounds(0.0, 2.0), Sample1D::new(F(u))).unwrap();
        (we.lambda.0, we.energy.0, pdf.value().0)
    };
    assert_eq!(at(0.0).0, 0.0);
    let (lambda, energy, pdf) = at(0.125);
    assert_eq!(lambda, 0.5 * (2.0 / 3.0));
    assert_eq!(energy, curve.evaluate(F(lambda)).0);
    assert_eq!(pdf, energy / 4.0);
    let (lambda, _, _) = at(0.625);
    assert_eq!(lambda, 0.5 * (2.0 / 3.0) + 0.5 * (4.0 / 3.0));
    let (lambda, _, _) = at(1.0);
    assert_eq!(lambda, 4.0 / 3.0);
}

#[test]
fn draw_at_a_flat_stretch_takes_its_left_end() {
    let cdf = CurveWithCDF {
        pdf: Curve::Const(F(1.0)),
        cdf: linear(&[0.0, 0.5, 0.5, 1.0], 0.0, 4.0, InterpolationMode::Linear),
        pdf_integral: F(2.0),
    };
    let (we, pdf) = cdf.try_sample_power_and_pdf(bounds(0.0, 4.0), Sample1D::new(F(0.5))).unwrap();
    assert_eq!(we.lambda, F(1.0));
    assert_eq!(we.energy, F(1.0));
    assert_eq!(pdf.value(), F(0.5));
    let (we, _) = cdf.try_sample_power_and_pdf(bounds(0.0, 4.0), Sample1D::new(F(0.75))).unwrap();
    assert_eq!(we.lambda, F(2.5));
}

#[test]
fn draw_with_a_constant_distribution_is_even() {
    let cdf = CurveWithCDF {
        pdf: Curve::Cauchy { a: F(9.0), b: F(0.0) },
        cdf: Curve::Const(F(0.75)),
        pdf_integral: F(4.0),
    };
    let (we, pdf) = cdf.try_sample_power_and_pdf(bounds(100.0, 200.0), Sample1D::new(F(0.25))).unwrap();
    assert_eq!(we.lambda, F(125.0));
    assert_eq!(we.energy, F(0.75));
    assert_eq!(pdf.value(), F(0.25));
}

#[test]
fn draw_with_another_distribution_falls_back_on_the_curve() {
    let cdf = CurveWithCDF {
        pdf: Curve::Cauchy { a: F(9.0), b: F(0.0) },
        cdf: Curve::Cauchy { a: F(0.5), b: F(0.0) },
        pdf_integral: F(4.0),
    };
    let (we, pdf) = cdf.try_sample_power_and_pdf(bounds(100.0, 200.0), Sample1D::new(F(0.25))).unwrap();
    assert_eq!(we.lambda, F(125.0));
    assert_eq!(we.energy, F(9.0));
    assert_eq!(pdf.value(), F(0.01));
    let (we, pdf): (WavelengthEnergy<F, F>, PDF<F, Uniform01>) =
        Curve::Const(F(3.0)).sample_power_and_pdf(bounds(100.0, 300.0), Sample1D::new(F(0.5)));
    assert_eq!(we.lambda, F(200.0));
    assert_eq!(we.energy, F(3.0));
    assert_eq!(pdf.value(), F(0.005));
}

#[test]
fn draw_above_the_distribution_is_refused() {
    let cdf = CurveWithCDF {
        pdf: Curve::Const(F(1.0)),
        cdf: linear(&[0.0, 0.25, 0.5], 0.0, 1.0, InterpolationMode::Linear),
        pdf_integral: F(1.0),
    };
    let r = cdf.try_sample_power_and_pdf(bounds(0.0, 1.0), Sample1D::new(F(3.0)));
    assert_eq!(r.err(), Some(SampleError::AboveDistribution));
    let r = cdf.try_sample_power_and_pdf_hero(bounds(0.0, 1.0), Sample1D::new(F(3.0)));
    assert_eq!(r.err(), Some(SampleError::AboveDistribution));
}

#[test]
fn draw_between_entries_that_do_not_compare_is_refused() {
    let cdf = CurveWithCDF {
        pdf: Curve::Const(F(1.0)),
        cdf: linear(&[0.0, f32::NAN, 1.0], 0.0, 1.0, InterpolationMode::Linear),
        pdf_integral: F(1.0),
    };
    let r = cdf.try_sample_power_and_pdf(bounds(0.0, 1.0), Sample1D::new(F(0.5)));
    assert_eq!(r.err(), Some(SampleError::FractionOutOfRange));
}

#[test]
fn draw_without_integral_is_refused_whatever_the_distribution() {
    for integral in [0.0f32, -1.0, f32::NAN] {
        let cdf = CurveWithCDF {
            pdf: Curve::Const(F(1.0)),
            cdf: linear(&[0.0, 1.0], 0.0, 1.0, InterpolationMode::Linear),
            pdf_integral: F(integral),
        };
        let r = cdf.try_sample_power_and_pdf(bounds(0.0, 1.0), Sample1D::new(F(0.5)));
        assert_eq!(r.err(), Some(SampleError::ZeroIntegral));
        let r = cdf.try_sample_power_and_pdf_hero(bounds(0.0, 1.0), Sample1D::new(F(0.5)));
        assert_eq!(r.err(), Some(SampleError::ZeroIntegral));
    }
}

#[test]
fn hero_draw_spreads_over_the_bounds_with_one_density() {
    let curve = linear(&[1.0, 3.0], 0.0, 2.0, InterpolationMode::Linear);
    let cdf = curve.to_cdf(bounds(0.0, 2.0), 10);
    let (single, _) = cdf.try_sample_power_and_pdf(bounds(0.0, 2.0), Sample1D::new(F(0.125))).unwrap();
    let (we, pdf) = cdf.try_sample_power_and_pdf_hero(bounds(0.0, 2.0), Sample1D::new(F(0.125))).unwrap();
    let hero = single.lambda.0;
    let u = (hero - 0.0) / 2.0;
    let expected = [0.0 + (u * 2.0 + 0.0 * 0.5), 0.0 + (u * 2.0 + 1.0 * 0.5), 0.0 + (u * 2.0 + 2.0 * 0.5), 0.0 + (u * 2.0 + 3.0 * 0.5)];
    for i in 0..4 {
        assert_eq!(we.lambda.lane(i), F(expected[i]));
        assert_eq!(we.energy.lane(i), F(curve.evaluate(we.lambda.lane(i)).0.max(0.0)));
        assert_eq!(pdf.value().lane(i), F(we.energy.l0.0 / 4.0));
    }
}

#[test]
fn hero_wavelengths_wrap_at_the_upper_bound() {
    let we: WavelengthEnergy<Batch4<F>, Batch4<F>> =
        <WavelengthEnergy<Batch4<F>, Batch4<F>> as math::spectral::WavelengthEnergyTrait<
            F,
            Batch4<F>,
            Batch4<F>,
        >>::new_from_range(F(0.5), bounds(400.0, 800.0));
    assert_eq!(we.lambda.l0, F(600.0));
    assert_eq!(we.lambda.l1, F(700.0));
    assert_eq!(we.lambda.l2, F(800.0));
    assert_eq!(we.lambda.l3, F(500.0));
    assert_eq!(we.energy.l0, F(0.0));
    let single: WavelengthEnergy<F, F> =
        <WavelengthEnergy<F, F> as math::spectral::WavelengthEnergyTrait<F, F, F>>::new_from_range(
            F(0.25),
            bounds(400.0, 800.0),
        );
    assert_eq!(single.lambda, F(500.0));
    assert_eq!(single.energy, F(0.0));
    assert_eq!(single.replace_energy(F(2.0)).energy, F(2.0));
    assert_eq!(single.replace_energy(F(2.0)).lambda, F(500.0));
}

#[test]
fn draw_for_a_range_past_the_last_entry_stays_at_that_entry() {
    let curve = linear(&[1.0, 3.0], 0.0, 2.0, InterpolationMode::Linear);
    let cdf = curve.to_cdf(bounds(0.0, 2.0), 10);
    for u in [0.0f32, 0.5, 0.99] {
        let (we, _) = cdf.try_sample_power_and_pdf(bounds(1.5, 2.0), Sample1D::new(F(u))).unwrap();
        assert_eq!(we.lambda, F(4.0 / 3.0));
    }
}
