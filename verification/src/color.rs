use crate::batch::Batch4;
use crate::misc::{gaussian, gaussian_f32x4, gaussian_spec};
use crate::spectral::WavelengthEnergy;
use crate::traits::{Field, Scalar};
use vstd::prelude::*;
use vstd::std_specs::convert::FromSpecImpl;

verus! {

/// A color as its three CIE tristimulus values, X, Y and Z, in the first
/// three lanes.
#[derive(Copy, Clone, Debug)]
pub struct XYZColor<S: Scalar>(pub Batch4<S>);

/// The response of the eye's X channel at a wavelength in ångström: three bells.
pub open spec fn x_bar_spec<S: Scalar>(angstroms: S) -> S {
    gaussian_spec(
        angstroms,
        S::from_decimal_spec(1056, 3),
        S::from_index_spec(5998),
        S::from_index_spec(379),
        S::from_index_spec(310),
    ).add_spec(
        gaussian_spec(
            angstroms,
            S::from_decimal_spec(362, 3),
            S::from_index_spec(4420),
            S::from_index_spec(160),
            S::from_index_spec(267),
        ),
    ).add_spec(
        gaussian_spec(
            angstroms,
            S::from_decimal_spec(65, 3).neg_spec(),
            S::from_index_spec(5011),
            S::from_index_spec(204),
            S::from_index_spec(262),
        ),
    )
}

/// The response of the Y channel, the luminosity: two bells.
pub open spec fn y_bar_spec<S: Scalar>(angstroms: S) -> S {
    gaussian_spec(
        angstroms,
        S::from_decimal_spec(821, 3),
        S::from_index_spec(5688),
        S::from_index_spec(469),
        S::from_index_spec(405),
    ).add_spec(
        gaussian_spec(
            angstroms,
            S::from_decimal_spec(286, 3),
            S::from_index_spec(5309),
            S::from_index_spec(163),
            S::from_index_spec(311),
        ),
    )
}

/// The response of the Z channel: two bells.
pub open spec fn z_bar_spec<S: Scalar>(angstroms: S) -> S {
    gaussian_spec(
        angstroms,
        S::from_decimal_spec(1217, 3),
        S::from_index_spec(4370),
        S::from_index_spec(118),
        S::from_index_spec(360),
    ).add_spec(
        gaussian_spec(
            angstroms,
            S::from_decimal_spec(681, 3),
            S::from_index_spec(4590),
            S::from_index_spec(260),
            S::from_index_spec(138),
        ),
    )
}

pub fn x_bar<S: Scalar>(angstroms: S) -> (r: S)
    ensures
        r == x_bar_spec(angstroms),
{
    gaussian(
        angstroms,
        S::from_decimal(1056, 3),
        S::from_index(5998),
        S::from_index(379),
        S::from_index(310),
    ).add(
        gaussian(
            angstroms,
            S::from_decimal(362, 3),
            S::from_index(4420),
            S::from_index(160),
            S::from_index(267),
        ),
    ).add(
        gaussian(
            angstroms,
            S::from_decimal(65, 3).neg(),
            S::from_index(5011),
            S::from_index(204),
            S::from_index(262),
        ),
    )
}

pub fn y_bar<S: Scalar>(angstroms: S) -> (r: S)
    ensures
        r == y_bar_spec(angstroms),
{
    gaussian(
        angstroms,
        S::from_decimal(821, 3),
        S::from_index(5688),
        S::from_index(469),
        S::from_index(405),
    ).add(
        gaussian(
            angstroms,
            S::from_decimal(286, 3),
            S::from_index(5309),
            S::from_index(163),
            S::from_index(311),
        ),
    )
}

pub fn z_bar<S: Scalar>(angstroms: S) -> (r: S)
    ensures
        r == z_bar_spec(angstroms),
{
    gaussian(
        angstroms,
        S::from_decimal(1217, 3),
        S::from_index(4370),
        S::from_index(118),
        S::from_index(360),
    ).add(
        gaussian(
            angstroms,
            S::from_decimal(681, 3),
            S::from_index(4590),
            S::from_index(260),
            S::from_index(138),
        ),
    )
}

/// The X response at four wavelengths at once, each lane by itself.
pub fn x_bar_f32x4<S: Scalar>(angstroms: Batch4<S>) -> (r: Batch4<S>)
    ensures
        r.l0 == x_bar_spec(angstroms.l0),
        r.l1 == x_bar_spec(angstroms.l1),
        r.l2 == x_bar_spec(angstroms.l2),
        r.l3 == x_bar_spec(angstroms.l3),
{
    gaussian_f32x4(
        angstroms,
        S::from_decimal(1056, 3),
        S::from_index(5998),
        S::from_index(379),
        S::from_index(310),
    ).add(
        gaussian_f32x4(
            angstroms,
            S::from_decimal(362, 3),
            S::from_index(4420),
            S::from_index(160),
            S::from_index(267),
        ),
    ).add(
        gaussian_f32x4(
            angstroms,
            S::from_decimal(65, 3).neg(),
            S::from_index(5011),
            S::from_index(204),
            S::from_index(262),
        ),
    )
}

/// The Y response at four wavelengths at once.
pub fn y_bar_f32x4<S: Scalar>(angstroms: Batch4<S>) -> (r: Batch4<S>)
    ensures
        r.l0 == y_bar_spec(angstroms.l0),
        r.l1 == y_bar_spec(angstroms.l1),
        r.l2 == y_bar_spec(angstroms.l2),
        r.l3 == y_bar_spec(angstroms.l3),
{
    gaussian_f32x4(
        angstroms,
        S::from_decimal(821, 3),
        S::from_index(5688),
        S::from_index(469),
        S::from_index(405),
    ).add(
        gaussian_f32x4(
            angstroms,
            S::from_decimal(286, 3),
            S::from_index(5309),
            S::from_index(163),
            S::from_index(311),
        ),
    )
}

/// The Z response at four wavelengths at once.
pub fn z_bar_f32x4<S: Scalar>(angstroms: Batch4<S>) -> (r: Batch4<S>)
    ensures
        r.l0 == z_bar_spec(angstroms.l0),
        r.l1 == z_bar_spec(angstroms.l1),
        r.l2 == z_bar_spec(angstroms.l2),
        r.l3 == z_bar_spec(angstroms.l3),
{
    gaussian_f32x4(
        angstroms,
        S::from_decimal(1217, 3),
        S::from_index(4370),
        S::from_index(118),
        S::from_index(360),
    ).add(
        gaussian_f32x4(
            angstroms,
            S::from_decimal(681, 3),
            S::from_index(4590),
            S::from_index(260),
            S::from_index(138),
        ),
    )
}

/// The color of the energy `val` at a wavelength given in ångström: the
/// energy times each channel's response.
pub open spec fn response_spec<S: Scalar>(val: S, angstroms: S) -> Batch4<S> {
    Batch4 {
        l0: val.mul_spec(x_bar_spec(angstroms)),
        l1: val.mul_spec(y_bar_spec(angstroms)),
        l2: val.mul_spec(z_bar_spec(angstroms)),
        l3: S::zero_spec(),
    }
}

impl<S: Scalar> XYZColor<S> {
    /// The color with the given tristimulus values; the fourth lane is zero.
    pub open spec fn new_spec(x: S, y: S, z: S) -> Self {
        XYZColor(Batch4 { l0: x, l1: y, l2: z, l3: S::zero_spec() })
    }

    pub fn new(x: S, y: S, z: S) -> (r: XYZColor<S>)
        ensures
            r == Self::new_spec(x, y, z),
    {
        XYZColor(Batch4 { l0: x, l1: y, l2: z, l3: S::zero() })
    }

    /// The color whose four lanes are taken as they are.
    pub fn from_raw(v: Batch4<S>) -> (r: XYZColor<S>)
        ensures
            r.0 == v,
    {
        XYZColor(v)
    }

    /// Black: no energy in any channel.
    pub fn black() -> (r: XYZColor<S>)
        ensures
            r.0 == Batch4::<S>::zero_spec(),
    {
        XYZColor(Batch4::zero())
    }

    pub fn x(&self) -> (r: S)
        ensures
            r == self.0.l0,
    {
        self.0.l0
    }

    pub fn y(&self) -> (r: S)
        ensures
            r == self.0.l1,
    {
        self.0.l1
    }

    pub fn z(&self) -> (r: S)
        ensures
            r == self.0.l2,
    {
        self.0.l2
    }

    pub fn div_assign(&mut self, other: S)
        ensures
            final(self).0 == old(self).0.div_spec(Batch4::<S>::splat_spec(other)),
    {
        self.0 = self.0.div(Batch4::splat(other));
    }

    pub fn add_assign(&mut self, other: XYZColor<S>)
        ensures
            final(self).0 == old(self).0.add_spec(other.0),
    {
        self.0 = self.0.add(other.0);
    }
}

/// The X response in each lane.
pub open spec fn lanes_of_x_spec<S: Scalar>(a: Batch4<S>) -> Batch4<S> {
    Batch4 { l0: x_bar_spec(a.l0), l1: x_bar_spec(a.l1), l2: x_bar_spec(a.l2), l3: x_bar_spec(a.l3) }
}

/// The Y response in each lane.
pub open spec fn lanes_of_y_spec<S: Scalar>(a: Batch4<S>) -> Batch4<S> {
    Batch4 { l0: y_bar_spec(a.l0), l1: y_bar_spec(a.l1), l2: y_bar_spec(a.l2), l3: y_bar_spec(a.l3) }
}

/// The Z response in each lane.
pub open spec fn lanes_of_z_spec<S: Scalar>(a: Batch4<S>) -> Batch4<S> {
    Batch4 { l0: z_bar_spec(a.l0), l1: z_bar_spec(a.l1), l2: z_bar_spec(a.l2), l3: z_bar_spec(a.l3) }
}

/// A color in the CIE RGB color space, red, green and blue in the first
/// three lanes.
#[derive(Copy, Clone, Debug)]
pub struct RGBColor<S: Scalar>(pub Batch4<S>);

impl<S: Scalar> RGBColor<S> {
    /// The color with the given parts; the fourth lane is zero.
    pub open spec fn new_spec(r: S, g: S, b: S) -> Self {
        RGBColor(Batch4 { l0: r, l1: g, l2: b, l3: S::zero_spec() })
    }

    pub fn new(r: S, g: S, b: S) -> (out: RGBColor<S>)
        ensures
            out == Self::new_spec(r, g, b),
    {
        RGBColor(Batch4 { l0: r, l1: g, l2: b, l3: S::zero() })
    }

    /// The color whose four lanes are taken as they are.
    pub fn from_raw(v: Batch4<S>) -> (out: RGBColor<S>)
        ensures
            out.0 == v,
    {
        RGBColor(v)
    }

    pub fn r(&self) -> (out: S)
        ensures
            out == self.0.l0,
    {
        self.0.l0
    }

    pub fn g(&self) -> (out: S)
        ensures
            out == self.0.l1,
    {
        self.0.l1
    }

    pub fn b(&self) -> (out: S)
        ensures
            out == self.0.l2,
    {
        self.0.l2
    }
}

/// One row of a 3×3 matrix against three values: `m₀·a + m₁·b + m₂·c`,
/// added from the left.
pub open spec fn row3_spec<S: Scalar>(m0: S, m1: S, m2: S, a: S, b: S, c: S) -> S {
    m0.mul_spec(a).add_spec(m1.mul_spec(b)).add_spec(m2.mul_spec(c))
}

fn row3<S: Scalar>(m0: S, m1: S, m2: S, a: S, b: S, c: S) -> (r: S)
    ensures
        r == row3_spec(m0, m1, m2, a, b, c),
{
    m0.mul(a).add(m1.mul(b)).add(m2.mul(c))
}

/// The tristimulus values of a CIE RGB color: the matrix of the CIE 1931
/// color space against the color, every value divided by 0.17697.
pub open spec fn rgb_to_xyz_spec<S: Scalar>(rgb: RGBColor<S>) -> XYZColor<S> {
    let a = rgb.0.l0;
    let b = rgb.0.l1;
    let c = rgb.0.l2;
    let scale = S::from_decimal_spec(17697, 5);
    XYZColor::<S>::new_spec(
        row3_spec(
            S::from_decimal_spec(490, 3),
            S::from_decimal_spec(310, 3),
            S::from_decimal_spec(200, 3),
            a,
            b,
            c,
        ).div_spec(scale),
        row3_spec(
            S::from_decimal_spec(17697, 5),
            S::from_decimal_spec(8124, 4),
            S::from_decimal_spec(1063, 5),
            a,
            b,
            c,
        ).div_spec(scale),
        row3_spec(
            S::from_decimal_spec(0, 1),
            S::from_decimal_spec(1, 2),
            S::from_decimal_spec(99, 2),
            a,
            b,
            c,
        ).div_spec(scale),
    )
}

/// The CIE RGB color of tristimulus values: the inverse of the matrix above
/// against the values.
pub open spec fn xyz_to_rgb_spec<S: Scalar>(xyz: XYZColor<S>) -> RGBColor<S> {
    let a = xyz.0.l0;
    let b = xyz.0.l1;
    let c = xyz.0.l2;
    RGBColor::<S>::new_spec(
        row3_spec(
            S::from_decimal_spec(41847, 5),
            S::from_decimal_spec(15866, 5).neg_spec(),
            S::from_decimal_spec(82835, 6).neg_spec(),
            a,
            b,
            c,
        ),
        row3_spec(
            S::from_decimal_spec(91169, 6).neg_spec(),
            S::from_decimal_spec(25243, 5),
            S::from_decimal_spec(15708, 6),
            a,
            b,
            c,
        ),
        row3_spec(
            S::from_decimal_spec(92090, 8),
            S::from_decimal_spec(25498, 7).neg_spec(),
            S::from_decimal_spec(17860, 5),
            a,
            b,
            c,
        ),
    )
}

impl<S: Scalar> From<RGBColor<S>> for XYZColor<S> {
    fn from(rgb: RGBColor<S>) -> (r: Self) {
        let a = rgb.0.l0;
        let b = rgb.0.l1;
        let c = rgb.0.l2;
        let scale = S::from_decimal(17697, 5);
        XYZColor::new(
            row3(S::from_decimal(490, 3), S::from_decimal(310, 3), S::from_decimal(200, 3), a, b, c).div(
                scale,
            ),
            row3(
                S::from_decimal(17697, 5),
                S::from_decimal(8124, 4),
                S::from_decimal(1063, 5),
                a,
                b,
                c,
            ).div(scale),
            row3(S::from_decimal(0, 1), S::from_decimal(1, 2), S::from_decimal(99, 2), a, b, c).div(
                scale,
            ),
        )
    }
}

impl<S: Scalar> FromSpecImpl<RGBColor<S>> for XYZColor<S> {
    open spec fn obeys_from_spec() -> bool {
        true
    }

    open spec fn from_spec(rgb: RGBColor<S>) -> Self {
        rgb_to_xyz_spec(rgb)
    }
}

impl<S: Scalar> From<XYZColor<S>> for RGBColor<S> {
    fn from(xyz: XYZColor<S>) -> (r: Self) {
        let a = xyz.0.l0;
        let b = xyz.0.l1;
        let c = xyz.0.l2;
        RGBColor::new(
            row3(
                S::from_decimal(41847, 5),
                S::from_decimal(15866, 5).neg(),
                S::from_decimal(82835, 6).neg(),
                a,
                b,
                c,
            ),
            row3(
                S::from_decimal(91169, 6).neg(),
                S::from_decimal(25243, 5),
                S::from_decimal(15708, 6),
                a,
                b,
                c,
            ),
            row3(
                S::from_decimal(92090, 8),
                S::from_decimal(25498, 7).neg(),
                S::from_decimal(17860, 5),
                a,
                b,
                c,
            ),
        )
    }
}

impl<S: Scalar> FromSpecImpl<XYZColor<S>> for RGBColor<S> {
    open spec fn obeys_from_spec() -> bool {
        true
    }

    open spec fn from_spec(xyz: XYZColor<S>) -> Self {
        xyz_to_rgb_spec(xyz)
    }
}

impl<S: Scalar> core::ops::Add for XYZColor<S> {
    type Output = XYZColor<S>;

    fn add(self, rhs: XYZColor<S>) -> (r: XYZColor<S>) {
        XYZColor(self.0.add(rhs.0))
    }
}

impl<S: Scalar> vstd::std_specs::ops::AddSpecImpl for XYZColor<S> {
    open spec fn obeys_add_spec() -> bool {
        true
    }

    open spec fn add_req(self, rhs: XYZColor<S>) -> bool {
        true
    }

    open spec fn add_spec(self, rhs: XYZColor<S>) -> XYZColor<S> {
        XYZColor(self.0.add_spec(rhs.0))
    }
}

impl<S: Scalar> core::ops::Mul<S> for XYZColor<S> {
    type Output = XYZColor<S>;

    fn mul(self, rhs: S) -> (r: XYZColor<S>) {
        XYZColor(self.0.mul(Batch4::splat(rhs)))
    }
}

impl<S: Scalar> vstd::std_specs::ops::MulSpecImpl<S> for XYZColor<S> {
    open spec fn obeys_mul_spec() -> bool {
        true
    }

    open spec fn mul_req(self, rhs: S) -> bool {
        true
    }

    open spec fn mul_spec(self, rhs: S) -> XYZColor<S> {
        XYZColor(self.0.mul_spec(Batch4::<S>::splat_spec(rhs)))
    }
}

impl<S: Scalar> core::ops::Div<S> for XYZColor<S> {
    type Output = XYZColor<S>;

    fn div(self, rhs: S) -> (r: XYZColor<S>) {
        XYZColor(self.0.div(Batch4::splat(rhs)))
    }
}

impl<S: Scalar> vstd::std_specs::ops::DivSpecImpl<S> for XYZColor<S> {
    open spec fn obeys_div_spec() -> bool {
        true
    }

    open spec fn div_req(self, rhs: S) -> bool {
        true
    }

    open spec fn div_spec(self, rhs: S) -> XYZColor<S> {
        XYZColor(self.0.div_spec(Batch4::<S>::splat_spec(rhs)))
    }
}

/// The color of four wavelengths, given in nanometres, with their energies:
/// in each channel the sum over the lanes of energy times response.
pub open spec fn hero_response_spec<S: Scalar>(we: WavelengthEnergy<Batch4<S>, Batch4<S>>) -> XYZColor<
    S,
> {
    let angstroms = we.lambda.mul_spec(Batch4::<S>::splat_spec(S::from_index_spec(10)));
    XYZColor::<S>::new_spec(
        we.energy.mul_spec(lanes_of_x_spec(angstroms)).reduce_sum_spec(),
        we.energy.mul_spec(lanes_of_y_spec(angstroms)).reduce_sum_spec(),
        we.energy.mul_spec(lanes_of_z_spec(angstroms)).reduce_sum_spec(),
    )
}

impl<S: Scalar> From<XYZColor<S>> for Batch4<S> {
    fn from(v: XYZColor<S>) -> (r: Self) {
        v.0
    }
}

impl<S: Scalar> FromSpecImpl<XYZColor<S>> for Batch4<S> {
    open spec fn obeys_from_spec() -> bool {
        true
    }

    open spec fn from_spec(v: XYZColor<S>) -> Self {
        v.0
    }
}

impl<S: Scalar> From<WavelengthEnergy<S, S>> for XYZColor<S> {
    fn from(v: WavelengthEnergy<S, S>) -> (r: Self) {
        let angstroms = v.lambda.mul(S::from_index(10));
        XYZColor::new(
            v.energy.mul(x_bar(angstroms)),
            v.energy.mul(y_bar(angstroms)),
            v.energy.mul(z_bar(angstroms)),
        )
    }
}

impl<S: Scalar> FromSpecImpl<WavelengthEnergy<S, S>> for XYZColor<S> {
    open spec fn obeys_from_spec() -> bool {
        true
    }

    open spec fn from_spec(v: WavelengthEnergy<S, S>) -> Self {
        XYZColor(response_spec(v.energy, v.lambda.mul_spec(S::from_index_spec(10))))
    }
}

impl<S: Scalar> From<WavelengthEnergy<Batch4<S>, Batch4<S>>> for XYZColor<S> {
    fn from(v: WavelengthEnergy<Batch4<S>, Batch4<S>>) -> (r: Self) {
        let angstroms = v.lambda.mul(Batch4::splat(S::from_index(10)));
        let x = x_bar_f32x4(angstroms);
        let y = y_bar_f32x4(angstroms);
        let z = z_bar_f32x4(angstroms);
        XYZColor::new(
            v.energy.mul(x).reduce_sum(),
            v.energy.mul(y).reduce_sum(),
            v.energy.mul(z).reduce_sum(),
        )
    }
}

impl<S: Scalar> FromSpecImpl<WavelengthEnergy<Batch4<S>, Batch4<S>>> for XYZColor<S> {
    open spec fn obeys_from_spec() -> bool {
        true
    }

    open spec fn from_spec(v: WavelengthEnergy<Batch4<S>, Batch4<S>>) -> Self {
        hero_response_spec(v)
    }
}

} // verus!
