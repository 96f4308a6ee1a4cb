use vstd::prelude::*;

verus! {

// The coordinates this library offsets are IEEE-754 numbers, which no
// contract can compute with. They are therefore carried opaquely: `Coord`
// and `Real` hide a geo_types coordinate from the verifier, and every
// numeric step is one trusted wrapper around one floating-point operation.
// Each wrapper's result is pinned to an uninterpreted function of the
// operands, which is sound because these operations are deterministic:
// the same operands give the same result on every call.

/// A point of the plane, held opaquely.
#[verifier::external_body]
pub struct Coord {
    pub inner: geo_types::Coord,
}

/// A real number (a distance magnitude, an arc-segment length, an angle),
/// held opaquely. By construction both components of the inner coordinate
/// hold the same number.
#[verifier::external_body]
pub struct Real {
    pub inner: geo_types::Coord,
}

impl Clone for Coord {
    /// Relies on copying the inner geo_types coordinate, a `Copy` type.
    #[verifier::external_body]
    fn clone(&self) -> (r: Self)
        ensures
            r == *self,
    {
        Coord { inner: self.inner }
    }
}

impl Copy for Coord {

}

impl Clone for Real {
    /// Relies on copying the inner geo_types coordinate, a `Copy` type.
    #[verifier::external_body]
    fn clone(&self) -> (r: Self)
        ensures
            r == *self,
    {
        Real { inner: self.inner }
    }
}

impl Copy for Real {

}

pub uninterp spec fn add_r(a: Real, b: Real) -> Real;

pub uninterp spec fn sub_r(a: Real, b: Real) -> Real;

pub uninterp spec fn mul_r(a: Real, b: Real) -> Real;

pub uninterp spec fn div_r(a: Real, b: Real) -> Real;

pub uninterp spec fn neg_r(a: Real) -> Real;

pub uninterp spec fn sqrt_r(a: Real) -> Real;

pub uninterp spec fn atan2_r(y: Real, x: Real) -> Real;

pub uninterp spec fn cos_r(a: Real) -> Real;

pub uninterp spec fn sin_r(a: Real) -> Real;

pub uninterp spec fn real_of_u32(n: u32) -> Real;

pub uninterp spec fn ceil_count_r(a: Real) -> usize;

pub uninterp spec fn finite_r(a: Real) -> bool;

pub uninterp spec fn nan_r(a: Real) -> bool;

pub uninterp spec fn sign_negative_r(a: Real) -> bool;

pub uninterp spec fn gt_r(a: Real, b: Real) -> bool;

pub uninterp spec fn x_r(c: Coord) -> Real;

pub uninterp spec fn y_r(c: Coord) -> Real;

pub uninterp spec fn coord_r(x: Real, y: Real) -> Coord;

pub uninterp spec fn coord_eq_r(a: Coord, b: Coord) -> bool;

/// Relies on IEEE-754 addition through f64: the sum of two positive zeros
/// is the positive zero, and a NaN operand gives a NaN.
#[verifier::external_body]
pub(crate) fn real_add(a: &Real, b: &Real) -> (r: Real)
    ensures
        r == add_r(*a, *b),
        *a == real_of_u32(0) && *b == real_of_u32(0) ==> r == real_of_u32(0),
        nan_r(*a) || nan_r(*b) ==> nan_r(r),
{
    let v = a.inner.x + b.inner.x;
    Real { inner: geo_types::Coord { x: v, y: v } }
}

/// Relies on IEEE-754 subtraction through f64: a number minus itself is the
/// positive zero when it is finite and a NaN otherwise.
#[verifier::external_body]
pub(crate) fn real_sub(a: &Real, b: &Real) -> (r: Real)
    ensures
        r == sub_r(*a, *b),
        *a == *b && finite_r(*a) ==> r == real_of_u32(0),
        *a == *b ==> r == real_of_u32(0) || nan_r(r),
{
    let v = a.inner.x - b.inner.x;
    Real { inner: geo_types::Coord { x: v, y: v } }
}

/// Relies on IEEE-754 multiplication through f64: the product of two
/// positive zeros is the positive zero, and a NaN operand gives a NaN.
#[verifier::external_body]
pub(crate) fn real_mul(a: &Real, b: &Real) -> (r: Real)
    ensures
        r == mul_r(*a, *b),
        *a == real_of_u32(0) && *b == real_of_u32(0) ==> r == real_of_u32(0),
        nan_r(*a) || nan_r(*b) ==> nan_r(r),
{
    let v = a.inner.x * b.inner.x;
    Real { inner: geo_types::Coord { x: v, y: v } }
}

/// Relies on IEEE-754 division through f64: division by a zero gives an
/// infinity or a NaN, never a finite number, and a NaN operand gives a NaN.
#[verifier::external_body]
pub(crate) fn real_div(a: &Real, b: &Real) -> (r: Real)
    ensures
        r == div_r(*a, *b),
        *b == real_of_u32(0) ==> !finite_r(r),
        nan_r(*a) || nan_r(*b) ==> nan_r(r),
{
    let v = a.inner.x / b.inner.x;
    Real { inner: geo_types::Coord { x: v, y: v } }
}

/// Relies on IEEE-754 negation through f64.
#[verifier::external_body]
pub(crate) fn real_neg(a: &Real) -> (r: Real)
    ensures
        r == neg_r(*a),
{
    let v = -a.inner.x;
    Real { inner: geo_types::Coord { x: v, y: v } }
}

/// Relies on f64::sqrt: the root of the positive zero is the positive zero,
/// and the root of a NaN is a NaN.
#[verifier::external_body]
pub(crate) fn real_sqrt(a: &Real) -> (r: Real)
    ensures
        r == sqrt_r(*a),
        *a == real_of_u32(0) ==> r == real_of_u32(0),
        nan_r(*a) ==> nan_r(r),
{
    let v = a.inner.x.sqrt();
    Real { inner: geo_types::Coord { x: v, y: v } }
}

/// Relies on f64::atan2; `y.atan2(x)` is the angle of the vector (x, y).
#[verifier::external_body]
pub(crate) fn real_atan2(y: &Real, x: &Real) -> (r: Real)
    ensures
        r == atan2_r(*y, *x),
{
    let v = y.inner.x.atan2(x.inner.x);
    Real { inner: geo_types::Coord { x: v, y: v } }
}

/// Relies on f64::cos.
#[verifier::external_body]
pub(crate) fn real_cos(a: &Real) -> (r: Real)
    ensures
        r == cos_r(*a),
{
    let v = a.inner.x.cos();
    Real { inner: geo_types::Coord { x: v, y: v } }
}

/// Relies on f64::sin.
#[verifier::external_body]
pub(crate) fn real_sin(a: &Real) -> (r: Real)
    ensures
        r == sin_r(*a),
{
    let v = a.inner.x.sin();
    Real { inner: geo_types::Coord { x: v, y: v } }
}

/// Relies on the exact conversion From<u32> for f64.
#[verifier::external_body]
pub(crate) fn real_from_u32(n: u32) -> (r: Real)
    ensures
        r == real_of_u32(n),
{
    Real { inner: geo_types::Coord { x: n.into(), y: n.into() } }
}

/// Relies on f64::ceil and the saturating float-to-integer cast: NaN gives 0,
/// values beyond the range of usize give its bounds.
#[verifier::external_body]
pub(crate) fn real_ceil_count(a: &Real) -> (r: usize)
    ensures
        r == ceil_count_r(*a),
{
    a.inner.x.ceil() as usize
}

/// Relies on f64::is_finite: a NaN is not finite.
#[verifier::external_body]
pub(crate) fn real_is_finite(a: &Real) -> (r: bool)
    ensures
        r == finite_r(*a),
        nan_r(*a) ==> !r,
{
    a.inner.x.is_finite()
}

/// Relies on f64::is_sign_negative: true exactly when the sign bit is set.
#[verifier::external_body]
pub(crate) fn real_is_sign_negative(a: &Real) -> (r: bool)
    ensures
        r == sign_negative_r(*a),
{
    a.inner.x.is_sign_negative()
}

/// Relies on the IEEE-754 ordering through f64's `>` operator.
#[verifier::external_body]
pub(crate) fn real_gt(a: &Real, b: &Real) -> (r: bool)
    ensures
        r == gt_r(*a, *b),
{
    a.inner.x > b.inner.x
}

/// Relies on reading the x component of a geo_types coordinate.
#[verifier::external_body]
pub(crate) fn coord_x(c: &Coord) -> (r: Real)
    ensures
        r == x_r(*c),
{
    Real { inner: geo_types::Coord { x: c.inner.x, y: c.inner.x } }
}

/// Relies on reading the y component of a geo_types coordinate.
#[verifier::external_body]
pub(crate) fn coord_y(c: &Coord) -> (r: Real)
    ensures
        r == y_r(*c),
{
    Real { inner: geo_types::Coord { x: c.inner.y, y: c.inner.y } }
}

/// Relies on building a geo_types coordinate from its two components.
#[verifier::external_body]
pub(crate) fn make_coord(x: &Real, y: &Real) -> (r: Coord)
    ensures
        r == coord_r(*x, *y),
{
    Coord { inner: geo_types::Coord { x: x.inner.x, y: y.inner.x } }
}

/// Relies on geo_types' derived equality of coordinates: componentwise
/// IEEE-754 equality, under which NaN differs from every number.
#[verifier::external_body]
pub(crate) fn coord_eq(a: &Coord, b: &Coord) -> (r: bool)
    ensures
        r == coord_eq_r(*a, *b),
{
    a.inner == b.inner
}

/// The angle of the half turn, written as `atan2(0, -1)`.
pub open spec fn pi_r() -> Real {
    atan2_r(real_of_u32(0), neg_r(real_of_u32(1)))
}

/// The angle of the full turn.
pub open spec fn tau_r() -> Real {
    add_r(pi_r(), pi_r())
}

/// The full turn, computed once from the trusted operations.
pub fn real_tau() -> (r: Real)
    ensures
        r == tau_r(),
{
    let zero = real_from_u32(0);
    let neg_one = real_neg(&real_from_u32(1));
    let pi = real_atan2(&zero, &neg_one);
    real_add(&pi, &pi)
}

} // verus!
