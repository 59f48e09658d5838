//! BN254 field and curve values.
//!
//! The pairing arithmetic itself is done by the `ark-bn254` / `ark-ff` /
//! `ark-ec` crates; their values are opaque here. The base field type
//! `ark_bn254::Fq` is declared directly; the extension fields and curve
//! points are carried in opaque holder structs, since their generic
//! parameters are bounded by traits of the outside crate. Every call into
//! the outside arithmetic goes through a small trusted wrapper in this
//! module, and the verified verifier logic is built on top of them.

use vstd::prelude::*;
use crate::U256;

verus! {

#[verifier::external_type_specification]
#[verifier::external_body]
pub struct ExFqParameters(ark_bn254::FqParameters);

#[verifier::external_type_specification]
#[verifier::external_body]
#[verifier::reject_recursive_types(P)]
pub struct ExFp256<P>(ark_ff::Fp256<P>);

/// An element of the BN254 base field.
pub type Fq = ark_bn254::Fq;

/// An element of the quadratic extension of the base field; holds an
/// `ark_bn254::Fq2`, opaque to the verifier.
#[verifier::external_body]
pub struct Fq2 {
    inner: ark_bn254::Fq2,
}

/// An element of the degree-6 extension; holds an `ark_bn254::Fq6`,
/// opaque to the verifier.
#[verifier::external_body]
pub struct Fq6 {
    inner: ark_bn254::Fq6,
}

/// An element of the degree-12 extension; holds an `ark_bn254::Fq12`,
/// opaque to the verifier.
#[verifier::external_body]
pub struct Fq12 {
    inner: ark_bn254::Fq12,
}

/// An affine G1 point; holds an `ark_bn254::G1Affine`, opaque to the
/// verifier.
#[verifier::external_body]
pub struct G1A {
    inner: ark_bn254::G1Affine,
}

/// An affine G2 point; holds an `ark_bn254::G2Affine`, opaque to the
/// verifier.
#[verifier::external_body]
pub struct G2A {
    inner: ark_bn254::G2Affine,
}

/// A projective G1 point; holds an `ark_bn254::G1Projective`, opaque to the
/// verifier.
#[verifier::external_body]
pub struct G1P {
    inner: ark_bn254::G1Projective,
}


impl Clone for Fq2 {
    /// Relies on the wrapped arkworks value being `Copy`.
    #[verifier::external_body]
    fn clone(&self) -> (r: Self)
        ensures
            r == *self,
    {
        Fq2 { inner: self.inner }
    }
}

impl Copy for Fq2 {

}

impl Clone for Fq6 {
    /// Relies on the wrapped arkworks value being `Copy`.
    #[verifier::external_body]
    fn clone(&self) -> (r: Self)
        ensures
            r == *self,
    {
        Fq6 { inner: self.inner }
    }
}

impl Copy for Fq6 {

}

impl Clone for Fq12 {
    /// Relies on the wrapped arkworks value being `Copy`.
    #[verifier::external_body]
    fn clone(&self) -> (r: Self)
        ensures
            r == *self,
    {
        Fq12 { inner: self.inner }
    }
}

impl Copy for Fq12 {

}

impl Clone for G1A {
    /// Relies on the wrapped arkworks value being `Copy`.
    #[verifier::external_body]
    fn clone(&self) -> (r: Self)
        ensures
            r == *self,
    {
        G1A { inner: self.inner }
    }
}

impl Copy for G1A {

}

impl Clone for G2A {
    /// Relies on the wrapped arkworks value being `Copy`.
    #[verifier::external_body]
    fn clone(&self) -> (r: Self)
        ensures
            r == *self,
    {
        G2A { inner: self.inner }
    }
}

impl Copy for G2A {

}

impl Clone for G1P {
    /// Relies on the wrapped arkworks value being `Copy`.
    #[verifier::external_body]
    fn clone(&self) -> (r: Self)
        ensures
            r == *self,
    {
        G1P { inner: self.inner }
    }
}

impl Copy for G1P {

}

/// The canonical (Montgomery-reduced) form of a 256-bit word, as the scalar
/// field of BN254 computes it. Values are compared against persisted state in
/// this form.
pub uninterp spec fn reduce_of(raw: Seq<u8>) -> Seq<u8>;

/// Relies on `ark_ff`'s `Fp::new` and `PrimeField::into_repr`: interprets the
/// 32 little-endian bytes as a Montgomery-form scalar-field element and
/// returns its canonical representative, a pure function of the bytes.
#[verifier::external_body]
pub fn reduce_mr(raw: &U256) -> (r: U256)
    ensures
        r@ == reduce_of(raw@),
{
    let mut limbs = [0u64; 4];
    for i in 0..4 {
        let mut w = [0u8; 8];
        w.copy_from_slice(&raw[i * 8..(i + 1) * 8]);
        limbs[i] = u64::from_le_bytes(w);
    }
    let fr = ark_bn254::Fr::new(ark_ff::BigInteger256::new(limbs));
    let repr: ark_ff::BigInteger256 = ark_ff::PrimeField::into_repr(&fr);
    let mut out = [0u8; 32];
    for i in 0..4 {
        out[i * 8..(i + 1) * 8].copy_from_slice(&repr.0[i].to_le_bytes());
    }
    out
}

/// The 32-byte form of the scalar-field element whose high 64-bit limb is
/// `amount` and whose other limbs are zero.
pub uninterp spec fn fr_high_limb_of(amount: u64) -> Seq<u8>;

/// Relies on `Zero::zero` for the scalar field: the canonical bytes of the
/// zero element are all zero.
#[verifier::external_body]
pub fn fr_zero_le() -> (r: U256)
    ensures
        r@ == Seq::new(32, |i: int| 0u8),
{
    let fr: ark_bn254::Fr = ark_ff::Zero::zero();
    let repr: ark_ff::BigInteger256 = ark_ff::PrimeField::into_repr(&fr);
    let mut out = [0u8; 32];
    for i in 0..4 {
        out[i * 8..(i + 1) * 8].copy_from_slice(&repr.0[i].to_le_bytes());
    }
    out
}

/// The largest high limb for which a value with that limb and zero low
/// limbs stays below the scalar-field modulus.
pub const FR_HIGH_LIMB_MAX: u64 = 0x30644E72E131A029;

/// Relies on `ark_ff`'s `Fp::from` on a big integer with `amount` as its
/// high limb, and `into_repr`: the result depends on `amount` alone. The
/// conversion aborts on values at or above the modulus, so the limb is
/// bounded.
#[verifier::external_body]
pub fn fr_high_limb_le(amount: u64) -> (r: U256)
    requires
        amount <= FR_HIGH_LIMB_MAX,
    ensures
        r@ == fr_high_limb_of(amount),
{
    let fr = ark_bn254::Fr::from(ark_ff::BigInteger256::new([0, 0, 0, amount]));
    let repr: ark_ff::BigInteger256 = ark_ff::PrimeField::into_repr(&fr);
    let mut out = [0u8; 32];
    for i in 0..4 {
        out[i * 8..(i + 1) * 8].copy_from_slice(&repr.0[i].to_le_bytes());
    }
    out
}

// ---------------------------------------------------------------------------
// Fq
// ---------------------------------------------------------------------------

/// Relies on `ark_ff`'s `From<u64>` for the base field.
#[verifier::external_body]
pub fn fq_from_u64(v: u64) -> Fq {
    ark_bn254::Fq::from(v)
}

/// Relies on `Field::inverse` of the constant 2, a nonzero field element
/// whose inverse always exists.
#[verifier::external_body]
pub fn fq_two_inv() -> Fq {
    match ark_ff::Field::inverse(&ark_bn254::Fq::from(2u64)) {
        Some(v) => v,
        None => ark_bn254::Fq::from(0u64),
    }
}

// ---------------------------------------------------------------------------
// Fq2
// ---------------------------------------------------------------------------

/// Relies on `QuadExtField::new`.
#[verifier::external_body]
pub fn fq2_new(c0: Fq, c1: Fq) -> Fq2 {
    Fq2 { inner: ark_bn254::Fq2::new(c0, c1) }
}

/// Relies on the public coefficient fields of `QuadExtField`.
#[verifier::external_body]
pub fn fq2_parts(a: &Fq2) -> (Fq, Fq) {
    (a.inner.c0, a.inner.c1)
}

/// Relies on `Zero::zero` for the quadratic extension field.
#[verifier::external_body]
pub fn fq2_zero() -> Fq2 {
    Fq2 { inner: ark_ff::Zero::zero() }
}

/// Relies on `One::one` for the quadratic extension field.
#[verifier::external_body]
pub fn fq2_one() -> Fq2 {
    Fq2 { inner: ark_ff::One::one() }
}

/// Relies on `Add` for the quadratic extension field.
#[verifier::external_body]
pub fn fq2_add(a: &Fq2, b: &Fq2) -> Fq2 {
    Fq2 { inner: a.inner + b.inner }
}

/// Relies on `Sub` for the quadratic extension field.
#[verifier::external_body]
pub fn fq2_sub(a: &Fq2, b: &Fq2) -> Fq2 {
    Fq2 { inner: a.inner - b.inner }
}

/// Relies on `Mul` for the quadratic extension field.
#[verifier::external_body]
pub fn fq2_mul(a: &Fq2, b: &Fq2) -> Fq2 {
    Fq2 { inner: a.inner * b.inner }
}

/// Relies on `Field::square`.
#[verifier::external_body]
pub fn fq2_square(a: &Fq2) -> Fq2 {
    Fq2 { inner: ark_ff::Field::square(&a.inner) }
}

/// Relies on `Field::double`.
#[verifier::external_body]
pub fn fq2_double(a: &Fq2) -> Fq2 {
    Fq2 { inner: ark_ff::Field::double(&a.inner) }
}

/// Relies on `Neg` for the quadratic extension field.
#[verifier::external_body]
pub fn fq2_neg(a: &Fq2) -> Fq2 {
    Fq2 { inner: -a.inner }
}

/// Relies on `Fp2::mul_assign_by_fp`: multiplies both coefficients by a base
/// field element.
#[verifier::external_body]
pub fn fq2_mul_by_fq(a: &Fq2, fp: &Fq) -> Fq2 {
    let mut v = a.inner;
    v.mul_assign_by_fp(fp);
    Fq2 { inner: v }
}

/// Relies on `Field::frobenius_map`.
#[verifier::external_body]
pub fn fq2_frobenius(a: &Fq2, power: usize) -> Fq2 {
    let mut v = a.inner;
    ark_ff::Field::frobenius_map(&mut v, power);
    Fq2 { inner: v }
}

/// Relies on the `COEFF_B` constant of BN254's twist curve.
#[verifier::external_body]
pub fn g2_coeff_b() -> Fq2 {
    Fq2 {
        inner: <ark_bn254::g2::Parameters as ark_ec::models::SWModelParameters>::COEFF_B,
    }
}

/// Relies on the `TWIST_MUL_BY_Q_X` constant of the BN254 configuration.
#[verifier::external_body]
pub fn twist_mul_by_q_x() -> Fq2 {
    Fq2 {
        inner: <ark_bn254::Parameters as ark_ec::models::bn::BnParameters>::TWIST_MUL_BY_Q_X,
    }
}

/// Relies on the `TWIST_MUL_BY_Q_Y` constant of the BN254 configuration.
#[verifier::external_body]
pub fn twist_mul_by_q_y() -> Fq2 {
    Fq2 {
        inner: <ark_bn254::Parameters as ark_ec::models::bn::BnParameters>::TWIST_MUL_BY_Q_Y,
    }
}

// ---------------------------------------------------------------------------
// Fq6
// ---------------------------------------------------------------------------

/// Relies on `CubicExtField::new`.
#[verifier::external_body]
pub fn fq6_new(c0: Fq2, c1: Fq2, c2: Fq2) -> Fq6 {
    Fq6 { inner: ark_bn254::Fq6::new(c0.inner, c1.inner, c2.inner) }
}

/// Relies on the public coefficient fields of `CubicExtField`.
#[verifier::external_body]
pub fn fq6_parts(a: &Fq6) -> (Fq2, Fq2, Fq2) {
    (Fq2 { inner: a.inner.c0 }, Fq2 { inner: a.inner.c1 }, Fq2 { inner: a.inner.c2 })
}

/// Relies on `Add` for the cubic extension field.
#[verifier::external_body]
pub fn fq6_add(a: &Fq6, b: &Fq6) -> Fq6 {
    Fq6 { inner: a.inner + b.inner }
}

/// Relies on `Sub` for the cubic extension field.
#[verifier::external_body]
pub fn fq6_sub(a: &Fq6, b: &Fq6) -> Fq6 {
    Fq6 { inner: a.inner - b.inner }
}

/// Relies on `Mul` for the cubic extension field.
#[verifier::external_body]
pub fn fq6_mul(a: &Fq6, b: &Fq6) -> Fq6 {
    Fq6 { inner: a.inner * b.inner }
}

/// Relies on `Field::square`.
#[verifier::external_body]
pub fn fq6_square(a: &Fq6) -> Fq6 {
    Fq6 { inner: ark_ff::Field::square(&a.inner) }
}

/// Relies on `Neg` for the cubic extension field.
#[verifier::external_body]
pub fn fq6_neg(a: &Fq6) -> Fq6 {
    Fq6 { inner: -a.inner }
}

/// Relies on `Field::inverse`: `None` exactly for the zero element.
#[verifier::external_body]
pub fn fq6_inverse(a: &Fq6) -> Option<Fq6> {
    match ark_ff::Field::inverse(&a.inner) {
        Some(v) => Some(Fq6 { inner: v }),
        None => None,
    }
}

/// Relies on `QuadExtParameters::mul_base_field_by_nonresidue` of the
/// degree-12 tower: multiplies an `Fq6` by the tower's nonresidue.
#[verifier::external_body]
pub fn fq6_mul_by_nonresidue(a: &Fq6) -> Fq6 {
    Fq6 {
        inner: <ark_ff::fields::models::fp12_2over3over2::Fp12ParamsWrapper<
            ark_bn254::Fq12Parameters,
        > as ark_ff::fields::models::QuadExtParameters>::mul_base_field_by_nonresidue(&a.inner),
    }
}

/// Relies on the `NONRESIDUE` constant of the degree-6 tower.
#[verifier::external_body]
pub fn fq6_nonresidue() -> Fq2 {
    Fq2 {
        inner: <ark_ff::fields::models::fp6_3over2::Fp6ParamsWrapper<
            ark_bn254::Fq6Parameters,
        > as ark_ff::CubicExtParameters>::NONRESIDUE,
    }
}

// ---------------------------------------------------------------------------
// Fq12
// ---------------------------------------------------------------------------

/// Relies on `QuadExtField::new`.
#[verifier::external_body]
pub fn fq12_new(c0: Fq6, c1: Fq6) -> Fq12 {
    Fq12 { inner: ark_bn254::Fq12::new(c0.inner, c1.inner) }
}

/// Relies on the public coefficient fields of `QuadExtField`.
#[verifier::external_body]
pub fn fq12_parts(a: &Fq12) -> (Fq6, Fq6) {
    (Fq6 { inner: a.inner.c0 }, Fq6 { inner: a.inner.c1 })
}

/// Relies on `One::one` for the degree-12 extension field.
#[verifier::external_body]
pub fn fq12_one() -> Fq12 {
    Fq12 { inner: ark_ff::One::one() }
}

/// Relies on `Mul` for the degree-12 extension field.
#[verifier::external_body]
pub fn fq12_mul(a: &Fq12, b: &Fq12) -> Fq12 {
    Fq12 { inner: a.inner * b.inner }
}

/// Relies on `Field::square`.
#[verifier::external_body]
pub fn fq12_square(a: &Fq12) -> Fq12 {
    Fq12 { inner: ark_ff::Field::square(&a.inner) }
}

/// Relies on `Fp12::cyclotomic_square`.
#[verifier::external_body]
pub fn fq12_cyclotomic_square(a: &Fq12) -> Fq12 {
    Fq12 { inner: a.inner.cyclotomic_square() }
}

/// Relies on `QuadExtField::conjugate`.
#[verifier::external_body]
pub fn fq12_conjugate(a: &Fq12) -> Fq12 {
    let mut v = a.inner;
    v.conjugate();
    Fq12 { inner: v }
}

/// Relies on `Field::frobenius_map`.
#[verifier::external_body]
pub fn fq12_frobenius(a: &Fq12, power: usize) -> Fq12 {
    let mut v = a.inner;
    ark_ff::Field::frobenius_map(&mut v, power);
    Fq12 { inner: v }
}

/// Relies on `PartialEq` for the degree-12 extension field.
#[verifier::external_body]
pub fn fq12_eq(a: &Fq12, b: &Fq12) -> bool {
    a.inner == b.inner
}

// ---------------------------------------------------------------------------
// G1 / G2
// ---------------------------------------------------------------------------

/// Relies on `GroupAffine::new`.
#[verifier::external_body]
pub fn g1_new(x: Fq, y: Fq, infinity: bool) -> G1A {
    G1A { inner: ark_bn254::G1Affine::new(x, y, infinity) }
}

/// Relies on `Zero::zero` for affine G1 (the point at infinity).
#[verifier::external_body]
pub fn g1_zero() -> G1A {
    G1A { inner: ark_ff::Zero::zero() }
}

/// Relies on `Zero::is_zero` for affine G1.
#[verifier::external_body]
pub fn g1_is_zero(a: &G1A) -> bool {
    ark_ff::Zero::is_zero(&a.inner)
}

/// Relies on the public coordinate fields of `GroupAffine`.
#[verifier::external_body]
pub fn g1_xy(a: &G1A) -> (Fq, Fq) {
    (a.inner.x, a.inner.y)
}

/// Relies on `GroupAffine::new`.
#[verifier::external_body]
pub fn g2_new(x: Fq2, y: Fq2, infinity: bool) -> G2A {
    G2A { inner: ark_bn254::G2Affine::new(x.inner, y.inner, infinity) }
}

/// Relies on `Zero::zero` for affine G2 (the point at infinity).
#[verifier::external_body]
pub fn g2_zero() -> G2A {
    G2A { inner: ark_ff::Zero::zero() }
}

/// Relies on the public coordinate fields of `GroupAffine`.
#[verifier::external_body]
pub fn g2_xy(a: &G2A) -> (Fq2, Fq2) {
    (Fq2 { inner: a.inner.x }, Fq2 { inner: a.inner.y })
}

/// Relies on the public `infinity` flag of `GroupAffine`.
#[verifier::external_body]
pub fn g2_is_infinity(a: &G2A) -> bool {
    a.inner.infinity
}

/// Relies on `Neg` for affine G2.
#[verifier::external_body]
pub fn g2_neg(a: &G2A) -> G2A {
    G2A { inner: -a.inner }
}

/// Relies on `GroupProjective::new`.
#[verifier::external_body]
pub fn g1p_new(x: Fq, y: Fq, z: Fq) -> G1P {
    G1P { inner: ark_bn254::G1Projective::new(x, y, z) }
}

/// Relies on the public coordinate fields of `GroupProjective`.
#[verifier::external_body]
pub fn g1p_parts(a: &G1P) -> (Fq, Fq, Fq) {
    (a.inner.x, a.inner.y, a.inner.z)
}

/// Relies on `Zero::zero` for projective G1.
#[verifier::external_body]
pub fn g1p_zero() -> G1P {
    G1P { inner: ark_ff::Zero::zero() }
}

/// Relies on `ProjectiveCurve::double_in_place`.
#[verifier::external_body]
pub fn g1p_double_in_place(a: &mut G1P) {
    ark_ec::ProjectiveCurve::double_in_place(&mut a.inner);
}

/// Relies on `ProjectiveCurve::add_assign_mixed`.
#[verifier::external_body]
pub fn g1p_add_assign_mixed(a: &mut G1P, b: &G1A) {
    ark_ec::ProjectiveCurve::add_assign_mixed(&mut a.inner, &b.inner);
}

/// Relies on `AddAssign` for projective G1.
#[verifier::external_body]
pub fn g1p_add_assign(a: &mut G1P, b: &G1P) {
    a.inner += b.inner;
}

/// Relies on `ProjectiveCurve::into_affine`.
#[verifier::external_body]
pub fn g1p_into_affine(a: &G1P) -> G1A {
    G1A { inner: ark_ec::ProjectiveCurve::into_affine(&a.inner) }
}

} // verus!
