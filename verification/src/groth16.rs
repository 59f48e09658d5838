//! The multi-round Groth16 verifier.
//!
//! The computation is a pure function of `(public inputs, proof, round)`
//! split into three phases: public-input preparation (a fixed-window scalar
//! multiplication per input), the combined Miller loop over the reversed ATE
//! digits of BN254, and the final exponentiation. One call of
//! [`verify_partial`] advances exactly one round; intermediate field and
//! curve values live in the verification account's scratch RAM between
//! calls, and the caller persists the round counter.

use vstd::prelude::*;
use crate::U256;
use crate::error::ElusivError;
use crate::fields::{
    Fq, Fq2, Fq6, Fq12, G1A, G2A, G1P, fq2_add, fq2_double, fq2_frobenius,
    fq2_mul, fq2_mul_by_fq, fq2_neg, fq2_one, fq2_square, fq2_sub, fq6_add, fq6_inverse,
    fq6_mul, fq6_mul_by_nonresidue, fq6_sub, fq6_neg, fq6_new, fq6_nonresidue, fq6_parts, fq6_square,
    fq12_conjugate, fq12_cyclotomic_square, fq12_eq, fq12_frobenius, fq12_mul, fq12_new,
    fq12_one, fq12_parts, fq12_square, fq_two_inv, g1_is_zero, g1_xy, g1p_add_assign, g1p_add_assign_mixed,
    g1p_double_in_place, g1p_into_affine, g1p_new, g1p_parts, g1p_zero, g2_coeff_b,
    g2_is_infinity, g2_neg, g2_new, g2_xy, twist_mul_by_q_x, twist_mul_by_q_y,
};
use crate::verification::{RAMFq, VerificationAccount, VerificationState};
use crate::vkey::VerificationKey;

verus! {

/// The number of rounds of the combined Miller loop: one per ATE digit and
/// one for the two closing coefficient triples.
pub const COMBINED_MILLER_LOOP_ROUNDS: usize = 66;

/// The number of rounds of the final exponentiation.
pub const FINAL_EXPONENTIATION_ROUNDS: usize = 14;

/// One instruction advances one Miller-loop round.
pub const COMBINED_MILLER_LOOP_IXS: usize = 66;

/// One instruction advances one final-exponentiation round.
pub const FINAL_EXPONENTIATION_IXS: usize = 14;

/// The reversed ATE loop digits of BN254, the last element removed: 0 means
/// square only, 1 an addition step with B, 2 an addition step with -B.
pub const ATE_LOOP_COUNT: [u8; 65] = [
    1, 1, 0, 1, 0, 0, 2, 0, 1, 1, 0, 0, 0, 2, 0, 0, 1, 1, 0, 0, 2, 0, 0, 0, 0, 0, 1, 0, 0, 2, 0,
    0, 1, 1, 1, 0, 0, 0, 0, 2, 0, 1, 0, 0, 2, 0, 1, 1, 0, 0, 1, 0, 0, 2, 1, 0, 0, 2, 0, 1, 0, 1,
    0, 0, 0,
];

/// The non-adjacent form of the curve parameter x, least significant digit
/// first, the trailing zero removed: 1 multiplies by the base, 2 by its
/// inverse.
pub const EXP_BY_NEG_X_NAF: [u8; 63] = [
    1, 0, 0, 0, 1, 0, 1, 0, 0, 2, 0, 1, 0, 1, 0, 2, 0, 0, 1, 0, 1, 0, 2, 0, 2, 0, 2, 0, 1, 0, 0,
    0, 1, 0, 0, 1, 0, 1, 0, 1, 0, 2, 0, 1, 0, 0, 1, 0, 0, 0, 0, 1, 0, 1, 0, 0, 0, 0, 2, 0, 0, 0,
    1,
];

/// The rounds of the preparation phase of a key.
pub open spec fn spec_prepare_rounds<VK: VerificationKey>() -> int {
    254 * VK::spec_public_inputs_count()
}

/// The rounds after which the Miller loop of a key is complete.
pub open spec fn spec_miller_end<VK: VerificationKey>() -> int {
    spec_prepare_rounds::<VK>() + 66
}

/// The total rounds of a key's verification.
pub open spec fn spec_total_rounds<VK: VerificationKey>() -> int {
    spec_miller_end::<VK>() + 14
}

/// The round at which the final exponentiation inverts the Miller value;
/// the only round that can fail arithmetically.
pub open spec fn spec_inversion_round<VK: VerificationKey>() -> int {
    spec_miller_end::<VK>() + 1
}

/// The total rounds of a key's verification.
pub fn total_rounds<VK: VerificationKey>() -> (r: usize)
    ensures
        r == spec_total_rounds::<VK>(),
{
    254 * VK::public_inputs_count() + COMBINED_MILLER_LOOP_ROUNDS + FINAL_EXPONENTIATION_ROUNDS
}

/// The larger of two sizes.
pub fn max(a: usize, b: usize) -> (r: usize)
    ensures
        r == if a > b { a } else { b },
{
    if a > b { a } else { b }
}

/// Whether bit `index` of the word is set, counting from the most
/// significant bit; the word stores its bytes little-endian.
pub open spec fn spec_bit_be(v: Seq<u8>, index: int) -> bool
    recommends
        v.len() == 32,
        0 <= index < 256,
{
    ((v[31 - index / 8] >> ((7 - index % 8) as u8)) & 1) == 1
}

/// Whether bit `index` of the word is set, counting from the most
/// significant bit.
pub fn get_bit_be(v: &U256, index: usize) -> (r: bool)
    requires
        index < 256,
    ensures
        r == spec_bit_be(v@, index as int),
{
    let byte = index / 8;
    let bit = index % 8;
    let shift: u8 = (7 - bit) as u8;
    ((v[31 - byte] >> shift) & 1) == 1
}

/// The index of the first set bit at or after position `from`, counting
/// from the most significant bit; 256 if there is none.
pub open spec fn spec_first_set_bit_from(v: Seq<u8>, from: int) -> int
    decreases 256 - from,
{
    if from >= 256 {
        256
    } else if spec_bit_be(v, from) {
        from
    } else {
        spec_first_set_bit_from(v, from + 1)
    }
}

/// The index of the most significant set bit; 256 if the word is zero.
pub open spec fn spec_first_set_bit(v: Seq<u8>) -> int {
    spec_first_set_bit_from(v, 0)
}

proof fn lemma_first_set_bit_from(v: Seq<u8>, from: int, r: int)
    requires
        0 <= from <= r <= 256,
        forall|j: int| from <= j < r ==> !spec_bit_be(v, j),
        r < 256 ==> spec_bit_be(v, r),
    ensures
        spec_first_set_bit_from(v, from) == r,
    decreases r - from,
{
    if from < r {
        lemma_first_set_bit_from(v, from + 1, r);
    }
}

/// The index of the most significant set bit, or 256 if the word is zero.
pub fn find_first_non_zero_be(v: &U256) -> (r: usize)
    ensures
        r == spec_first_set_bit(v@),
        r <= 256,
        forall|j: int| 0 <= j < r ==> !spec_bit_be(v@, j),
        r < 256 ==> spec_bit_be(v@, r as int),
{
    let mut i: usize = 0;
    while i < 256
        invariant
            i <= 256,
            forall|j: int| 0 <= j < i ==> !spec_bit_be(v@, j),
        decreases 256 - i,
    {
        let byte = i / 8;
        let bit = i % 8;
        let shift: u8 = (7 - bit) as u8;
        if ((v[31 - byte] >> shift) & 1) == 1 {
            proof {
                lemma_first_set_bit_from(v@, 0, i as int);
            }
            return i;
        }
        i += 1;
    }
    proof {
        lemma_first_set_bit_from(v@, 0, 256);
    }
    256
}

/// Stores the coordinates of a projective G1 point in three consecutive
/// scratch slots.
pub fn write_g1_projective(ram: &mut RAMFq, g1p: &G1P, offset: usize)
    requires
        old(ram).wf(),
        offset + 2 < crate::verification::RAM_FQ_SIZE,
    ensures
        final(ram).wf(),
{
    let (x, y, z) = g1p_parts(g1p);
    ram.write(x, offset);
    ram.write(y, offset + 1);
    ram.write(z, offset + 2);
}

fn read_g1_projective(ram: &RAMFq, offset: usize) -> G1P
    requires
        ram.wf(),
        offset + 2 < crate::verification::RAM_FQ_SIZE,
{
    g1p_new(ram.read(offset), ram.read(offset + 1), ram.read(offset + 2))
}

/// One round of the public-input preparation: a step of the fixed-window
/// scalar multiplication of `gamma_abc_g1[input_index + 1]` by the input,
/// leading zero bits skipped. The last round of each input's window folds
/// the product into the running `g_ic` accumulator (seeded with
/// `gamma_abc_g1_0`), and the last round of the last input returns the
/// prepared inputs.
pub fn prepare_public_inputs_partial<VK: VerificationKey>(
    round: usize,
    storage: &mut VerificationAccount,
    input: U256,
    input_index: usize,
) -> (r: Option<G1A>)
    requires
        old(storage).wf(),
        input_index == round / 254,
        round < 254 * VK::spec_public_inputs_count(),
    ensures
        final(storage).wf(),
        *final(storage) == (VerificationAccount { ram_fq: final(storage).ram_fq, ..*old(storage) }),
        r is Some <==> (round % 254 == 253 && input_index + 1 == VK::spec_public_inputs_count()),
        (round % 254 != 253 && round % 254 + 2 < spec_first_set_bit(input@)) ==> *final(storage)
            == *old(storage),
{
    let mul_round = round % 254;
    // The scalar field fits in 254 bits, so the window covers the bit
    // indices 2 to 255 of the 256-bit word.
    let bit_index = mul_round + 2;
    let first = find_first_non_zero_be(&input);
    let mut acc: G1P = if mul_round == 0 || bit_index <= first {
        g1p_zero()
    } else {
        read_g1_projective(&storage.ram_fq, 3)
    };
    if bit_index >= first {
        g1p_double_in_place(&mut acc);
        if get_bit_be(&input, bit_index) {
            g1p_add_assign_mixed(&mut acc, &VK::gamma_abc_g1(input_index + 1));
        }
    }
    if mul_round == 253 {
        let mut g_ic: G1P = if input_index == 0 {
            VK::gamma_abc_g1_0()
        } else {
            read_g1_projective(&storage.ram_fq, 0)
        };
        g1p_add_assign(&mut g_ic, &acc);
        let count = VK::public_inputs_count();
        if input_index + 1 == count {
            Some(g1p_into_affine(&g_ic))
        } else {
            write_g1_projective(&mut storage.ram_fq, &g_ic, 0);
            None
        }
    } else {
        if bit_index >= first {
            write_g1_projective(&mut storage.ram_fq, &acc, 3);
        }
        None
    }
}

/// The number of effective (not skipped) preparation rounds of one input:
/// one per bit from its most significant set bit down.
pub open spec fn spec_effective_rounds(input: Seq<u8>) -> int {
    if spec_first_set_bit(input) >= 254 {
        0
    } else {
        254 - spec_first_set_bit(input)
    }
}

/// The per-transaction schedule of the preparation phase: one entry per
/// public input, holding the number of effective (not skipped) rounds of
/// that input's window.
pub fn prepare_public_inputs_instructions<VK: VerificationKey>(
    public_inputs: &Vec<U256>,
) -> (r: Vec<u16>)
    requires
        public_inputs@.len() == VK::spec_public_inputs_count(),
    ensures
        r@.len() == VK::spec_public_inputs_count(),
        forall|i: int|
            0 <= i < r@.len() ==> r@[i] == spec_effective_rounds(
                (#[trigger] public_inputs@[i])@,
            ),
        forall|i: int| 0 <= i < r@.len() ==> r@[i] <= 254,
{
    let mut instructions: Vec<u16> = Vec::new();
    let mut i: usize = 0;
    while i < public_inputs.len()
        invariant
            i <= public_inputs@.len(),
            instructions@.len() == i,
            forall|j: int|
                0 <= j < i ==> instructions@[j] == spec_effective_rounds(
                    (#[trigger] public_inputs@[j])@,
                ),
            forall|j: int| 0 <= j < i ==> instructions@[j] <= 254,
        decreases public_inputs@.len() - i,
    {
        let first = find_first_non_zero_be(&public_inputs[i]);
        let effective: u16 = if first >= 254 { 0 } else { (254 - first) as u16 };
        instructions.push(effective);
        i += 1;
    }
    instructions
}

/// A G2 point in homogeneous projective coordinates, the working value of
/// the Miller loop.
pub struct G2HomProjective {
    pub x: Fq2,
    pub y: Fq2,
    pub z: Fq2,
}

/// A line-function coefficient triple.
pub fn new_coeffs(c0: Fq2, c1: Fq2, c2: Fq2) -> (Fq2, Fq2, Fq2) {
    (c0, c1, c2)
}

/// Multiplies both coefficients of an `Fq2` by a base-field element.
pub fn mul_by_fp(v: &Fq2, fp: Fq) -> Fq2 {
    fq2_mul_by_fq(v, &fp)
}

/// The first-power Frobenius map on `Fq2`.
pub fn frobenius_map_fq2_one(f: Fq2) -> Fq2 {
    fq2_frobenius(&f, 1)
}

/// The conjugate of an `Fq12`.
pub fn conjugate(f: Fq12) -> Fq12 {
    fq12_conjugate(&f)
}

/// The `u`-th power Frobenius map on `Fq12`.
pub fn frobenius_map(f: Fq12, u: usize) -> Fq12 {
    fq12_frobenius(&f, u)
}

/// `x - nonresidue * y` in the degree-6 tower.
pub fn sub_and_mul_base_field_by_nonresidue(x: Fq6, y: Fq6) -> Fq6 {
    fq6_sub(&x, &fq6_mul_by_nonresidue(&y))
}

/// The doubling step of the Miller loop: doubles the working point and
/// returns the line-function coefficients.
pub fn doubling_step(r: &mut G2HomProjective, two_inv: &Fq) -> (Fq2, Fq2, Fq2) {
    let mut a = fq2_mul(&r.x, &r.y);
    a = fq2_mul_by_fq(&a, two_inv);
    let b = fq2_square(&r.y);
    let c = fq2_square(&r.z);
    let e = fq2_mul(&g2_coeff_b(), &fq2_add(&fq2_double(&c), &c));
    let f = fq2_add(&fq2_double(&e), &e);
    let mut g = fq2_add(&b, &f);
    g = fq2_mul_by_fq(&g, two_inv);
    let h = fq2_sub(&fq2_square(&fq2_add(&r.y, &r.z)), &fq2_add(&b, &c));
    let i = fq2_sub(&e, &b);
    let j = fq2_square(&r.x);
    let e_square = fq2_square(&e);
    r.x = fq2_mul(&a, &fq2_sub(&b, &f));
    r.y = fq2_sub(&fq2_square(&g), &fq2_add(&fq2_double(&e_square), &e_square));
    r.z = fq2_mul(&b, &h);
    new_coeffs(fq2_neg(&h), fq2_add(&fq2_double(&j), &j), i)
}

/// The addition step of the Miller loop: adds an affine point to the
/// working point and returns the line-function coefficients.
pub fn addition_step(r: &mut G2HomProjective, q: &G2A) -> (Fq2, Fq2, Fq2) {
    let (qx, qy) = g2_xy(q);
    let theta = fq2_sub(&r.y, &fq2_mul(&qy, &r.z));
    let lambda = fq2_sub(&r.x, &fq2_mul(&qx, &r.z));
    let c = fq2_square(&theta);
    let d = fq2_square(&lambda);
    let e = fq2_mul(&lambda, &d);
    let f = fq2_mul(&r.z, &c);
    let g = fq2_mul(&r.x, &d);
    let h = fq2_sub(&fq2_add(&e, &f), &fq2_double(&g));
    let rx = fq2_mul(&lambda, &h);
    let ry = fq2_sub(&fq2_mul(&theta, &fq2_sub(&g, &h)), &fq2_mul(&e, &r.y));
    let rz = fq2_mul(&r.z, &e);
    let j = fq2_sub(&fq2_mul(&theta, &qx), &fq2_mul(&lambda, &qy));
    r.x = rx;
    r.y = ry;
    r.z = rz;
    new_coeffs(lambda, fq2_neg(&theta), j)
}

/// Maps an affine G2 point by the field characteristic: a first-power
/// Frobenius on both coordinates, twisted.
pub fn mul_by_characteristics(r: &G2A) -> G2A {
    let (rx, ry) = g2_xy(r);
    let mut x = frobenius_map_fq2_one(rx);
    x = fq2_mul(&x, &twist_mul_by_q_x());
    let mut y = frobenius_map_fq2_one(ry);
    y = fq2_mul(&y, &twist_mul_by_q_y());
    g2_new(x, y, g2_is_infinity(r))
}

/// Multiplies the degree-6 value by one with coefficients `(c0, c1, 0)`.
pub fn mul_fq6_by_c0_c1_0(f: Fq6, c0: &Fq2, c1: &Fq2) -> Fq6 {
    let (fc0, fc1, fc2) = fq6_parts(&f);
    let v0 = fq2_mul(&fc0, c0);
    let v1 = fq2_mul(&fc1, c1);
    let a1_plus_a2 = fq2_add(&fc1, &fc2);
    let a0_plus_a1 = fq2_add(&fc0, &fc1);
    let a0_plus_a2 = fq2_add(&fc0, &fc2);
    let b1_plus_b2 = *c1;
    let b0_plus_b1 = fq2_add(c0, c1);
    let b0_plus_b2 = *c0;
    fq6_new(
        fq2_add(
            &fq2_mul(&fq2_sub(&fq2_mul(&a1_plus_a2, &b1_plus_b2), &v1), &fq6_nonresidue()),
            &v0,
        ),
        fq2_sub(&fq2_sub(&fq2_mul(&a0_plus_a1, &b0_plus_b1), &v0), &v1),
        fq2_add(&fq2_sub(&fq2_mul(&a0_plus_a2, &b0_plus_b2), &v0), &v1),
    )
}

/// Multiplies an `Fq12` by one whose coefficients vanish except at the
/// positions 0, 3 and 4 of the tower basis.
pub fn mul_by_034(c0: &Fq2, d0: &Fq2, d1: &Fq2, f: Fq12) -> Fq12 {
    let (f0, f1) = fq12_parts(&f);
    let (f00, f01, f02) = fq6_parts(&f0);
    let a = fq6_new(fq2_mul(&f00, c0), fq2_mul(&f01, c0), fq2_mul(&f02, c0));
    let b = mul_fq6_by_c0_c1_0(f1, d0, d1);
    let e = mul_fq6_by_c0_c1_0(fq6_add(&f0, &f1), &fq2_add(c0, d0), d1);
    fq12_new(
        fq6_add(&fq6_mul_by_nonresidue(&b), &a),
        fq6_sub(&e, &fq6_add(&a, &b)),
    )
}

/// Applies the three line functions of one Miller-loop step: one with the
/// freshly computed coefficients for A, and one each with the key's
/// precomputed gamma and delta coefficients for the prepared inputs and C.
pub fn combined_ell<VK: VerificationKey>(
    a: &G1A,
    prepared_inputs: &G1A,
    c: &G1A,
    c0: &Fq2,
    c1: &Fq2,
    c2: &Fq2,
    coeff_index: usize,
    f: Fq12,
) -> Fq12 {
    let mut r = f;
    if !g1_is_zero(a) {
        let (ax, ay) = g1_xy(a);
        let a0 = fq2_mul_by_fq(c0, &ay);
        let a1 = fq2_mul_by_fq(c1, &ax);
        r = mul_by_034(&a0, &a1, c2, r);
    }
    if !g1_is_zero(prepared_inputs) {
        let (px, py) = g1_xy(prepared_inputs);
        let b0 = fq2_mul_by_fq(&VK::gamma_g2_neg_pc_0(coeff_index), &py);
        let b1 = fq2_mul_by_fq(&VK::gamma_g2_neg_pc_1(coeff_index), &px);
        r = mul_by_034(&b0, &b1, &VK::gamma_g2_neg_pc_2(coeff_index), r);
    }
    if !g1_is_zero(c) {
        let (cx, cy) = g1_xy(c);
        let d0 = fq2_mul_by_fq(&VK::delta_g2_neg_pc_0(coeff_index), &cy);
        let d1 = fq2_mul_by_fq(&VK::delta_g2_neg_pc_1(coeff_index), &cx);
        r = mul_by_034(&d0, &d1, &VK::delta_g2_neg_pc_2(coeff_index), r);
    }
    r
}

/// The inverse of an `Fq12`, `None` exactly for zero.
pub fn inverse_fq12(f: Fq12) -> Option<Fq12> {
    let (fc0, fc1) = fq12_parts(&f);
    let v1 = fq6_square(&fc1);
    let v2 = fq6_square(&fc0);
    let v0 = sub_and_mul_base_field_by_nonresidue(v2, v1);
    match fq6_inverse(&v0) {
        Some(v3) => {
            let v = fq6_mul(&fc1, &v3);
            Some(fq12_new(fq6_mul(&fc0, &v3), fq6_neg(&v)))
        },
        None => None,
    }
}

/// Raises a cyclotomic `Fq12` to the negated curve parameter, by the
/// non-adjacent form of the exponent.
pub fn exp_by_neg_x(fe: Fq12) -> Fq12 {
    let fe_inverse = conjugate(fe);
    let mut res = fq12_one();
    let mut i: usize = 0;
    while i < 63
        decreases 63 - i,
    {
        if i > 0 {
            res = fq12_cyclotomic_square(&res);
        }
        let digit = EXP_BY_NEG_X_NAF[i];
        if digit == 1 {
            res = fq12_mul(&res, &fe);
        } else if digit == 2 {
            res = fq12_mul(&res, &fe_inverse);
        }
        i += 1;
    }
    conjugate(res)
}

/// The number of line-function coefficient triples consumed before Miller
/// round `m`: one per previous doubling and one per previous addition.
pub fn coeff_base(m: usize) -> (r: usize)
    requires
        m <= 65,
    ensures
        r <= 2 * m,
{
    let mut count: usize = 0;
    let mut i: usize = 0;
    while i < m
        invariant
            i <= m,
            m <= 65,
            count <= 2 * i,
        decreases m - i,
    {
        count += 1;
        if ATE_LOOP_COUNT[i] > 0 {
            count += 1;
        }
        i += 1;
    }
    count
}

/// One round of the combined Miller loop. Rounds below 65 process one ATE
/// digit: square the accumulator, run a doubling step with its line
/// functions, and on a nonzero digit an addition step with B or -B. The
/// last round applies the two closing coefficient triples obtained from B
/// by the characteristic map. The working point lives in the `Fq2` scratch,
/// the accumulator in the `Fq12` scratch.
pub fn combined_miller_loop_round<VK: VerificationKey>(
    m: usize,
    storage: &mut VerificationAccount,
    two_inv: &Fq,
) -> (r: Option<Fq12>)
    requires
        old(storage).wf(),
        m < 66,
    ensures
        final(storage).wf(),
        *final(storage) == (VerificationAccount {
            ram_fq2: final(storage).ram_fq2,
            ram_fq12: final(storage).ram_fq12,
            ..*old(storage)
        }),
        r is Some <==> m == 65,
{
    let a = storage.a;
    let b = storage.b;
    let c = storage.c;
    let prepared_inputs = storage.prepared_inputs;
    let mut work = if m == 0 {
        let (bx, by) = g2_xy(&b);
        G2HomProjective { x: bx, y: by, z: fq2_one() }
    } else {
        G2HomProjective {
            x: storage.ram_fq2.read(0),
            y: storage.ram_fq2.read(1),
            z: storage.ram_fq2.read(2),
        }
    };
    let mut f = if m == 0 {
        fq12_one()
    } else {
        storage.ram_fq12.read(0)
    };
    if m < 65 {
        if m > 0 {
            f = fq12_square(&f);
        }
        let base = coeff_base(m);
        let coeffs = doubling_step(&mut work, two_inv);
        f = combined_ell::<VK>(&a, &prepared_inputs, &c, &coeffs.0, &coeffs.1, &coeffs.2, base, f);
        let digit = ATE_LOOP_COUNT[m];
        if digit == 1 {
            let coeffs = addition_step(&mut work, &b);
            f = combined_ell::<VK>(
                &a,
                &prepared_inputs,
                &c,
                &coeffs.0,
                &coeffs.1,
                &coeffs.2,
                base + 1,
                f,
            );
        } else if digit == 2 {
            let neg_b = g2_neg(&b);
            let coeffs = addition_step(&mut work, &neg_b);
            f = combined_ell::<VK>(
                &a,
                &prepared_inputs,
                &c,
                &coeffs.0,
                &coeffs.1,
                &coeffs.2,
                base + 1,
                f,
            );
        }
        storage.ram_fq2.write(work.x, 0);
        storage.ram_fq2.write(work.y, 1);
        storage.ram_fq2.write(work.z, 2);
        storage.ram_fq12.write(f, 0);
        None
    } else {
        let base = coeff_base(65);
        let alt = mul_by_characteristics(&b);
        let coeffs = addition_step(&mut work, &alt);
        f = combined_ell::<VK>(&a, &prepared_inputs, &c, &coeffs.0, &coeffs.1, &coeffs.2, base, f);
        let alt_pre = mul_by_characteristics(&alt);
        let (ax2, ay2) = g2_xy(&alt_pre);
        let alt2 = g2_new(ax2, fq2_neg(&ay2), g2_is_infinity(&alt_pre));
        let coeffs = addition_step(&mut work, &alt2);
        f = combined_ell::<VK>(
            &a,
            &prepared_inputs,
            &c,
            &coeffs.0,
            &coeffs.1,
            &coeffs.2,
            base + 1,
            f,
        );
        storage.ram_fq2.write(work.x, 0);
        storage.ram_fq2.write(work.y, 1);
        storage.ram_fq2.write(work.z, 2);
        storage.ram_fq12.write(f, 0);
        Some(f)
    }
}

/// One round of the final exponentiation; `f` is the Miller-loop value and
/// is read in the first round. The last round returns the exponentiation
/// result; the round inverting `f` fails exactly when the value is not
/// invertible.
pub fn final_exponentiation_partial(
    round: usize,
    storage: &mut VerificationAccount,
    f: &Fq12,
) -> (r: Result<Option<Fq12>, ElusivError>)
    requires
        old(storage).wf(),
        round < 14,
    ensures
        final(storage).wf(),
        *final(storage) == (VerificationAccount {
            ram_fq12: final(storage).ram_fq12,
            ..*old(storage)
        }),
        r matches Ok(v) ==> (v is Some <==> round == 13),
        round != 1 ==> r is Ok,
        round == 13 ==> r is Ok,
        r is Err ==> {
            &&& round == 1
            &&& r == Err::<Option<Fq12>, ElusivError>(ElusivError::CouldNotProcessProof)
            &&& *final(storage) == *old(storage)
        },
{
    if round == 0 {
        let r0 = conjugate(*f);
        storage.ram_fq12.write(*f, 0);
        storage.ram_fq12.write(r0, 1);
        Ok(None)
    } else if round == 1 {
        let f2 = storage.ram_fq12.read(0);
        let r0 = storage.ram_fq12.read(1);
        match inverse_fq12(f2) {
            Some(v) => {
                let r1 = fq12_mul(&r0, &v);
                storage.ram_fq12.write(r1, 0);
                storage.ram_fq12.write(r1, 1);
                Ok(None)
            },
            None => Err(ElusivError::CouldNotProcessProof),
        }
    } else if round == 2 {
        let f2 = storage.ram_fq12.read(0);
        let mut r0 = storage.ram_fq12.read(1);
        r0 = frobenius_map(r0, 2);
        r0 = fq12_mul(&r0, &f2);
        storage.ram_fq12.write(r0, 0);
        storage.ram_fq12.write(r0, 1);
        Ok(None)
    } else if round == 3 {
        let y0 = storage.ram_fq12.read(1);
        let y0x = exp_by_neg_x(y0);
        storage.ram_fq12.write(y0x, 1);
        Ok(None)
    } else if round == 4 {
        let y0 = storage.ram_fq12.read(1);
        let y1 = fq12_cyclotomic_square(&y0);
        let y2 = fq12_cyclotomic_square(&y1);
        let y3 = fq12_mul(&y2, &y1);
        storage.ram_fq12.write(y1, 2);
        storage.ram_fq12.write(y3, 3);
        Ok(None)
    } else if round == 5 {
        let y3 = storage.ram_fq12.read(3);
        let y4 = exp_by_neg_x(y3);
        storage.ram_fq12.write(y4, 4);
        Ok(None)
    } else if round == 6 {
        let y4 = storage.ram_fq12.read(4);
        let y5 = fq12_cyclotomic_square(&y4);
        storage.ram_fq12.write(y5, 5);
        Ok(None)
    } else if round == 7 {
        let y6 = storage.ram_fq12.read(5);
        let y6x = exp_by_neg_x(y6);
        storage.ram_fq12.write(y6x, 5);
        Ok(None)
    } else if round == 8 {
        let y3 = storage.ram_fq12.read(3);
        let y6 = storage.ram_fq12.read(5);
        storage.ram_fq12.write(conjugate(y3), 3);
        storage.ram_fq12.write(conjugate(y6), 5);
        Ok(None)
    } else if round == 9 {
        let y6 = storage.ram_fq12.read(5);
        let y4 = storage.ram_fq12.read(4);
        let y1 = storage.ram_fq12.read(2);
        let y3 = storage.ram_fq12.read(3);
        let y7 = fq12_mul(&y6, &y4);
        let y8 = fq12_mul(&y7, &y3);
        let y9 = fq12_mul(&y8, &y1);
        let y10 = fq12_mul(&y8, &y4);
        storage.ram_fq12.write(y8, 3);
        storage.ram_fq12.write(y9, 2);
        storage.ram_fq12.write(y10, 5);
        Ok(None)
    } else if round == 10 {
        let y10 = storage.ram_fq12.read(5);
        let r0 = storage.ram_fq12.read(0);
        let y9 = storage.ram_fq12.read(2);
        let y11 = fq12_mul(&y10, &r0);
        let y12 = frobenius_map(y9, 1);
        storage.ram_fq12.write(y11, 1);
        storage.ram_fq12.write(y12, 4);
        Ok(None)
    } else if round == 11 {
        let y12 = storage.ram_fq12.read(4);
        let y11 = storage.ram_fq12.read(1);
        let y8 = storage.ram_fq12.read(3);
        let y13 = fq12_mul(&y12, &y11);
        let y8f = frobenius_map(y8, 2);
        storage.ram_fq12.write(y13, 1);
        storage.ram_fq12.write(y8f, 3);
        Ok(None)
    } else if round == 12 {
        let y8 = storage.ram_fq12.read(3);
        let y13 = storage.ram_fq12.read(1);
        let r0 = storage.ram_fq12.read(0);
        let y14 = fq12_mul(&y8, &y13);
        storage.ram_fq12.write(y14, 3);
        storage.ram_fq12.write(conjugate(r0), 0);
        Ok(None)
    } else {
        let r0 = storage.ram_fq12.read(0);
        let y9 = storage.ram_fq12.read(2);
        let y14 = storage.ram_fq12.read(3);
        let mut y15 = fq12_mul(&r0, &y9);
        y15 = frobenius_map(y15, 3);
        Ok(Some(fq12_mul(&y15, &y14)))
    }
}

/// One round of the verification of a key. Returns `Ok(None)` while the
/// computation is unfinished, `Ok(Some(verdict))` at the last round, and an
/// error past the end, on a wrong lifecycle state in the proof phases, or
/// on a non-invertible Miller value.
pub fn verify_partial<VK: VerificationKey>(
    round: usize,
    verification_account: &mut VerificationAccount,
) -> (r: Result<Option<bool>, ElusivError>)
    requires
        old(verification_account).wf(),
    ensures
        final(verification_account).wf(),
        *final(verification_account) == (VerificationAccount {
            prepared_inputs: final(verification_account).prepared_inputs,
            ram_fq: final(verification_account).ram_fq,
            ram_fq2: final(verification_account).ram_fq2,
            ram_fq12: final(verification_account).ram_fq12,
            ..*old(verification_account)
        }),
        round >= spec_total_rounds::<VK>() ==> r == Err::<Option<bool>, ElusivError>(
            ElusivError::ComputationIsAlreadyFinished,
        ),
        (spec_prepare_rounds::<VK>() <= round < spec_total_rounds::<VK>()
            && old(verification_account).state != VerificationState::ProofSetup) ==> r
            == Err::<Option<bool>, ElusivError>(ElusivError::InvalidAccountState),
        r matches Ok(v) ==> ((v is Some) <==> round == spec_total_rounds::<VK>() - 1),
        (round < spec_prepare_rounds::<VK>()
            || (round < spec_total_rounds::<VK>()
                && old(verification_account).state == VerificationState::ProofSetup
                && round != spec_inversion_round::<VK>()
                && round != spec_total_rounds::<VK>() - 1)) ==> (r matches Ok(v) && v is None),
        (round == spec_total_rounds::<VK>() - 1 && old(verification_account).state
            == VerificationState::ProofSetup) ==> (r matches Ok(v) && v is Some),
        (round == spec_inversion_round::<VK>() && old(verification_account).state
            == VerificationState::ProofSetup) ==> (r == Ok::<Option<bool>, ElusivError>(None) || r
            == Err::<Option<bool>, ElusivError>(ElusivError::CouldNotProcessProof)),
        r is Err ==> *final(verification_account) == *old(verification_account),
{
    let n = VK::public_inputs_count();
    let prepare_rounds = 254 * n;
    if round < prepare_rounds {
        let input_index = round / 254;
        assert(input_index < n) by (nonlinear_arith)
            requires
                round < 254 * n,
                input_index == round / 254,
                n >= 1,
        ;
        let input_raw = verification_account.get_public_input(input_index);
        let input = input_raw.reduce();
        let result = prepare_public_inputs_partial::<VK>(
            round,
            verification_account,
            input,
            input_index,
        );
        match result {
            Some(prepared) => {
                verification_account.set_prepared_inputs(&prepared);
            },
            None => {},
        }
        Ok(None)
    } else if round < prepare_rounds + COMBINED_MILLER_LOOP_ROUNDS + FINAL_EXPONENTIATION_ROUNDS {
        let state = verification_account.get_state();
        if !matches!(state, VerificationState::ProofSetup) {
            return Err(ElusivError::InvalidAccountState);
        }
        if round < prepare_rounds + COMBINED_MILLER_LOOP_ROUNDS {
            let two_inv = fq_two_inv();
            let m = round - prepare_rounds;
            let _ = combined_miller_loop_round::<VK>(m, verification_account, &two_inv);
            Ok(None)
        } else {
            let e = round - prepare_rounds - COMBINED_MILLER_LOOP_ROUNDS;
            let miller_value = verification_account.ram_fq12.read(0);
            let result = final_exponentiation_partial(e, verification_account, &miller_value)?;
            match result {
                Some(v) => Ok(Some(fq12_eq(&VK::alpha_g1_beta_g2(), &v))),
                None => Ok(None),
            }
        }
    } else {
        Err(ElusivError::ComputationIsAlreadyFinished)
    }
}

} // verus!
