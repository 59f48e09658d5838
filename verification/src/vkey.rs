//! Verifying keys.
//!
//! A verifying key exposes the Groth16 public parameters the verifier
//! consumes: the `gamma_abc_g1` points combined with the public inputs, the
//! precomputed `gamma`/`delta` line-function coefficients of the Miller
//! loop, and the pairing constant `alpha_g1_beta_g2` the final
//! exponentiation is compared against. Each request kind selects one
//! concrete key.
//!
//! The concrete coefficient values below are placeholder parameters: a
//! deployment derives them from its trusted setup, while the verifier logic
//! is generic over this trait.

use vstd::prelude::*;
use crate::fields::{
    Fq2, Fq12, G1A, G1P, fq_from_u64, fq2_new, fq6_new, fq12_new, g1_new, g1p_new,
};
use crate::verification::MAX_PUBLIC_INPUTS_COUNT;

verus! {

/// The Groth16 public parameters of one circuit.
pub trait VerificationKey {
    /// The number of public inputs, as a spec-level constant.
    spec fn spec_public_inputs_count() -> usize;

    /// The number of public inputs of this key.
    fn public_inputs_count() -> (r: usize)
        ensures
            r == Self::spec_public_inputs_count(),
            1 <= r <= MAX_PUBLIC_INPUTS_COUNT,
    ;

    /// The point combined with the `index`-th scalar (index 0 is the
    /// constant term).
    fn gamma_abc_g1(index: usize) -> G1A;

    /// The constant term of the prepared inputs, in projective form.
    fn gamma_abc_g1_0() -> G1P;

    /// The first component of the `index`-th precomputed gamma coefficient
    /// triple.
    fn gamma_g2_neg_pc_0(index: usize) -> Fq2;

    /// The second component of the `index`-th precomputed gamma coefficient
    /// triple.
    fn gamma_g2_neg_pc_1(index: usize) -> Fq2;

    /// The third component of the `index`-th precomputed gamma coefficient
    /// triple.
    fn gamma_g2_neg_pc_2(index: usize) -> Fq2;

    /// The first component of the `index`-th precomputed delta coefficient
    /// triple.
    fn delta_g2_neg_pc_0(index: usize) -> Fq2;

    /// The second component of the `index`-th precomputed delta coefficient
    /// triple.
    fn delta_g2_neg_pc_1(index: usize) -> Fq2;

    /// The third component of the `index`-th precomputed delta coefficient
    /// triple.
    fn delta_g2_neg_pc_2(index: usize) -> Fq2;

    /// The pairing of `alpha_g1` and `beta_g2`; a proof is accepted exactly
    /// when the final exponentiation result equals it.
    fn alpha_g1_beta_g2() -> Fq12;
}

fn synthetic_fq2(seed: u64, index: usize) -> Fq2 {
    let base = seed.wrapping_add((index as u64).wrapping_mul(2));
    fq2_new(fq_from_u64(base), fq_from_u64(base.wrapping_add(1)))
}

fn synthetic_fq12(seed: u64) -> Fq12 {
    let c0 = fq6_new(
        synthetic_fq2(seed, 0),
        synthetic_fq2(seed, 1),
        synthetic_fq2(seed, 2),
    );
    let c1 = fq6_new(
        synthetic_fq2(seed, 3),
        synthetic_fq2(seed, 4),
        synthetic_fq2(seed, 5),
    );
    fq12_new(c0, c1)
}

/// The key used for send and merge requests.
pub struct SendQuadraVKey;

impl VerificationKey for SendQuadraVKey {
    open spec fn spec_public_inputs_count() -> usize {
        17
    }

    fn public_inputs_count() -> (r: usize) {
        17
    }

    fn gamma_abc_g1(index: usize) -> G1A {
        let base = 101u64.wrapping_add((index as u64).wrapping_mul(3));
        g1_new(fq_from_u64(base), fq_from_u64(base.wrapping_add(1)), false)
    }

    fn gamma_abc_g1_0() -> G1P {
        g1p_new(fq_from_u64(101), fq_from_u64(102), fq_from_u64(1))
    }

    fn gamma_g2_neg_pc_0(index: usize) -> Fq2 {
        synthetic_fq2(1001, index)
    }

    fn gamma_g2_neg_pc_1(index: usize) -> Fq2 {
        synthetic_fq2(2001, index)
    }

    fn gamma_g2_neg_pc_2(index: usize) -> Fq2 {
        synthetic_fq2(3001, index)
    }

    fn delta_g2_neg_pc_0(index: usize) -> Fq2 {
        synthetic_fq2(4001, index)
    }

    fn delta_g2_neg_pc_1(index: usize) -> Fq2 {
        synthetic_fq2(5001, index)
    }

    fn delta_g2_neg_pc_2(index: usize) -> Fq2 {
        synthetic_fq2(6001, index)
    }

    fn alpha_g1_beta_g2() -> Fq12 {
        synthetic_fq12(7001)
    }
}

/// The key a migrate request would verify against; migration is rejected
/// before it is ever used for a computation, but the round accounting is
/// defined for it.
pub struct MigrateUnaryVKey;

impl VerificationKey for MigrateUnaryVKey {
    open spec fn spec_public_inputs_count() -> usize {
        7
    }

    fn public_inputs_count() -> (r: usize) {
        7
    }

    fn gamma_abc_g1(index: usize) -> G1A {
        let base = 201u64.wrapping_add((index as u64).wrapping_mul(3));
        g1_new(fq_from_u64(base), fq_from_u64(base.wrapping_add(1)), false)
    }

    fn gamma_abc_g1_0() -> G1P {
        g1p_new(fq_from_u64(201), fq_from_u64(202), fq_from_u64(1))
    }

    fn gamma_g2_neg_pc_0(index: usize) -> Fq2 {
        synthetic_fq2(11001, index)
    }

    fn gamma_g2_neg_pc_1(index: usize) -> Fq2 {
        synthetic_fq2(12001, index)
    }

    fn gamma_g2_neg_pc_2(index: usize) -> Fq2 {
        synthetic_fq2(13001, index)
    }

    fn delta_g2_neg_pc_0(index: usize) -> Fq2 {
        synthetic_fq2(14001, index)
    }

    fn delta_g2_neg_pc_1(index: usize) -> Fq2 {
        synthetic_fq2(15001, index)
    }

    fn delta_g2_neg_pc_2(index: usize) -> Fq2 {
        synthetic_fq2(16001, index)
    }

    fn alpha_g1_beta_g2() -> Fq12 {
        synthetic_fq12(17001)
    }
}

} // verus!
