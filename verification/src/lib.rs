//! Core of a privacy-preserving transfer protocol: a multi-round Groth16
//! verifier whose progress is persisted across invocations, a join-split
//! public-input checker guarding the commitment Merkle tree and nullifier
//! sets, and the fee/settlement pipeline that moves value between the pool,
//! the fee collector, the fee payer and the recipient.

use vstd::prelude::*;

pub mod bytes;
pub mod commitment;
pub mod error;
pub mod fields;
pub mod governor;
pub mod groth16;
pub mod processor;
pub mod program_account;
pub mod queue;
pub mod storage;
pub mod token;
pub mod types;
pub mod verification;
pub mod vkey;

verus! {

/// A 256-bit word stored as 32 little-endian bytes.
pub type U256 = [u8; 32];

/// Byte-wise equality of two 256-bit words.
pub fn u256_eq(a: &U256, b: &U256) -> (r: bool)
    ensures
        r <==> a@ =~= b@,
{
    let mut i: usize = 0;
    while i < 32
        invariant
            i <= 32,
            forall|j: int| 0 <= j < i ==> a@[j] == b@[j],
        decreases 32 - i,
    {
        if a[i] != b[i] {
            return false;
        }
        i += 1;
    }
    true
}

} // verus!
