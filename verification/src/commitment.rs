//! The accounts driving the Poseidon hashing of commitments: one for
//! hashing a base commitment with its amount, one for hashing a commitment
//! into the tree. The hashing itself is the collaborator that dequeues the
//! commitment queue; the core only prepares these records.

use vstd::prelude::*;
use crate::U256;
use crate::error::ElusivError;
use crate::fields::{fr_zero_le, fr_high_limb_le, fr_high_limb_of, FR_HIGH_LIMB_MAX};

verus! {

/// The rounds one Poseidon hash takes.
pub const TOTAL_POSEIDON_ROUNDS: u64 = 65;

/// The height of the Merkle tree the commitment hasher ascends.
pub const MT_HEIGHT: u64 = 20;

/// A request to hash `commitment = h(base_commitment, amount)`.
#[derive(Clone, Copy)]
pub struct BaseCommitmentHashRequest {
    pub base_commitment: U256,
    pub amount: u64,
}

/// The account computing `commitment = h(base_commitment, amount)`;
/// several of these can exist, since base commitments hash in parallel.
pub struct BaseCommitmentHashingAccount {
    pub bump_seed: u8,
    pub initialized: bool,
    pub is_active: bool,
    pub round: u64,
    pub total_rounds: u64,
    pub fee_payer: U256,
    pub request: BaseCommitmentHashRequest,
    /// The three-element Poseidon sponge state.
    pub state: Vec<U256>,
}

impl BaseCommitmentHashingAccount {
    pub open spec fn wf(&self) -> bool {
        self.state@.len() == 3
    }

    pub fn new() -> (r: Self)
        ensures
            r.wf(),
            !r.is_active,
    {
        let mut state: Vec<U256> = Vec::new();
        state.push([0; 32]);
        state.push([0; 32]);
        state.push([0; 32]);
        BaseCommitmentHashingAccount {
            bump_seed: 0,
            initialized: false,
            is_active: false,
            round: 0,
            total_rounds: 0,
            fee_payer: [0; 32],
            request: BaseCommitmentHashRequest { base_commitment: [0; 32], amount: 0 },
            state,
        }
    }

    /// Arms the account for a new request: resets the round counter and
    /// seeds the sponge with zero, the base commitment and the amount.
    /// Fails exactly while a computation is still active.
    pub fn reset(
        &mut self,
        request: BaseCommitmentHashRequest,
        fee_payer: U256,
    ) -> (r: Result<(), ElusivError>)
        requires
            old(self).wf(),
            request.amount <= FR_HIGH_LIMB_MAX,
        ensures
            final(self).wf(),
            match r {
                Ok(()) => {
                    &&& !old(self).is_active
                    &&& final(self).is_active
                    &&& final(self).round == 0
                    &&& final(self).total_rounds == TOTAL_POSEIDON_ROUNDS
                    &&& final(self).fee_payer@ == fee_payer@
                    &&& final(self).request == request
                    &&& final(self).state@[0]@ == Seq::new(32, |i: int| 0u8)
                    &&& final(self).state@[1]@ == request.base_commitment@
                    &&& final(self).state@[2]@ == fr_high_limb_of(request.amount)
                },
                Err(e) => {
                    &&& e == ElusivError::AccountCannotBeReset
                    &&& old(self).is_active
                    &&& *final(self) == *old(self)
                },
            },
    {
        if self.is_active {
            return Err(ElusivError::AccountCannotBeReset);
        }
        self.is_active = true;
        self.round = 0;
        self.total_rounds = TOTAL_POSEIDON_ROUNDS;
        self.fee_payer = fee_payer;
        self.state.set(0, fr_zero_le());
        self.state.set(1, request.base_commitment);
        self.state.set(2, fr_high_limb_le(request.amount));
        self.request = request;
        Ok(())
    }
}

/// The account hashing a commitment into the active tree; at most one per
/// tree.
pub struct CommitmentHashingAccount {
    pub bump_seed: u8,
    pub initialized: bool,
    pub is_active: bool,
    pub round: u64,
    pub total_rounds: u64,
    pub fee_payer: U256,
    pub commitment: U256,
    /// The three-element Poseidon sponge state.
    pub state: Vec<U256>,
}

impl CommitmentHashingAccount {
    pub open spec fn wf(&self) -> bool {
        self.state@.len() == 3
    }

    pub fn new() -> (r: Self)
        ensures
            r.wf(),
            !r.is_active,
    {
        let mut state: Vec<U256> = Vec::new();
        state.push([0; 32]);
        state.push([0; 32]);
        state.push([0; 32]);
        CommitmentHashingAccount {
            bump_seed: 0,
            initialized: false,
            is_active: false,
            round: 0,
            total_rounds: 0,
            fee_payer: [0; 32],
            commitment: [0; 32],
            state,
        }
    }

    /// Arms the account for hashing `commitment` up the tree: one Poseidon
    /// hash per tree layer. Fails exactly while a computation is still
    /// active.
    pub fn reset(&mut self, commitment: U256, fee_payer: U256) -> (r: Result<(), ElusivError>)
        requires
            old(self).wf(),
        ensures
            final(self).wf(),
            match r {
                Ok(()) => {
                    &&& !old(self).is_active
                    &&& final(self).is_active
                    &&& final(self).round == 0
                    &&& final(self).total_rounds == TOTAL_POSEIDON_ROUNDS * MT_HEIGHT
                    &&& final(self).fee_payer@ == fee_payer@
                    &&& final(self).commitment@ == commitment@
                    &&& final(self).state@ == old(self).state@
                },
                Err(e) => {
                    &&& e == ElusivError::AccountCannotBeReset
                    &&& old(self).is_active
                    &&& *final(self) == *old(self)
                },
            },
    {
        if self.is_active {
            return Err(ElusivError::AccountCannotBeReset);
        }
        self.is_active = true;
        self.round = 0;
        self.total_rounds = TOTAL_POSEIDON_ROUNDS * MT_HEIGHT;
        self.fee_payer = fee_payer;
        self.commitment = commitment;
        Ok(())
    }
}

} // verus!
