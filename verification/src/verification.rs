//! The persistent record of one in-flight verification: request, round
//! counter, scratch RAM for the resumable pairing computation, verdict and
//! lifecycle state.

use vstd::prelude::*;
use crate::types::{ProofRequest, RawU256, SendPublicInputs, JoinSplitPublicInputs, RecipientAccount};
use crate::fields::{Fq, Fq2, Fq12, G1A, G2A, fq_from_u64, fq2_zero, fq12_one, g1_zero, g2_zero};
use crate::error::ElusivError;
use crate::program_account::MultiInstancePDAAccount;

verus! {

/// The largest number of public inputs any verifying key has.
pub const MAX_PUBLIC_INPUTS_COUNT: usize = 17;

/// The number of scratch slots for base-field values: three coordinates for
/// the running multiplication accumulator and three for the prepared-inputs
/// accumulator.
pub const RAM_FQ_SIZE: usize = 6;

/// The number of scratch slots for `Fq2` values: the three coordinates of
/// the working homogeneous-projective G2 point of the Miller loop.
pub const RAM_FQ2_SIZE: usize = 3;

/// The number of scratch slots for `Fq12` values used by the Miller loop
/// and the final exponentiation.
pub const RAM_FQ12_SIZE: usize = 6;

/// The lifecycle of a verification. It only ever advances:
/// `Empty -> FeeTransferred -> ProofSetup -> (InsertNullifiers ->)
/// Finalized -> Closed`; a rejected proof skips `InsertNullifiers`.
#[derive(Clone, Copy, Debug, PartialEq, Eq, Structural)]
pub enum VerificationState {
    /// Created, no fee transferred yet.
    Empty,
    /// The fee was computed, checked and moved into the pool.
    FeeTransferred,
    /// The proof is stored; the computation may run to a verdict.
    ProofSetup,
    /// An accepted verification is inserting its nullifier hashes.
    InsertNullifiers,
    /// Settlement may run.
    Finalized,
    /// Terminal.
    Closed,
}

/// The position of a state in the lifecycle order.
pub open spec fn state_rank(s: VerificationState) -> int {
    match s {
        VerificationState::Empty => 0,
        VerificationState::FeeTransferred => 1,
        VerificationState::ProofSetup => 2,
        VerificationState::InsertNullifiers => 3,
        VerificationState::Finalized => 4,
        VerificationState::Closed => 5,
    }
}

/// The lifecycle edges a single operation may take (staying put included).
pub open spec fn lifecycle_step_allowed(pre: VerificationState, post: VerificationState) -> bool {
    ||| post == pre
    ||| (pre == VerificationState::Empty && post == VerificationState::FeeTransferred)
    ||| (pre == VerificationState::FeeTransferred && post == VerificationState::ProofSetup)
    ||| (pre == VerificationState::ProofSetup && post == VerificationState::InsertNullifiers)
    ||| (pre == VerificationState::ProofSetup && post == VerificationState::Finalized)
    ||| (pre == VerificationState::InsertNullifiers && post == VerificationState::Finalized)
    ||| (pre == VerificationState::Finalized && post == VerificationState::Closed)
}

/// Once a verdict exists it can never change.
pub open spec fn verdict_step_allowed(pre: Option<bool>, post: Option<bool>) -> bool {
    pre is Some ==> post == pre
}

/// What any single core operation may do to a verification record: advance
/// the lifecycle along its edges and never overwrite a verdict. Every
/// instruction of the processor ensures this relation between its pre- and
/// post-state, so the trace lemmas below apply to any instruction sequence.
pub open spec fn verification_step(pre: &VerificationAccount, post: &VerificationAccount) -> bool {
    &&& lifecycle_step_allowed(pre.state, post.state)
    &&& verdict_step_allowed(pre.is_verified, post.is_verified)
}

/// Lifecycle monotonicity: along any trace of allowed steps the state only
/// moves forward in the lifecycle order, and `Closed` is terminal.
pub proof fn lemma_lifecycle_monotone(trace: Seq<VerificationState>)
    requires
        forall|i: int|
            0 <= i < trace.len() - 1 ==> lifecycle_step_allowed(#[trigger] trace[i], trace[i + 1]),
    ensures
        forall|i: int, j: int|
            #![trigger trace[i], trace[j]]
            0 <= i <= j < trace.len() ==> state_rank(trace[i]) <= state_rank(trace[j]),
        forall|i: int, j: int|
            #![trigger trace[i], trace[j]]
            0 <= i <= j < trace.len() && trace[i] == VerificationState::Closed ==> trace[j]
                == VerificationState::Closed,
    decreases trace.len(),
{
    if trace.len() > 1 {
        lemma_lifecycle_monotone(trace.drop_last());
        assert forall|i: int, j: int|
            0 <= i <= j < trace.len() implies state_rank(trace[i]) <= state_rank(trace[j]) by {
            if j < trace.len() - 1 {
                assert(trace.drop_last()[i] == trace[i]);
                assert(trace.drop_last()[j] == trace[j]);
            } else if i < j {
                assert(state_rank(trace[j - 1]) <= state_rank(trace[j]));
                if i < j - 1 {
                    assert(trace.drop_last()[i] == trace[i]);
                    assert(trace.drop_last()[j - 1] == trace[j - 1]);
                }
            }
        }
    }
}

/// Verdict stability: along any trace of allowed steps, once the verdict is
/// `Some(_)` it keeps exactly that value.
pub proof fn lemma_verdict_stable(trace: Seq<Option<bool>>)
    requires
        forall|i: int|
            0 <= i < trace.len() - 1 ==> verdict_step_allowed(#[trigger] trace[i], trace[i + 1]),
    ensures
        forall|i: int, j: int|
            #![trigger trace[i], trace[j]]
            0 <= i <= j < trace.len() && trace[i] is Some ==> trace[j] == trace[i],
    decreases trace.len(),
{
    if trace.len() > 1 {
        lemma_verdict_stable(trace.drop_last());
        assert forall|i: int, j: int|
            0 <= i <= j < trace.len() && trace[i] is Some implies trace[j] == trace[i] by {
            if j < trace.len() - 1 {
                assert(trace.drop_last()[i] == trace[i]);
                assert(trace.drop_last()[j] == trace[j]);
            } else if i < j {
                if i < j - 1 {
                    assert(trace.drop_last()[i] == trace[i]);
                    assert(trace.drop_last()[j - 1] == trace[j - 1]);
                }
                assert(verdict_step_allowed(trace[j - 1], trace[j]));
            }
        }
    }
}

/// Offset-addressable scratch for base-field values.
pub struct RAMFq {
    data: Vec<Fq>,
}

impl RAMFq {
    pub closed spec fn view(&self) -> Seq<Fq> {
        self.data@
    }

    pub open spec fn wf(&self) -> bool {
        self.view().len() == RAM_FQ_SIZE
    }

    pub fn new() -> (r: Self)
        ensures
            r.wf(),
    {
        let mut data: Vec<Fq> = Vec::new();
        let mut i: usize = 0;
        while i < RAM_FQ_SIZE
            invariant
                data@.len() == i,
                i <= RAM_FQ_SIZE,
            decreases RAM_FQ_SIZE - i,
        {
            data.push(fq_from_u64(0));
            i += 1;
        }
        RAMFq { data }
    }

    pub fn write(&mut self, value: Fq, offset: usize)
        requires
            old(self).wf(),
            offset < RAM_FQ_SIZE,
        ensures
            final(self).view() == old(self).view().update(offset as int, value),
            final(self).wf(),
    {
        self.data.set(offset, value);
    }

    pub fn read(&self, offset: usize) -> (r: Fq)
        requires
            self.wf(),
            offset < RAM_FQ_SIZE,
        ensures
            r == self.view()[offset as int],
    {
        self.data[offset]
    }
}

/// Offset-addressable scratch for `Fq2` values.
pub struct RAMFq2 {
    data: Vec<Fq2>,
}

impl RAMFq2 {
    pub closed spec fn view(&self) -> Seq<Fq2> {
        self.data@
    }

    pub open spec fn wf(&self) -> bool {
        self.view().len() == RAM_FQ2_SIZE
    }

    pub fn new() -> (r: Self)
        ensures
            r.wf(),
    {
        let mut data: Vec<Fq2> = Vec::new();
        let mut i: usize = 0;
        while i < RAM_FQ2_SIZE
            invariant
                data@.len() == i,
                i <= RAM_FQ2_SIZE,
            decreases RAM_FQ2_SIZE - i,
        {
            data.push(fq2_zero());
            i += 1;
        }
        RAMFq2 { data }
    }

    pub fn write(&mut self, value: Fq2, offset: usize)
        requires
            old(self).wf(),
            offset < RAM_FQ2_SIZE,
        ensures
            final(self).view() == old(self).view().update(offset as int, value),
            final(self).wf(),
    {
        self.data.set(offset, value);
    }

    pub fn read(&self, offset: usize) -> (r: Fq2)
        requires
            self.wf(),
            offset < RAM_FQ2_SIZE,
        ensures
            r == self.view()[offset as int],
    {
        self.data[offset]
    }
}

/// Offset-addressable scratch for `Fq12` values.
pub struct RAMFq12 {
    data: Vec<Fq12>,
}

impl RAMFq12 {
    pub closed spec fn view(&self) -> Seq<Fq12> {
        self.data@
    }

    pub open spec fn wf(&self) -> bool {
        self.view().len() == RAM_FQ12_SIZE
    }

    pub fn new() -> (r: Self)
        ensures
            r.wf(),
    {
        let mut data: Vec<Fq12> = Vec::new();
        let mut i: usize = 0;
        while i < RAM_FQ12_SIZE
            invariant
                data@.len() == i,
                i <= RAM_FQ12_SIZE,
            decreases RAM_FQ12_SIZE - i,
        {
            data.push(fq12_one());
            i += 1;
        }
        RAMFq12 { data }
    }

    pub fn write(&mut self, value: Fq12, offset: usize)
        requires
            old(self).wf(),
            offset < RAM_FQ12_SIZE,
        ensures
            final(self).view() == old(self).view().update(offset as int, value),
            final(self).wf(),
    {
        self.data.set(offset, value);
    }

    pub fn read(&self, offset: usize) -> (r: Fq12)
        requires
            self.wf(),
            offset < RAM_FQ12_SIZE,
        ensures
            r == self.view()[offset as int],
    {
        self.data[offset]
    }
}

impl MultiInstancePDAAccount for VerificationAccount {
    open spec fn spec_max_instances() -> u64 {
        8
    }

    fn max_instances() -> (r: u64) {
        8
    }

    fn is_valid(&self, index: u64) -> (r: bool) {
        index < 8
    }
}

/// The fee breakdown and identities persisted by the fee-transfer step.
#[derive(Clone, Copy)]
pub struct VerificationAccountData {
    pub fee_payer: RawU256,
    pub fee_payer_account: RawU256,
    pub skip_nullifier_pda: bool,
    pub min_batching_rate: u32,
    pub token_id: u16,
    /// The protocol-funded discount, paid by the fee collector.
    pub subvention: u64,
    /// The protocol revenue share.
    pub network_fee: u64,
    /// The lamports reserved for hashing the commitment into the tree.
    pub commitment_hash_fee: u64,
    /// The same reservation expressed in the request's token.
    pub commitment_hash_fee_token: u64,
    /// The reward for driving the verification computation.
    pub proof_verification_fee: u64,
    /// The token-denominated rent reserved for a recipient account.
    pub associated_token_account_rent: u64,
}

impl Default for VerificationAccountData {
    fn default() -> (r: Self)
        ensures
            r.fee_payer@ == Seq::new(32, |i: int| 0u8),
            r.fee_payer_account@ == Seq::new(32, |i: int| 0u8),
            !r.skip_nullifier_pda,
            r.min_batching_rate == 0,
            r.token_id == 0,
            r.subvention == 0,
            r.network_fee == 0,
            r.commitment_hash_fee == 0,
            r.commitment_hash_fee_token == 0,
            r.proof_verification_fee == 0,
            r.associated_token_account_rent == 0,
    {
        VerificationAccountData {
            fee_payer: crate::types::zero_raw(),
            fee_payer_account: crate::types::zero_raw(),
            skip_nullifier_pda: false,
            min_batching_rate: 0,
            token_id: 0,
            subvention: 0,
            network_fee: 0,
            commitment_hash_fee: 0,
            commitment_hash_fee_token: 0,
            proof_verification_fee: 0,
            associated_token_account_rent: 0,
        }
    }
}

/// One in-flight verification.
pub struct VerificationAccount {
    pub other_data: VerificationAccountData,
    pub request: ProofRequest,
    pub tree_indices: [u32; 2],
    /// The request's variant tag; selects the verifying key.
    pub kind: u8,
    /// Effective preparation rounds per transaction, one entry per public
    /// input.
    pub prepare_inputs_instructions: Vec<u16>,
    pub prepare_inputs_instructions_count: u32,
    /// The raw public inputs, one fixed slot per possible input.
    pub public_inputs: Vec<RawU256>,
    pub a: G1A,
    pub b: G2A,
    pub c: G1A,
    pub prepared_inputs: G1A,
    pub ram_fq: RAMFq,
    pub ram_fq2: RAMFq2,
    pub ram_fq12: RAMFq12,
    /// The ground truth of computation progress.
    pub round: u32,
    pub is_verified: Option<bool>,
    pub state: VerificationState,
}

impl VerificationAccount {
    /// The structural invariant every reachable record satisfies.
    pub open spec fn wf(&self) -> bool {
        &&& self.public_inputs@.len() == MAX_PUBLIC_INPUTS_COUNT
        &&& self.ram_fq.wf()
        &&& self.ram_fq2.wf()
        &&& self.ram_fq12.wf()
        &&& self.kind <= 2
    }

    /// A fresh, empty record.
    pub fn new() -> (r: Self)
        ensures
            r.wf(),
            r.state == VerificationState::Empty,
            r.is_verified is None,
            r.round == 0,
            r.kind == 0,
    {
        let empty_join_split = JoinSplitPublicInputs {
            commitment_count: 0,
            roots: Vec::new(),
            nullifier_hashes: Vec::new(),
            commitment: crate::types::zero_raw(),
            fee_version: 0,
            amount: 0,
            fee: 0,
            token_id: 0,
        };
        let request = ProofRequest::Send(
            SendPublicInputs {
                join_split: empty_join_split,
                recipient: RecipientAccount::new([0; 32], false),
                current_time: 0,
                identifier: crate::types::zero_raw(),
                salt: crate::types::zero_raw(),
            },
        );
        let mut public_inputs: Vec<RawU256> = Vec::new();
        let mut i: usize = 0;
        while i < MAX_PUBLIC_INPUTS_COUNT
            invariant
                public_inputs@.len() == i,
                i <= MAX_PUBLIC_INPUTS_COUNT,
            decreases MAX_PUBLIC_INPUTS_COUNT - i,
        {
            public_inputs.push(crate::types::zero_raw());
            i += 1;
        }
        VerificationAccount {
            other_data: VerificationAccountData::default(),
            request,
            tree_indices: [0; 2],
            kind: 0,
            prepare_inputs_instructions: Vec::new(),
            prepare_inputs_instructions_count: 0,
            public_inputs,
            a: g1_zero(),
            b: g2_zero(),
            c: g1_zero(),
            prepared_inputs: g1_zero(),
            ram_fq: RAMFq::new(),
            ram_fq2: RAMFq2::new(),
            ram_fq12: RAMFq12::new(),
            round: 0,
            is_verified: None,
            state: VerificationState::Empty,
        }
    }

    /// Initializes the record for a request, as the first instruction does.
    pub fn setup(
        &mut self,
        fee_payer: RawU256,
        skip_nullifier_pda: bool,
        raw_public_inputs: &Vec<RawU256>,
        instructions: &Vec<u16>,
        vkey: u8,
        request: ProofRequest,
        tree_indices: [u32; 2],
    ) -> (r: Result<(), ElusivError>)
        requires
            old(self).wf(),
            vkey <= 2,
            raw_public_inputs@.len() <= MAX_PUBLIC_INPUTS_COUNT,
            instructions@.len() <= u32::MAX,
        ensures
            r is Ok,
            final(self).wf(),
            final(self).state == VerificationState::Empty,
            final(self).is_verified is None,
            final(self).round == 0,
            final(self).kind == vkey,
            final(self).request == request,
            final(self).tree_indices@ == tree_indices@,
            final(self).other_data.fee_payer@ == fee_payer@,
            final(self).other_data.skip_nullifier_pda == skip_nullifier_pda,
            final(self).prepare_inputs_instructions@ == instructions@,
            final(self).prepare_inputs_instructions_count == instructions@.len(),
            forall|i: int|
                0 <= i < raw_public_inputs@.len() ==> final(self).public_inputs@[i]@
                    == raw_public_inputs@[i]@,
    {
        let mut instr: Vec<u16> = Vec::new();
        let mut i: usize = 0;
        while i < instructions.len()
            invariant
                i <= instructions@.len(),
                instr@.len() == i,
                forall|j: int| 0 <= j < i ==> instr@[j] == instructions@[j],
            decreases instructions@.len() - i,
        {
            instr.push(instructions[i]);
            i += 1;
        }
        assert(instr@ =~= instructions@);
        let mut inputs: Vec<RawU256> = Vec::new();
        let mut i: usize = 0;
        while i < MAX_PUBLIC_INPUTS_COUNT
            invariant
                i <= MAX_PUBLIC_INPUTS_COUNT,
                inputs@.len() == i,
                raw_public_inputs@.len() <= MAX_PUBLIC_INPUTS_COUNT,
                forall|j: int|
                    0 <= j < i && j < raw_public_inputs@.len() ==> inputs@[j]@
                        == raw_public_inputs@[j]@,
            decreases MAX_PUBLIC_INPUTS_COUNT - i,
        {
            if i < raw_public_inputs.len() {
                inputs.push(raw_public_inputs[i]);
            } else {
                inputs.push(crate::types::zero_raw());
            }
            i += 1;
        }
        self.state = VerificationState::Empty;
        self.is_verified = None;
        self.round = 0;
        self.kind = vkey;
        self.request = request;
        self.tree_indices = tree_indices;
        let mut data = VerificationAccountData::default();
        data.fee_payer = fee_payer;
        data.skip_nullifier_pda = skip_nullifier_pda;
        self.other_data = data;
        self.prepare_inputs_instructions = instr;
        self.prepare_inputs_instructions_count = instructions.len() as u32;
        self.public_inputs = inputs;
        Ok(())
    }

    pub fn get_state(&self) -> (r: VerificationState)
        ensures
            r == self.state,
    {
        self.state
    }

    pub fn set_state(&mut self, state: &VerificationState)
        ensures
            *final(self) == (VerificationAccount { state: *state, ..*old(self) }),
    {
        self.state = *state;
    }

    pub fn get_is_verified(&self) -> (r: Option<bool>)
        ensures
            r == self.is_verified,
    {
        self.is_verified
    }

    pub fn set_is_verified(&mut self, v: &Option<bool>)
        ensures
            *final(self) == (VerificationAccount { is_verified: *v, ..*old(self) }),
    {
        self.is_verified = *v;
    }

    pub fn get_other_data(&self) -> (r: VerificationAccountData)
        ensures
            r == self.other_data,
    {
        self.other_data
    }

    pub fn set_other_data(&mut self, data: &VerificationAccountData)
        ensures
            *final(self) == (VerificationAccount { other_data: *data, ..*old(self) }),
    {
        self.other_data = *data;
    }

    pub fn get_request(&self) -> (r: &ProofRequest)
        ensures
            *r == self.request,
    {
        &self.request
    }

    pub fn set_request(&mut self, request: ProofRequest)
        ensures
            *final(self) == (VerificationAccount { request: request, ..*old(self) }),
    {
        self.request = request;
    }

    pub fn get_round(&self) -> (r: u32)
        ensures
            r == self.round,
    {
        self.round
    }

    pub fn set_round(&mut self, round: u32)
        ensures
            *final(self) == (VerificationAccount { round: round, ..*old(self) }),
    {
        self.round = round;
    }

    pub fn get_kind(&self) -> (r: u8)
        ensures
            r == self.kind,
    {
        self.kind
    }

    pub fn get_prepare_inputs_instructions_count(&self) -> (r: u32)
        ensures
            r == self.prepare_inputs_instructions_count,
    {
        self.prepare_inputs_instructions_count
    }

    pub fn set_prepare_inputs_instructions_count(&mut self, count: &u32)
        ensures
            *final(self) == (VerificationAccount {
                prepare_inputs_instructions_count: *count,
                ..*old(self)
            }),
    {
        self.prepare_inputs_instructions_count = *count;
    }

    pub fn get_public_input(&self, index: usize) -> (r: RawU256)
        requires
            index < self.public_inputs@.len(),
        ensures
            r == self.public_inputs@[index as int],
    {
        self.public_inputs[index]
    }

    pub fn set_public_input(&mut self, index: usize, value: &RawU256)
        requires
            index < old(self).public_inputs@.len(),
        ensures
            final(self).public_inputs@ == old(self).public_inputs@.update(index as int, *value),
            *final(self) == (VerificationAccount {
                public_inputs: final(self).public_inputs,
                ..*old(self)
            }),
    {
        self.public_inputs.set(index, *value);
    }

    pub fn set_prepared_inputs(&mut self, value: &G1A)
        ensures
            *final(self) == (VerificationAccount { prepared_inputs: *value, ..*old(self) }),
    {
        self.prepared_inputs = *value;
    }
}

} // verus!
