//! Request types: 256-bit words in raw form, join-split public inputs, and
//! the proof request variants.

use vstd::prelude::*;
use crate::U256;
use crate::bytes::u64_to_u256;
use crate::fields::{reduce_of, reduce_mr, G1A, G2A};

verus! {

/// A join-split consumes at most this many notes.
pub const JOIN_SPLIT_MAX_N_ARITY: u8 = 4;

/// A 256-bit word in raw (not Montgomery-reduced) form. `skip_mr` returns
/// the raw bytes, used for instance in duplicate-guard derivation; `reduce`
/// returns the canonical form compared against persisted state.
#[derive(Clone, Copy)]
pub struct RawU256 {
    data: U256,
}

impl View for RawU256 {
    type V = Seq<u8>;

    closed spec fn view(&self) -> Seq<u8> {
        self.data@
    }
}

impl RawU256 {
    pub fn new(data: U256) -> (r: Self)
        ensures
            r@ == data@,
    {
        RawU256 { data }
    }

    /// The raw bytes, skipping the Montgomery reduction.
    pub fn skip_mr(&self) -> (r: U256)
        ensures
            r@ == self@,
    {
        self.data
    }

    /// The canonical (Montgomery-reduced) form of this word.
    pub fn reduce(&self) -> (r: U256)
        ensures
            r@ == reduce_of(self@),
    {
        reduce_mr(&self.data)
    }

    /// Byte-wise equality of the raw forms.
    pub fn eq_raw(&self, other: &RawU256) -> (r: bool)
        ensures
            r <==> self@ =~= other@,
    {
        crate::u256_eq(&self.data, &other.data)
    }
}

/// The recipient of a send request.
#[derive(Clone, Copy)]
pub struct RecipientAccount {
    pub address: U256,
    pub is_non_associated_token_account: bool,
}

impl RecipientAccount {
    pub fn new(address: U256, is_non_associated_token_account: bool) -> (r: Self)
        ensures
            r.address@ == address@,
            r.is_non_associated_token_account == is_non_associated_token_account,
    {
        RecipientAccount { address, is_non_associated_token_account }
    }
}

/// The public inputs shared by every request kind: consumed roots and
/// nullifier hashes, the produced commitment, and the committed amounts.
#[derive(Clone)]
pub struct JoinSplitPublicInputs {
    pub commitment_count: u8,
    /// One entry per consumed note; the first must be present. A present
    /// root opens a new tree slot, an absent one reuses the first slot.
    pub roots: Vec<Option<RawU256>>,
    pub nullifier_hashes: Vec<RawU256>,
    pub commitment: RawU256,
    pub fee_version: u32,
    pub amount: u64,
    pub fee: u64,
    /// 0 denotes the native token.
    pub token_id: u16,
}

impl JoinSplitPublicInputs {
    /// The machine bound under which `total_amount` is defined.
    pub open spec fn amount_in_range(&self) -> bool {
        self.amount + self.fee <= u64::MAX
    }

    /// The total value committed to by the proof statement.
    pub fn total_amount(&self) -> (r: u64)
        requires
            self.amount_in_range(),
        ensures
            r == self.amount + self.fee,
    {
        self.amount + self.fee
    }
}

/// The public inputs of a send (or merge) request.
#[derive(Clone)]
pub struct SendPublicInputs {
    pub join_split: JoinSplitPublicInputs,
    pub recipient: RecipientAccount,
    pub current_time: u64,
    pub identifier: RawU256,
    pub salt: RawU256,
}

/// The public inputs of a migrate request (recognized but unavailable).
#[derive(Clone)]
pub struct MigratePublicInputs {
    pub join_split: JoinSplitPublicInputs,
    pub current_nsmt_root: RawU256,
    pub next_nsmt_root: RawU256,
}

/// The arity constraint every accepted request satisfies.
pub open spec fn valid_commitment_count(count: u8) -> bool {
    1 <= count <= JOIN_SPLIT_MAX_N_ARITY
}

impl SendPublicInputs {
    /// The constraints checked beyond the join-split rules: the arity bound.
    pub fn verify_additional_constraints(&self) -> (r: bool)
        ensures
            r <==> valid_commitment_count(self.join_split.commitment_count),
    {
        1 <= self.join_split.commitment_count
            && self.join_split.commitment_count <= JOIN_SPLIT_MAX_N_ARITY
    }
}

/// A Groth16 proof.
#[derive(Clone, Copy)]
pub struct Proof {
    pub a: G1A,
    pub b: G2A,
    pub c: G1A,
}

/// A request to spend notes: the variant selects the verifying key and the
/// finalization shape. `Migrate` is recognized but always rejected.
#[derive(Clone)]
pub enum ProofRequest {
    Send(SendPublicInputs),
    Merge(SendPublicInputs),
    Migrate(MigratePublicInputs),
}

impl ProofRequest {
    /// The variant tag: selects the verifying key at verification time.
    pub fn variant_index(&self) -> (r: u8)
        ensures
            r == self.spec_variant_index(),
    {
        match self {
            ProofRequest::Send(_) => 0,
            ProofRequest::Merge(_) => 1,
            ProofRequest::Migrate(_) => 2,
        }
    }

    pub open spec fn spec_variant_index(&self) -> u8 {
        match self {
            ProofRequest::Send(_) => 0,
            ProofRequest::Merge(_) => 1,
            ProofRequest::Migrate(_) => 2,
        }
    }

    /// The join-split inputs of any variant.
    pub open spec fn spec_join_split(&self) -> JoinSplitPublicInputs {
        match self {
            ProofRequest::Send(p) => p.join_split,
            ProofRequest::Merge(p) => p.join_split,
            ProofRequest::Migrate(p) => p.join_split,
        }
    }

    /// The join-split inputs of any variant.
    pub fn join_split_inputs(&self) -> (r: &JoinSplitPublicInputs)
        ensures
            *r == self.spec_join_split(),
    {
        match self {
            ProofRequest::Send(p) => &p.join_split,
            ProofRequest::Merge(p) => &p.join_split,
            ProofRequest::Migrate(p) => &p.join_split,
        }
    }

    /// The fee version the request commits to.
    pub fn fee_version(&self) -> (r: u32)
        ensures
            r == self.spec_join_split().fee_version,
    {
        self.join_split_inputs().fee_version
    }

    /// The amount used to compute the fee: the committed amount for a send,
    /// zero otherwise.
    pub fn proof_fee_amount(&self) -> (r: u64)
        ensures
            r == self.spec_proof_fee_amount(),
    {
        match self {
            ProofRequest::Send(request) => request.join_split.amount,
            _ => 0,
        }
    }

    pub open spec fn spec_proof_fee_amount(&self) -> u64 {
        match self {
            ProofRequest::Send(request) => request.join_split.amount,
            _ => 0,
        }
    }

    /// The ordered raw public inputs handed to the verifier; the length
    /// matches the variant's verifying key, and the leading slots carry
    /// the roots, nullifier hashes, commitment and identity words.
    pub fn public_signals(&self) -> (r: Vec<RawU256>)
        ensures
            self matches ProofRequest::Migrate(_) ==> r@.len() == 7,
            !(self matches ProofRequest::Migrate(_)) ==> r@.len() == 17,
            self matches ProofRequest::Send(p) ==> {
                &&& forall|i: int| 0 <= i < 4 ==> (#[trigger] r@[i])@ == spec_root_signal(p, i)
                &&& forall|i: int|
                    0 <= i < 4 ==> (#[trigger] r@[4 + i])@ == spec_hash_signal(p, i)
                &&& r@[8]@ == p.join_split.commitment@
                &&& r@[9]@ == p.recipient.address@
                &&& r@[11]@ == p.identifier@
                &&& r@[12]@ == p.salt@
            },
            self matches ProofRequest::Merge(p) ==> {
                &&& forall|i: int| 0 <= i < 4 ==> (#[trigger] r@[i])@ == spec_root_signal(p, i)
                &&& forall|i: int|
                    0 <= i < 4 ==> (#[trigger] r@[4 + i])@ == spec_hash_signal(p, i)
                &&& r@[8]@ == p.join_split.commitment@
                &&& r@[9]@ == p.recipient.address@
                &&& r@[11]@ == p.identifier@
                &&& r@[12]@ == p.salt@
            },
    {
        match self {
            ProofRequest::Send(p) => send_public_signals(p),
            ProofRequest::Merge(p) => send_public_signals(p),
            ProofRequest::Migrate(p) => migrate_public_signals(p),
        }
    }
}

/// The all-zero word.
pub open spec fn spec_zero_word() -> Seq<u8> {
    Seq::new(32, |i: int| 0u8)
}

/// The zero word used to pad absent signals.
pub fn zero_raw() -> (r: RawU256)
    ensures
        r@ =~= spec_zero_word(),
{
    let r = RawU256::new([0; 32]);
    assert(r@ =~= Seq::new(32, |i: int| 0u8));
    r
}

/// The `i`-th root signal: the present root, or the zero word.
pub open spec fn spec_root_signal(p: &SendPublicInputs, i: int) -> Seq<u8> {
    if i < p.join_split.roots@.len() && p.join_split.roots@[i] is Some {
        p.join_split.roots@[i]->0@
    } else {
        spec_zero_word()
    }
}

/// The `i`-th nullifier-hash signal: the hash, or the zero word.
pub open spec fn spec_hash_signal(p: &SendPublicInputs, i: int) -> Seq<u8> {
    if i < p.join_split.nullifier_hashes@.len() {
        p.join_split.nullifier_hashes@[i]@
    } else {
        spec_zero_word()
    }
}

/// The signal layout of a send or merge request: four root slots, four
/// nullifier-hash slots (absent entries zero-padded), then the commitment,
/// the recipient, the timing and identity words, and the amounts.
fn send_public_signals(p: &SendPublicInputs) -> (r: Vec<RawU256>)
    ensures
        r@.len() == 17,
        forall|i: int| 0 <= i < 4 ==> (#[trigger] r@[i])@ == spec_root_signal(p, i),
        forall|i: int| 0 <= i < 4 ==> (#[trigger] r@[4 + i])@ == spec_hash_signal(p, i),
        r@[8]@ == p.join_split.commitment@,
        r@[9]@ == p.recipient.address@,
        r@[11]@ == p.identifier@,
        r@[12]@ == p.salt@,
{
    let mut signals: Vec<RawU256> = Vec::new();
    let mut i: usize = 0;
    while i < 4
        invariant
            signals@.len() == i,
            i <= 4,
            forall|j: int| 0 <= j < i ==> (#[trigger] signals@[j])@ == spec_root_signal(p, j),
        decreases 4 - i,
    {
        if i < p.join_split.roots.len() {
            match p.join_split.roots[i] {
                Some(root) => signals.push(root),
                None => signals.push(zero_raw()),
            }
        } else {
            signals.push(zero_raw());
        }
        i += 1;
    }
    let mut i: usize = 0;
    while i < 4
        invariant
            signals@.len() == 4 + i,
            i <= 4,
            forall|j: int| 0 <= j < 4 ==> (#[trigger] signals@[j])@ == spec_root_signal(p, j),
            forall|j: int| 0 <= j < i ==> (#[trigger] signals@[4 + j])@ == spec_hash_signal(p, j),
        decreases 4 - i,
    {
        if i < p.join_split.nullifier_hashes.len() {
            signals.push(p.join_split.nullifier_hashes[i]);
        } else {
            signals.push(zero_raw());
        }
        i += 1;
    }
    signals.push(p.join_split.commitment);
    signals.push(RawU256::new(p.recipient.address));
    signals.push(RawU256::new(u64_to_u256(p.current_time)));
    signals.push(p.identifier);
    signals.push(p.salt);
    signals.push(RawU256::new(u64_to_u256(p.join_split.amount)));
    signals.push(RawU256::new(u64_to_u256(p.join_split.fee)));
    signals.push(RawU256::new(u64_to_u256(p.join_split.token_id as u64)));
    signals.push(RawU256::new(u64_to_u256(p.join_split.fee_version as u64)));
    signals
}

/// The signal layout of a migrate request.
fn migrate_public_signals(p: &MigratePublicInputs) -> (r: Vec<RawU256>)
    ensures
        r@.len() == 7,
{
    let mut signals: Vec<RawU256> = Vec::new();
    if p.join_split.roots.len() > 0 {
        match p.join_split.roots[0] {
            Some(root) => signals.push(root),
            None => signals.push(zero_raw()),
        }
    } else {
        signals.push(zero_raw());
    }
    if p.join_split.nullifier_hashes.len() > 0 {
        signals.push(p.join_split.nullifier_hashes[0]);
    } else {
        signals.push(zero_raw());
    }
    signals.push(p.join_split.commitment);
    signals.push(p.current_nsmt_root);
    signals.push(p.next_nsmt_root);
    signals.push(RawU256::new(u64_to_u256(p.join_split.amount)));
    signals.push(RawU256::new(u64_to_u256(p.join_split.fee)));
    signals
}

} // verus!
