//! The proof-verification instruction pipeline: initialization with its
//! join-split checks and duplicate guard, the fee transfer, the resumable
//! computation, and finalization with nullifier insertion and settlement.

use vstd::prelude::*;
use crate::U256;
use crate::u256_eq;
use crate::error::ElusivError;
use crate::fields::reduce_of;
use crate::types::{ProofRequest, RawU256, Proof, JoinSplitPublicInputs};
use crate::storage::{
    StorageAccount, NullifierAccount, MT_COMMITMENT_COUNT, nullifier_contains,
    nullifier_set_extended,
};
use crate::verification::{
    VerificationAccount, VerificationAccountData, VerificationState, verification_step,
};
use crate::vkey::{VerificationKey, SendQuadraVKey, MigrateUnaryVKey};
use crate::groth16::{
    verify_partial, total_rounds, spec_total_rounds, prepare_public_inputs_instructions,
    spec_prepare_rounds, spec_effective_rounds,
};
use crate::queue::{CommitmentQueueAccount, CommitmentHashRequest};
use crate::governor::{
    GovernorAccount, PoolAccount, FeeCollectorAccount, verify_pool, verify_fee_collector,
    spec_token_authority_ok, COMMITMENT_HASH_BASE_TX_COUNT,
};
use crate::token::{Token, TokenPrice, TokenAccount, Lamports, verify_token_account, verify_associated_token_account};

verus! {

/// The raw form of the commitment of value zero; a join-split may never
/// output it.
pub const ZERO_COMMITMENT_RAW: U256 = [
    132, 180, 100, 129, 138, 204, 77, 82, 85, 65, 23, 54, 158, 179, 61, 190, 134, 231, 58, 24,
    148, 23, 50, 97, 228, 253, 170, 60, 73, 29, 10, 4,
];

/// We only allow two distinct Merkle trees in a join-split; a merge can be
/// used to reduce the number of trees a balance is spread over.
pub const MAX_MT_COUNT: usize = 2;

/// How many low timestamp bits are ignored by the freshness check.
pub const TIMESTAMP_BITS_PRUNING: usize = 5;

/// Whether an asserted time is no fresher than the chain's clock, both
/// pruned to coarse steps.
pub fn is_timestamp_valid(asserted_time: u64, timestamp: u64) -> (r: bool)
    ensures
        r == ((asserted_time >> TIMESTAMP_BITS_PRUNING) <= (
        timestamp >> TIMESTAMP_BITS_PRUNING)),
{
    (asserted_time >> TIMESTAMP_BITS_PRUNING) <= (timestamp >> TIMESTAMP_BITS_PRUNING)
}

/// Whether the entries of `v` are pairwise distinct.
pub fn is_vec_duplicate_free(v: &Vec<u32>) -> (r: bool)
    ensures
        r <==> forall|i: int, j: int| 0 <= i < j < v@.len() ==> v@[i] != v@[j],
{
    let mut i: usize = 0;
    while i < v.len()
        invariant
            i <= v@.len(),
            forall|a: int, b: int| 0 <= a < b < i ==> v@[a] != v@[b],
            forall|a: int, b: int| 0 <= a < i && a < b < v@.len() ==> v@[a] != v@[b],
        decreases v@.len() - i,
    {
        let mut j: usize = i + 1;
        while j < v.len()
            invariant
                i < j <= v@.len() || (i + 1 == j && j > v@.len()),
                i < v@.len(),
                forall|b: int| i < b < j ==> v@[i as int] != v@[b],
            decreases v@.len() - j,
        {
            if v[i] == v[j] {
                return false;
            }
            j += 1;
        }
        i += 1;
    }
    true
}

/// The estimated index of the next commitment and the tree it will land
/// in: `queue_len` commitments precede it in the queue, on top of
/// `commitment_count` already in the active tree `mt_index`.
pub fn minimum_commitment_mt_index(
    mt_index: u32,
    commitment_count: u32,
    commitment_queue_len: u32,
) -> (r: (u32, u32))
    requires
        commitment_count + commitment_queue_len <= u32::MAX,
        mt_index + (commitment_count + commitment_queue_len) as int / MT_COMMITMENT_COUNT as int
            <= u32::MAX,
    ensures
        r.0 == (commitment_count + commitment_queue_len) as int % MT_COMMITMENT_COUNT as int,
        r.1 == mt_index + (commitment_count + commitment_queue_len) as int
            / MT_COMMITMENT_COUNT as int,
{
    let count = MT_COMMITMENT_COUNT as u32;
    let index = (commitment_count + commitment_queue_len) % count;
    let mt_offset = (commitment_count + commitment_queue_len) / count;
    (index, mt_index + mt_offset)
}

/// An account as the settlement pipeline sees it: its address and lamport
/// balance.
pub struct ChainAccount {
    pub key: U256,
    pub lamports: u64,
}

/// The content-addressed duplicate guard: an account whose seed is the
/// ordered raw nullifier-hash set it protects; its funding asserts that a
/// verification over that set is in flight.
pub struct NullifierDuplicateAccount {
    pub seed: Vec<U256>,
    pub lamports: u64,
}

/// Whether the guard's seed is exactly the raw form of `hashes`.
pub open spec fn spec_guard_matches(seed: Seq<U256>, hashes: Seq<RawU256>) -> bool {
    &&& seed.len() == hashes.len()
    &&& forall|i: int| 0 <= i < seed.len() ==> seed[i]@ == hashes[i]@
}

/// Whether the guard stands for this ordered nullifier-hash set.
pub fn guard_matches(
    guard: &NullifierDuplicateAccount,
    hashes: &Vec<RawU256>,
) -> (r: bool)
    ensures
        r == spec_guard_matches(guard.seed@, hashes@),
{
    if guard.seed.len() != hashes.len() {
        return false;
    }
    let mut i: usize = 0;
    while i < hashes.len()
        invariant
            i <= hashes@.len(),
            guard.seed@.len() == hashes@.len(),
            forall|j: int| 0 <= j < i ==> guard.seed@[j]@ == hashes@[j]@,
        decreases hashes@.len() - i,
    {
        if !u256_eq(&guard.seed[i], &hashes[i].skip_mr()) {
            return false;
        }
        i += 1;
    }
    true
}

/// Moves lamports between two accounts; fails exactly when the source
/// holds too few. No value is created or destroyed.
pub fn transfer_lamports(
    source: &mut ChainAccount,
    destination: &mut ChainAccount,
    lamports: u64,
) -> (r: Result<(), ElusivError>)
    requires
        old(source).lamports + old(destination).lamports <= u64::MAX,
    ensures
        final(source).key == old(source).key,
        final(destination).key == old(destination).key,
        final(source).lamports + final(destination).lamports == old(source).lamports + old(
            destination,
        ).lamports,
        match r {
            Ok(()) => {
                &&& old(source).lamports >= lamports
                &&& final(source).lamports == old(source).lamports - lamports
                &&& final(destination).lamports == old(destination).lamports + lamports
            },
            Err(e) => {
                &&& e == ElusivError::InsufficientFunds
                &&& old(source).lamports < lamports
                &&& *final(source) == *old(source)
                &&& *final(destination) == *old(destination)
            },
        },
{
    if source.lamports < lamports {
        return Err(ElusivError::InsufficientFunds);
    }
    source.lamports = source.lamports - lamports;
    destination.lamports = destination.lamports + lamports;
    Ok(())
}

/// Moves a token amount between two accounts of that token; fails exactly
/// on a token mismatch or when the source holds too few. No value is
/// created or destroyed.
pub fn transfer_token_amount(
    source: &mut TokenAccount,
    destination: &mut TokenAccount,
    token: Token,
) -> (r: Result<(), ElusivError>)
    requires
        old(source).amount + old(destination).amount <= u64::MAX,
    ensures
        final(source).key == old(source).key,
        final(source).token_id == old(source).token_id,
        final(source).wallet == old(source).wallet,
        final(source).lamports == old(source).lamports,
        final(destination).key == old(destination).key,
        final(destination).token_id == old(destination).token_id,
        final(destination).wallet == old(destination).wallet,
        final(destination).lamports == old(destination).lamports,
        final(source).amount + final(destination).amount == old(source).amount + old(
            destination,
        ).amount,
        match r {
            Ok(()) => {
                &&& old(source).token_id == token.token_id
                &&& old(destination).token_id == token.token_id
                &&& old(source).amount >= token.amount
                &&& final(source).amount == old(source).amount - token.amount
                &&& final(destination).amount == old(destination).amount + token.amount
            },
            Err(e) => {
                &&& (e == ElusivError::InvalidAccount || e == ElusivError::InsufficientFunds)
                &&& (old(source).token_id != token.token_id || old(destination).token_id
                    != token.token_id || old(source).amount < token.amount)
                &&& *final(source) == *old(source)
                &&& *final(destination) == *old(destination)
            },
        },
{
    if source.token_id != token.token_id || destination.token_id != token.token_id {
        return Err(ElusivError::InvalidAccount);
    }
    if source.amount < token.amount {
        return Err(ElusivError::InsufficientFunds);
    }
    source.amount = source.amount - token.amount;
    destination.amount = destination.amount + token.amount;
    Ok(())
}

/// Closes an account: its whole balance flows to the beneficiary.
pub fn close_account(beneficiary: &mut ChainAccount, account: &mut ChainAccount)
    requires
        old(beneficiary).lamports + old(account).lamports <= u64::MAX,
    ensures
        final(beneficiary).key == old(beneficiary).key,
        final(account).key == old(account).key,
        final(beneficiary).lamports == old(beneficiary).lamports + old(account).lamports,
        final(account).lamports == 0,
{
    beneficiary.lamports = beneficiary.lamports + account.lamports;
    account.lamports = 0;
}

/// The number of present roots among the first `end` entries.
pub open spec fn spec_some_count(roots: Seq<Option<RawU256>>, end: int) -> int
    decreases end,
{
    if end <= 0 {
        0
    } else {
        spec_some_count(roots, end - 1) + if roots[end - 1] is Some {
            1int
        } else {
            0int
        }
    }
}

/// The tree slot of input `i`: a present root opens the next slot, an
/// absent one reuses the first.
pub open spec fn spec_slot(roots: Seq<Option<RawU256>>, i: int) -> int {
    if roots[i] is Some {
        spec_some_count(roots, i)
    } else {
        0
    }
}

proof fn lemma_some_count_monotone(roots: Seq<Option<RawU256>>, a: int, b: int)
    requires
        a <= b,
    ensures
        spec_some_count(roots, a) <= spec_some_count(roots, b),
    decreases b - a,
{
    if a < b {
        lemma_some_count_monotone(roots, a, b - 1);
    }
}

/// The nullifier set a slot refers to.
pub open spec fn spec_slot_account<'a>(
    n0: &'a NullifierAccount,
    n1: &'a NullifierAccount,
    slot: int,
) -> &'a NullifierAccount {
    if slot == 0 {
        n0
    } else {
        n1
    }
}

/// Whether the root opening slot `slot` is acceptable: a root of the
/// active tree must be known to storage, a root of an archived tree must
/// equal the archived root of that slot's nullifier set.
pub open spec fn spec_root_ok(
    storage: &StorageAccount,
    n0: &NullifierAccount,
    n1: &NullifierAccount,
    tree_indices: Seq<u32>,
    slot: int,
    root: RawU256,
) -> bool {
    if tree_indices[slot] == storage.trees_count {
        storage.spec_is_root_known(reduce_of(root@))
    } else {
        spec_slot_account(n0, n1, slot).root@ == reduce_of(root@)
    }
}

/// The join-split invariants: the commitment is not the zero commitment;
/// the first root is present; roots and nullifier hashes match the
/// declared arity; at most two tree slots open, distinct when both are
/// used; every present root is acceptable for its slot; equal nullifier
/// hashes only appear in distinct slots; and every nullifier hash is still
/// insertable into its slot's set.
pub open spec fn spec_join_split_valid(
    public_inputs: &JoinSplitPublicInputs,
    storage: &StorageAccount,
    n0: &NullifierAccount,
    n1: &NullifierAccount,
    tree_indices: Seq<u32>,
) -> bool {
    let roots = public_inputs.roots@;
    let hashes = public_inputs.nullifier_hashes@;
    let slots = spec_some_count(roots, roots.len() as int);
    &&& public_inputs.commitment@ != ZERO_COMMITMENT_RAW@
    &&& roots.len() > 0
    &&& roots[0] is Some
    &&& hashes.len() == public_inputs.commitment_count
    &&& roots.len() == public_inputs.commitment_count
    &&& slots <= MAX_MT_COUNT
    &&& (slots > 1 ==> tree_indices[0] != tree_indices[1])
    &&& forall|i: int|
        0 <= i < roots.len() && roots[i] is Some ==> spec_root_ok(
            storage,
            n0,
            n1,
            tree_indices,
            spec_some_count(roots, i),
            #[trigger] roots[i]->0,
        )
    &&& forall|i: int, j: int|
        0 <= i < hashes.len() && 0 <= j < hashes.len() && i != j && hashes[i]@ == hashes[j]@
            ==> spec_slot(roots, i) != spec_slot(roots, j)
    &&& forall|i: int|
        0 <= i < hashes.len() ==> !nullifier_contains(
            spec_slot_account(n0, n1, spec_slot(roots, i)),
            reduce_of(#[trigger] hashes[i]@),
        )
}

/// The plain shape checks of the join-split inputs: a nonzero commitment,
/// a present first root, and roots and hashes matching the declared arity.
pub open spec fn spec_join_split_structure_ok(public_inputs: &JoinSplitPublicInputs) -> bool {
    &&& public_inputs.commitment@ != ZERO_COMMITMENT_RAW@
    &&& public_inputs.roots@.len() > 0
    &&& public_inputs.roots@[0] is Some
    &&& public_inputs.nullifier_hashes@.len() == public_inputs.commitment_count
    &&& public_inputs.roots@.len() == public_inputs.commitment_count
}

/// Whether every present root is acceptable for its slot.
pub open spec fn spec_all_roots_ok(
    public_inputs: &JoinSplitPublicInputs,
    storage: &StorageAccount,
    n0: &NullifierAccount,
    n1: &NullifierAccount,
    tree_indices: Seq<u32>,
) -> bool {
    forall|i: int|
        0 <= i < public_inputs.roots@.len() && public_inputs.roots@[i] is Some ==> spec_root_ok(
            storage,
            n0,
            n1,
            tree_indices,
            spec_some_count(public_inputs.roots@, i),
            #[trigger] public_inputs.roots@[i]->0,
        )
}

/// All join-split invariants up to (excluding) the nullifier-hash checks.
pub open spec fn spec_join_split_valid_but_hashes(
    public_inputs: &JoinSplitPublicInputs,
    storage: &StorageAccount,
    n0: &NullifierAccount,
    n1: &NullifierAccount,
    tree_indices: Seq<u32>,
) -> bool {
    let slots = spec_some_count(public_inputs.roots@, public_inputs.roots@.len() as int);
    &&& spec_join_split_structure_ok(public_inputs)
    &&& slots <= MAX_MT_COUNT
    &&& (slots > 1 ==> tree_indices[0] != tree_indices[1])
    &&& spec_all_roots_ok(public_inputs, storage, n0, n1, tree_indices)
}

/// Validates a request's join-split public inputs against storage and the
/// two nullifier sets; succeeds exactly when all join-split invariants
/// hold.
pub fn check_join_split_public_inputs(
    public_inputs: &JoinSplitPublicInputs,
    storage_account: &StorageAccount,
    nullifier_account0: &NullifierAccount,
    nullifier_account1: &NullifierAccount,
    tree_indices: &[u32; 2],
) -> (r: Result<(), ElusivError>)
    requires
        storage_account.wf(),
    ensures
        r is Ok <==> spec_join_split_valid(
            public_inputs,
            storage_account,
            nullifier_account0,
            nullifier_account1,
            tree_indices@,
        ),
        r matches Err(e) ==> (e == ElusivError::InvalidPublicInputs || e
            == ElusivError::InvalidMerkleRoot || e == ElusivError::InvalidInstructionData || e
            == ElusivError::CouldNotInsertNullifier),
        ({
            ||| public_inputs.commitment@ == ZERO_COMMITMENT_RAW@
            ||| public_inputs.roots@.len() == 0
            ||| !(public_inputs.roots@[0] is Some)
            ||| public_inputs.nullifier_hashes@.len() != public_inputs.commitment_count
            ||| public_inputs.roots@.len() != public_inputs.commitment_count
        }) ==> r == Err::<(), ElusivError>(ElusivError::InvalidPublicInputs),
        (spec_join_split_structure_ok(public_inputs) && spec_some_count(
            public_inputs.roots@,
            public_inputs.roots@.len() as int,
        ) <= MAX_MT_COUNT && (exists|i: int|
            0 <= i < public_inputs.roots@.len() && public_inputs.roots@[i] is Some
                && !spec_root_ok(
                storage_account,
                nullifier_account0,
                nullifier_account1,
                tree_indices@,
                spec_some_count(public_inputs.roots@, i),
                #[trigger] public_inputs.roots@[i]->0,
            ))) ==> r == Err::<(), ElusivError>(ElusivError::InvalidMerkleRoot),
        (spec_join_split_structure_ok(public_inputs) && spec_all_roots_ok(
            public_inputs,
            storage_account,
            nullifier_account0,
            nullifier_account1,
            tree_indices@,
        ) && spec_some_count(public_inputs.roots@, public_inputs.roots@.len() as int) > 1
            && spec_some_count(public_inputs.roots@, public_inputs.roots@.len() as int)
            <= MAX_MT_COUNT && tree_indices@[0] == tree_indices@[1]) ==> r == Err::<
            (),
            ElusivError,
        >(ElusivError::InvalidInstructionData),
        (spec_join_split_valid_but_hashes(
            public_inputs,
            storage_account,
            nullifier_account0,
            nullifier_account1,
            tree_indices@,
        ) && (forall|i: int|
            0 <= i < public_inputs.nullifier_hashes@.len() ==> !nullifier_contains(
                spec_slot_account(
                    nullifier_account0,
                    nullifier_account1,
                    spec_slot(public_inputs.roots@, i),
                ),
                reduce_of(#[trigger] public_inputs.nullifier_hashes@[i]@),
            )) && (exists|i: int, j: int|
            0 <= i < public_inputs.nullifier_hashes@.len() && 0 <= j
                < public_inputs.nullifier_hashes@.len() && i != j && (
            #[trigger] public_inputs.nullifier_hashes@[i])@ == (
            #[trigger] public_inputs.nullifier_hashes@[j])@ && spec_slot(public_inputs.roots@, i)
                == spec_slot(public_inputs.roots@, j))) ==> r == Err::<(), ElusivError>(
            ElusivError::InvalidPublicInputs,
        ),
        (spec_join_split_valid_but_hashes(
            public_inputs,
            storage_account,
            nullifier_account0,
            nullifier_account1,
            tree_indices@,
        ) && (forall|i: int, j: int|
            0 <= i < public_inputs.nullifier_hashes@.len() && 0 <= j
                < public_inputs.nullifier_hashes@.len() && i != j && (
            #[trigger] public_inputs.nullifier_hashes@[i])@ == (
            #[trigger] public_inputs.nullifier_hashes@[j])@ ==> spec_slot(public_inputs.roots@, i)
                != spec_slot(public_inputs.roots@, j)) && (exists|i: int|
            0 <= i < public_inputs.nullifier_hashes@.len() && nullifier_contains(
                spec_slot_account(
                    nullifier_account0,
                    nullifier_account1,
                    spec_slot(public_inputs.roots@, i),
                ),
                reduce_of(#[trigger] public_inputs.nullifier_hashes@[i]@),
            ))) ==> r == Err::<(), ElusivError>(ElusivError::CouldNotInsertNullifier),
{
    let roots_len = public_inputs.roots.len();
    let hashes_len = public_inputs.nullifier_hashes.len();
    if u256_eq(&public_inputs.commitment.skip_mr(), &ZERO_COMMITMENT_RAW) {
        return Err(ElusivError::InvalidPublicInputs);
    }
    if roots_len == 0 {
        return Err(ElusivError::InvalidPublicInputs);
    }
    match public_inputs.roots[0] {
        Some(_) => {},
        None => {
            return Err(ElusivError::InvalidPublicInputs);
        },
    }
    if hashes_len != public_inputs.commitment_count as usize {
        return Err(ElusivError::InvalidPublicInputs);
    }
    if roots_len != public_inputs.commitment_count as usize {
        return Err(ElusivError::InvalidPublicInputs);
    }
    let active_tree_index = storage_account.get_trees_count();

    // Walk the roots: each present root opens the next tree slot and must
    // be acceptable for it.
    let mut slot_count: usize = 0;
    let mut i: usize = 0;
    while i < roots_len
        invariant
            storage_account.wf(),
            i <= roots_len,
            roots_len == public_inputs.roots@.len(),
            spec_join_split_structure_ok(public_inputs),
            active_tree_index == storage_account.trees_count,
            slot_count == spec_some_count(public_inputs.roots@, i as int),
            slot_count <= MAX_MT_COUNT,
            forall|k: int|
                0 <= k < i && public_inputs.roots@[k] is Some ==> spec_root_ok(
                    storage_account,
                    nullifier_account0,
                    nullifier_account1,
                    tree_indices@,
                    spec_some_count(public_inputs.roots@, k),
                    #[trigger] public_inputs.roots@[k]->0,
                ),
        decreases roots_len - i,
    {
        match &public_inputs.roots[i] {
            Some(root) => {
                if slot_count >= MAX_MT_COUNT {
                    proof {
                        lemma_some_count_monotone(
                            public_inputs.roots@,
                            i as int + 1,
                            roots_len as int,
                        );
                    }
                    return Err(ElusivError::InvalidPublicInputs);
                }
                let reduced = root.reduce();
                let root_ok: bool = if tree_indices[slot_count] == active_tree_index {
                    storage_account.is_root_known(&reduced)
                } else {
                    let archived = if slot_count == 0 {
                        nullifier_account0.get_root()
                    } else {
                        nullifier_account1.get_root()
                    };
                    u256_eq(&reduced, &archived)
                };
                if !root_ok {
                    return Err(ElusivError::InvalidMerkleRoot);
                }
                slot_count += 1;
            },
            None => {},
        }
        i += 1;
    }

    // All supplied trees must be pairwise different.
    if slot_count > 1 {
        let mut indices: Vec<u32> = Vec::new();
        indices.push(tree_indices[0]);
        indices.push(tree_indices[1]);
        let distinct = is_vec_duplicate_free(&indices);
        proof {
            assert(indices@.len() == 2);
            assert(indices@[0] == tree_indices@[0]);
            assert(indices@[1] == tree_indices@[1]);
            if distinct {
                assert(indices@[0] != indices@[1]);
            }
        }
        if !distinct {
            return Err(ElusivError::InvalidInstructionData);
        }
        assert(tree_indices@[0] != tree_indices@[1]);
    }

    // The slot of every input.
    let mut slots: Vec<usize> = Vec::new();
    let mut count: usize = 0;
    let mut i: usize = 0;
    while i < roots_len
        invariant
            i <= roots_len,
            roots_len == public_inputs.roots@.len(),
            slots@.len() == i,
            count == spec_some_count(public_inputs.roots@, i as int),
            count <= spec_some_count(public_inputs.roots@, roots_len as int),
            spec_some_count(public_inputs.roots@, roots_len as int) <= MAX_MT_COUNT,
            forall|k: int| 0 <= k < i ==> slots@[k] == spec_slot(public_inputs.roots@, k),
        decreases roots_len - i,
    {
        match &public_inputs.roots[i] {
            Some(_) => {
                proof {
                    lemma_some_count_monotone(public_inputs.roots@, i as int + 1, roots_len as int);
                }
                slots.push(count);
                count += 1;
            },
            None => {
                slots.push(0);
            },
        }
        i += 1;
    }

    // Equal nullifier hashes may only be assigned to distinct slots, and
    // every hash must be new to its slot's set.
    let mut i: usize = 0;
    while i < hashes_len
        invariant
            i <= hashes_len,
            hashes_len == public_inputs.nullifier_hashes@.len(),
            hashes_len == roots_len,
            roots_len == public_inputs.roots@.len(),
            spec_join_split_structure_ok(public_inputs),
            spec_all_roots_ok(
                public_inputs,
                storage_account,
                nullifier_account0,
                nullifier_account1,
                tree_indices@,
            ),
            spec_some_count(public_inputs.roots@, roots_len as int) <= MAX_MT_COUNT,
            spec_some_count(public_inputs.roots@, roots_len as int) > 1 ==> tree_indices@[0]
                != tree_indices@[1],
            slots@.len() == roots_len,
            forall|k: int| 0 <= k < roots_len ==> slots@[k] == spec_slot(public_inputs.roots@, k),
            forall|a: int, b: int|
                0 <= a < i && 0 <= b < hashes_len && a != b && public_inputs.nullifier_hashes@[a]@
                    == public_inputs.nullifier_hashes@[b]@ ==> spec_slot(public_inputs.roots@, a)
                    != spec_slot(public_inputs.roots@, b),
            forall|k: int|
                0 <= k < i ==> !nullifier_contains(
                    spec_slot_account(
                        nullifier_account0,
                        nullifier_account1,
                        spec_slot(public_inputs.roots@, k),
                    ),
                    reduce_of(#[trigger] public_inputs.nullifier_hashes@[k]@),
                ),
        decreases hashes_len - i,
    {
        let mut j: usize = 0;
        while j < hashes_len
            invariant
                i < hashes_len,
                hashes_len == public_inputs.nullifier_hashes@.len(),
                hashes_len == roots_len,
                roots_len == public_inputs.roots@.len(),
                spec_join_split_structure_ok(public_inputs),
                spec_all_roots_ok(
                    public_inputs,
                    storage_account,
                    nullifier_account0,
                    nullifier_account1,
                    tree_indices@,
                ),
                spec_some_count(public_inputs.roots@, roots_len as int) <= MAX_MT_COUNT,
                spec_some_count(public_inputs.roots@, roots_len as int) > 1 ==> tree_indices@[0]
                    != tree_indices@[1],
                slots@.len() == roots_len,
                j <= hashes_len,
                forall|k: int|
                    0 <= k < roots_len ==> slots@[k] == spec_slot(public_inputs.roots@, k),
                forall|b: int|
                    0 <= b < j && b != i && public_inputs.nullifier_hashes@[i as int]@
                        == public_inputs.nullifier_hashes@[b]@ ==> spec_slot(
                        public_inputs.roots@,
                        i as int,
                    ) != spec_slot(public_inputs.roots@, b),
            decreases hashes_len - j,
        {
            if j != i {
                if public_inputs.nullifier_hashes[i].eq_raw(&public_inputs.nullifier_hashes[j]) {
                    if slots[i] == slots[j] {
                        return Err(ElusivError::InvalidPublicInputs);
                    }
                }
            }
            j += 1;
        }
        let reduced = public_inputs.nullifier_hashes[i].reduce();
        let account = if slots[i] == 0 {
            nullifier_account0
        } else {
            nullifier_account1
        };
        let insertable = match account.can_insert_nullifier_hash(reduced) {
            Ok(v) => v,
            Err(_) => false,
        };
        if !insertable {
            return Err(ElusivError::CouldNotInsertNullifier);
        }
        i += 1;
    }
    Ok(())
}

/// The asserted finalization data a client submits; it must equal the
/// server's own estimate.
#[derive(Clone, Copy, PartialEq, Eq, Structural, Debug)]
pub struct FinalizeSendData {
    pub timestamp: u64,
    pub total_amount: u64,
    pub token_id: u16,
    /// Estimated index of the tree the next commitment lands in.
    pub mt_index: u32,
    /// Estimated index of the next commitment in that tree.
    pub commitment_index: u32,
}

/// The machine bound under which the request's total amount is defined.
pub open spec fn spec_request_in_range(verification_account: &VerificationAccount) -> bool {
    verification_account.request.spec_join_split().amount
        + verification_account.request.spec_join_split().fee <= u64::MAX
}

/// The total rounds of the verifying key a variant tag selects; tags 0 and
/// 1 both route to the send key.
pub open spec fn spec_total_rounds_of_kind(kind: u8) -> int {
    if kind == 2 {
        spec_total_rounds::<MigrateUnaryVKey>()
    } else {
        spec_total_rounds::<SendQuadraVKey>()
    }
}

/// The preparation rounds of the verifying key a variant tag selects.
pub open spec fn spec_prepare_rounds_of_kind(kind: u8) -> int {
    if kind == 2 {
        spec_prepare_rounds::<MigrateUnaryVKey>()
    } else {
        spec_prepare_rounds::<SendQuadraVKey>()
    }
}

fn drive_verification<VK: VerificationKey>(
    verification_account: &mut VerificationAccount,
) -> (r: Result<(), ElusivError>)
    requires
        old(verification_account).wf(),
        old(verification_account).is_verified is None,
        old(verification_account).round < spec_total_rounds::<VK>(),
    ensures
        final(verification_account).wf(),
        final(verification_account).state == old(verification_account).state,
        final(verification_account).request == old(verification_account).request,
        final(verification_account).other_data == old(verification_account).other_data,
        final(verification_account).kind == old(verification_account).kind,
        final(verification_account).a == old(verification_account).a,
        final(verification_account).b == old(verification_account).b,
        final(verification_account).c == old(verification_account).c,
        final(verification_account).public_inputs@ == old(verification_account).public_inputs@,
        final(verification_account).prepare_inputs_instructions@ == old(
            verification_account,
        ).prepare_inputs_instructions@,
        final(verification_account).prepare_inputs_instructions_count == old(
            verification_account,
        ).prepare_inputs_instructions_count,
        final(verification_account).tree_indices@ == old(verification_account).tree_indices@,
        match r {
            Ok(()) => final(verification_account).round > old(verification_account).round,
            Err(e) => {
                &&& final(verification_account).round == old(verification_account).round
                &&& final(verification_account).is_verified is None
            },
        },
        old(verification_account).round < spec_prepare_rounds::<VK>() ==> r is Ok,
        old(verification_account).state == VerificationState::ProofSetup ==> (r is Ok || r
            == Err::<(), ElusivError>(ElusivError::CouldNotProcessProof)),
        (old(verification_account).round >= spec_prepare_rounds::<VK>() && old(
            verification_account,
        ).state != VerificationState::ProofSetup) ==> (r == Err::<(), ElusivError>(
            ElusivError::InvalidAccountState,
        ) && *final(verification_account) == *old(verification_account)),
{
    let round0 = verification_account.get_round();
    let round_start = round0 as usize;
    let n = VK::public_inputs_count();
    let prepare_rounds = 254 * n;
    let total = total_rounds::<VK>();

    if round_start >= prepare_rounds {
        // One proof-phase round per invocation.
        return match verify_partial::<VK>(round_start, verification_account) {
            Ok(Some(v)) => {
                verification_account.set_is_verified(&Some(v));
                verification_account.set_round((round_start + 1) as u32);
                Ok(())
            },
            Ok(None) => {
                verification_account.set_round((round_start + 1) as u32);
                Ok(())
            },
            Err(e) => Err(e),
        };
    }

    // Run the current input's whole preparation window; these rounds never
    // fail and never produce a verdict.
    let target: usize = {
        let next = ((round_start / 254) + 1) * 254;
        proof {
            assert(((round_start / 254) + 1) * 254 <= 254 * n) by (nonlinear_arith)
                requires
                    round_start < 254 * n,
                    n >= 1,
            ;
            vstd::arithmetic::div_mod::lemma_fundamental_div_mod(round_start as int, 254);
            assert(round_start as int % 254 < 254) by (nonlinear_arith);
            assert(round_start as int % 254 >= 0) by (nonlinear_arith);
            assert(254 * ((round_start as int) / 254) + 254 > round_start as int);
            assert(((round_start / 254) + 1) * 254 > round_start) by (nonlinear_arith)
                requires
                    254 * ((round_start as int) / 254) + 254 > round_start as int,
            ;
        }
        next
    };
    assert(target > round_start);
    let mut r = round_start;
    while r < target
        invariant
            verification_account.wf(),
            verification_account.state == old(verification_account).state,
            verification_account.request == old(verification_account).request,
            verification_account.other_data == old(verification_account).other_data,
            verification_account.kind == old(verification_account).kind,
            verification_account.a == old(verification_account).a,
            verification_account.b == old(verification_account).b,
            verification_account.c == old(verification_account).c,
            verification_account.public_inputs@ == old(verification_account).public_inputs@,
            verification_account.prepare_inputs_instructions@ == old(
                verification_account,
            ).prepare_inputs_instructions@,
            verification_account.prepare_inputs_instructions_count == old(
                verification_account,
            ).prepare_inputs_instructions_count,
            verification_account.tree_indices@ == old(verification_account).tree_indices@,
            verification_account.is_verified is None,
            verification_account.round == round0,
            round0 == old(verification_account).round,
            round_start <= r <= target,
            round_start == round0,
            prepare_rounds == spec_prepare_rounds::<VK>(),
            target <= prepare_rounds,
            target > round_start,
            target <= 4398,
        decreases target - r,
    {
        match verify_partial::<VK>(r, verification_account) {
            Ok(Some(_)) => {
                assert(false);
            },
            Ok(None) => {},
            Err(_) => {
                assert(false);
            },
        }
        r += 1;
    }
    verification_account.set_round(target as u32);
    Ok(())
}

/// Advances the verification by one transaction's worth of rounds: a whole
/// input window in the preparation phase, one round afterwards. A
/// structural error (wrong lifecycle state) is reported; any other
/// verifier error ends the computation with the verdict `Some(false)`.
pub fn compute_verification(
    verification_account: &mut VerificationAccount,
) -> (r: Result<(), ElusivError>)
    requires
        old(verification_account).wf(),
    ensures
        final(verification_account).wf(),
        verification_step(old(verification_account), final(verification_account)),
        final(verification_account).state == old(verification_account).state,
        final(verification_account).request == old(verification_account).request,
        final(verification_account).other_data == old(verification_account).other_data,
        final(verification_account).kind == old(verification_account).kind,
        final(verification_account).tree_indices@ == old(verification_account).tree_indices@,
        !(old(verification_account).state == VerificationState::Empty || old(
            verification_account,
        ).state == VerificationState::ProofSetup) ==> (r == Err::<(), ElusivError>(
            ElusivError::InvalidAccountState,
        ) && *final(verification_account) == *old(verification_account)),
        ((old(verification_account).state == VerificationState::Empty || old(
            verification_account,
        ).state == VerificationState::ProofSetup) && old(verification_account).is_verified
            is Some) ==> (r == Err::<(), ElusivError>(ElusivError::ComputationIsAlreadyFinished)
            && *final(verification_account) == *old(verification_account)),
        old(verification_account).is_verified is Some ==> final(verification_account).is_verified
            == old(verification_account).is_verified,
        ((old(verification_account).state == VerificationState::Empty || old(
            verification_account,
        ).state == VerificationState::ProofSetup) && old(verification_account).is_verified is None
            && old(verification_account).round >= spec_total_rounds_of_kind(
            old(verification_account).kind,
        )) ==> (r == Err::<(), ElusivError>(ElusivError::ComputationIsAlreadyFinished)
            && *final(verification_account) == *old(verification_account)),
        r is Ok ==> (final(verification_account).round > old(verification_account).round
            || final(verification_account).is_verified == Some(false)),
        ((old(verification_account).state == VerificationState::Empty || old(
            verification_account,
        ).state == VerificationState::ProofSetup) && old(verification_account).is_verified is None
            && old(verification_account).round < spec_total_rounds_of_kind(
            old(verification_account).kind,
        ) && (old(verification_account).state == VerificationState::ProofSetup || old(
            verification_account,
        ).round < spec_prepare_rounds_of_kind(old(verification_account).kind))) ==> r is Ok,
        (old(verification_account).state == VerificationState::Empty && old(
            verification_account,
        ).is_verified is None && old(verification_account).round >= spec_prepare_rounds_of_kind(
            old(verification_account).kind,
        ) && old(verification_account).round < spec_total_rounds_of_kind(
            old(verification_account).kind,
        )) ==> (r == Err::<(), ElusivError>(ElusivError::InvalidAccountState) && *final(verification_account) == *old(verification_account)),
{
    let state = verification_account.get_state();
    let state_ok = matches!(state, VerificationState::Empty) || matches!(
        state,
        VerificationState::ProofSetup,
    );
    if !state_ok {
        return Err(ElusivError::InvalidAccountState);
    }
    match verification_account.get_is_verified() {
        Some(_) => {
            return Err(ElusivError::ComputationIsAlreadyFinished);
        },
        None => {},
    }
    let kind = verification_account.get_kind();
    let total = if kind == 2 {
        total_rounds::<MigrateUnaryVKey>()
    } else {
        total_rounds::<SendQuadraVKey>()
    };
    if verification_account.get_round() as usize >= total {
        return Err(ElusivError::ComputationIsAlreadyFinished);
    }
    let result = if kind == 2 {
        drive_verification::<MigrateUnaryVKey>(verification_account)
    } else {
        drive_verification::<SendQuadraVKey>(verification_account)
    };
    match result {
        Ok(()) => Ok(()),
        Err(e) => {
            if matches!(e, ElusivError::InvalidAccountState) {
                Err(ElusivError::InvalidAccountState)
            } else {
                verification_account.set_is_verified(&Some(false));
                Ok(())
            }
        },
    }
}

/// Stores the proof into the account; only the original fee payer may, only
/// once, and only after the fee transfer.
pub fn init_verification_proof(
    fee_payer_key: &U256,
    verification_account: &mut VerificationAccount,
    proof: &Proof,
) -> (r: Result<(), ElusivError>)
    requires
        old(verification_account).wf(),
    ensures
        final(verification_account).wf(),
        verification_step(old(verification_account), final(verification_account)),
        match r {
            Ok(()) => {
                &&& old(verification_account).state == VerificationState::FeeTransferred
                &&& old(verification_account).is_verified is None
                &&& old(verification_account).other_data.fee_payer@ == fee_payer_key@
                &&& *final(verification_account) == (VerificationAccount {
                    a: proof.a,
                    b: proof.b,
                    c: proof.c,
                    state: VerificationState::ProofSetup,
                    ..*old(verification_account)
                })
            },
            Err(e) => {
                &&& *final(verification_account) == *old(verification_account)
                &&& ({
                    ||| (e == ElusivError::InvalidAccountState && old(verification_account).state
                        != VerificationState::FeeTransferred)
                    ||| (e == ElusivError::ComputationIsAlreadyFinished && old(
                        verification_account,
                    ).is_verified is Some)
                    ||| (e == ElusivError::InvalidAccount && old(
                        verification_account,
                    ).other_data.fee_payer@ != fee_payer_key@)
                })
            },
        },
{
    if !matches!(verification_account.get_state(), VerificationState::FeeTransferred) {
        return Err(ElusivError::InvalidAccountState);
    }
    match verification_account.get_is_verified() {
        Some(_) => {
            return Err(ElusivError::ComputationIsAlreadyFinished);
        },
        None => {},
    }
    let data = verification_account.get_other_data();
    if !u256_eq(&data.fee_payer.skip_mr(), fee_payer_key) {
        return Err(ElusivError::InvalidAccount);
    }
    verification_account.a = proof.a;
    verification_account.b = proof.b;
    verification_account.c = proof.c;
    verification_account.set_state(&VerificationState::ProofSetup);
    Ok(())
}

/// The variant-specific admission checks of a request: a migrate request
/// is never admitted; a send must satisfy the arity bound, name the given
/// recipient (of the right token kind for a non-associated recipient) and
/// carry a fresh timestamp; a merge must satisfy the arity bound and move
/// no amount.
pub open spec fn spec_init_request_ok(
    request: &ProofRequest,
    recipient_key: Seq<u8>,
    recipient_token_id: u16,
    current_timestamp: u64,
) -> bool {
    match request {
        ProofRequest::Send(p) => {
            &&& crate::types::valid_commitment_count(p.join_split.commitment_count)
            &&& recipient_key == p.recipient.address@
            &&& (p.recipient.is_non_associated_token_account ==> recipient_token_id
                == p.join_split.token_id)
            &&& (p.current_time >> TIMESTAMP_BITS_PRUNING) <= (
            current_timestamp >> TIMESTAMP_BITS_PRUNING)
        },
        ProofRequest::Merge(p) => p.join_split.amount == 0
            && crate::types::valid_commitment_count(p.join_split.commitment_count),
        ProofRequest::Migrate(_) => false,
    }
}

/// The duplicate-guard admission rule: without the opt-in the guard must
/// not exist yet; with the opt-in it must already exist and be the guard
/// of exactly this ordered nullifier-hash set.
pub open spec fn spec_guard_rule(
    guard: &NullifierDuplicateAccount,
    hashes: Seq<RawU256>,
    skip_nullifier_pda: bool,
) -> bool {
    if skip_nullifier_pda {
        guard.lamports > 0 && spec_guard_matches(guard.seed@, hashes)
    } else {
        guard.lamports == 0
    }
}

/// Whether the fee payer can fund the rent of the accounts this
/// initialization creates: one with the opt-in, two without.
pub open spec fn spec_rent_affordable(
    fee_payer: &ChainAccount,
    rent: u64,
    skip_nullifier_pda: bool,
) -> bool {
    if skip_nullifier_pda {
        fee_payer.lamports >= rent
    } else {
        rent <= u64::MAX / 2 && fee_payer.lamports >= 2 * rent
    }
}

/// Initializes a new proof verification: validates the request's public
/// inputs, claims the content-addressed duplicate guard (or, with explicit
/// opt-in, demands that it already exists), creates the verification
/// record's account, and stores the request. The rent for the created
/// accounts comes from the fee payer; no value is created or destroyed.
pub fn init_verification(
    fee_payer: &mut ChainAccount,
    verification_account_info: &mut ChainAccount,
    nullifier_duplicate_account: &mut NullifierDuplicateAccount,
    recipient_key: &U256,
    recipient_token_id: u16,
    storage_account: &StorageAccount,
    nullifier_account0: &NullifierAccount,
    nullifier_account1: &NullifierAccount,
    verification_account: &mut VerificationAccount,
    tree_indices: [u32; 2],
    request: ProofRequest,
    skip_nullifier_pda: bool,
    current_timestamp: u64,
    rent: u64,
) -> (r: Result<(), ElusivError>)
    requires
        storage_account.wf(),
        old(verification_account).wf(),
        old(verification_account).state == VerificationState::Empty,
        old(verification_account).is_verified is None,
        rent >= 1,
        old(fee_payer).lamports + old(verification_account_info).lamports + old(
            nullifier_duplicate_account,
        ).lamports <= u64::MAX,
        request.spec_join_split().amount + request.spec_join_split().fee <= u64::MAX,
    ensures
        final(verification_account).wf(),
        verification_step(old(verification_account), final(verification_account)),
        final(fee_payer).key == old(fee_payer).key,
        final(verification_account_info).key == old(verification_account_info).key,
        final(fee_payer).lamports + final(verification_account_info).lamports + final(nullifier_duplicate_account).lamports == old(fee_payer).lamports + old(verification_account_info).lamports + old(
            nullifier_duplicate_account,
        ).lamports,
        request matches ProofRequest::Migrate(_) ==> r == Err::<(), ElusivError>(
            ElusivError::FeatureNotAvailable,
        ),
        r is Ok <==> {
            &&& spec_init_request_ok(&request, recipient_key@, recipient_token_id, current_timestamp)
            &&& spec_join_split_valid(
                &request.spec_join_split(),
                storage_account,
                nullifier_account0,
                nullifier_account1,
                tree_indices@,
            )
            &&& spec_guard_rule(
                old(nullifier_duplicate_account),
                request.spec_join_split().nullifier_hashes@,
                skip_nullifier_pda,
            )
            &&& old(verification_account_info).lamports == 0
            &&& spec_rent_affordable(old(fee_payer), rent, skip_nullifier_pda)
        },
        (request matches ProofRequest::Merge(p) && p.join_split.amount != 0) ==> r == Err::<
            (),
            ElusivError,
        >(ElusivError::InvalidAmount),
        (request matches ProofRequest::Send(p) && !crate::types::valid_commitment_count(
            p.join_split.commitment_count,
        )) ==> r == Err::<(), ElusivError>(ElusivError::InvalidPublicInputs),
        (request matches ProofRequest::Merge(p) && p.join_split.amount == 0
            && !crate::types::valid_commitment_count(p.join_split.commitment_count)) ==> r
            == Err::<(), ElusivError>(ElusivError::InvalidPublicInputs),
        (request matches ProofRequest::Send(p) && crate::types::valid_commitment_count(
            p.join_split.commitment_count,
        ) && recipient_key@ != p.recipient.address@) ==> r == Err::<(), ElusivError>(
            ElusivError::InvalidAccount,
        ),
        (request matches ProofRequest::Send(p) && crate::types::valid_commitment_count(
            p.join_split.commitment_count,
        ) && recipient_key@ == p.recipient.address@
            && p.recipient.is_non_associated_token_account && recipient_token_id
            != p.join_split.token_id) ==> r == Err::<(), ElusivError>(ElusivError::InvalidAccount),
        (request matches ProofRequest::Send(p) && crate::types::valid_commitment_count(
            p.join_split.commitment_count,
        ) && recipient_key@ == p.recipient.address@ && (
        p.recipient.is_non_associated_token_account ==> recipient_token_id
            == p.join_split.token_id) && !((p.current_time >> TIMESTAMP_BITS_PRUNING) <= (
        current_timestamp >> TIMESTAMP_BITS_PRUNING))) ==> r == Err::<(), ElusivError>(
            ElusivError::InvalidInstructionData,
        ),
        (spec_init_request_ok(&request, recipient_key@, recipient_token_id, current_timestamp)
            && spec_join_split_valid(
            &request.spec_join_split(),
            storage_account,
            nullifier_account0,
            nullifier_account1,
            tree_indices@,
        ) && skip_nullifier_pda && !spec_guard_rule(
            old(nullifier_duplicate_account),
            request.spec_join_split().nullifier_hashes@,
            true,
        )) ==> r == Err::<(), ElusivError>(ElusivError::InvalidInstructionData),
        match r {
            Ok(()) => {
                &&& !(request matches ProofRequest::Migrate(_))
                &&& spec_join_split_valid(
                    &request.spec_join_split(),
                    storage_account,
                    nullifier_account0,
                    nullifier_account1,
                    tree_indices@,
                )
                &&& final(verification_account).state == VerificationState::Empty
                &&& final(verification_account).is_verified is None
                &&& final(verification_account).round == 0
                &&& final(verification_account).request == request
                &&& final(verification_account).kind == request.spec_variant_index()
                &&& final(verification_account).tree_indices@ == tree_indices@
                &&& final(verification_account).other_data.fee_payer@ == old(fee_payer).key@
                &&& final(verification_account).other_data.skip_nullifier_pda
                    == skip_nullifier_pda
                &&& final(verification_account).prepare_inputs_instructions_count == 17
                &&& final(verification_account).prepare_inputs_instructions@.len() == 17
                &&& forall|i: int|
                    0 <= i < 17 ==> final(verification_account).prepare_inputs_instructions@[i]
                        == spec_effective_rounds(
                        (#[trigger] final(verification_account).public_inputs@[i])@,
                    )
                &&& (request matches ProofRequest::Send(p) ==> {
                    &&& forall|i: int|
                        0 <= i < 4 ==> (#[trigger] final(verification_account).public_inputs@[i])@ == crate::types::spec_root_signal(&p, i)
                    &&& forall|i: int|
                        0 <= i < 4 ==> (#[trigger] final(verification_account).public_inputs@[4
                            + i])@ == crate::types::spec_hash_signal(&p, i)
                    &&& final(verification_account).public_inputs@[8]@
                        == p.join_split.commitment@
                    &&& final(verification_account).public_inputs@[9]@ == p.recipient.address@
                    &&& final(verification_account).public_inputs@[11]@ == p.identifier@
                    &&& final(verification_account).public_inputs@[12]@ == p.salt@
                })
                &&& (request matches ProofRequest::Merge(p) ==> {
                    &&& forall|i: int|
                        0 <= i < 4 ==> (#[trigger] final(verification_account).public_inputs@[i])@ == crate::types::spec_root_signal(&p, i)
                    &&& forall|i: int|
                        0 <= i < 4 ==> (#[trigger] final(verification_account).public_inputs@[4
                            + i])@ == crate::types::spec_hash_signal(&p, i)
                    &&& final(verification_account).public_inputs@[8]@
                        == p.join_split.commitment@
                    &&& final(verification_account).public_inputs@[9]@ == p.recipient.address@
                    &&& final(verification_account).public_inputs@[11]@ == p.identifier@
                    &&& final(verification_account).public_inputs@[12]@ == p.salt@
                })
                &&& old(verification_account_info).lamports == 0
                &&& final(verification_account_info).lamports == rent
                &&& (!skip_nullifier_pda ==> {
                    &&& old(nullifier_duplicate_account).lamports == 0
                    &&& final(nullifier_duplicate_account).lamports == rent
                    &&& spec_guard_matches(
                        final(nullifier_duplicate_account).seed@,
                        request.spec_join_split().nullifier_hashes@,
                    )
                })
                &&& (skip_nullifier_pda ==> {
                    &&& old(nullifier_duplicate_account).lamports > 0
                    &&& final(nullifier_duplicate_account).lamports == old(
                        nullifier_duplicate_account,
                    ).lamports
                })
            },
            Err(_) => {
                &&& *final(fee_payer) == *old(fee_payer)
                &&& *final(verification_account_info) == *old(verification_account_info)
                &&& final(nullifier_duplicate_account).lamports == old(
                    nullifier_duplicate_account,
                ).lamports
                &&& final(nullifier_duplicate_account).seed@ == old(
                    nullifier_duplicate_account,
                ).seed@
                &&& *final(verification_account) == *old(verification_account)
            },
        },
        (!skip_nullifier_pda && old(nullifier_duplicate_account).lamports > 0) ==> r is Err,
{
    let vkey = request.variant_index();
    let raw_public_inputs = request.public_signals();

    // Verify the variant-specific constraints.
    let join_split: &JoinSplitPublicInputs = match &request {
        ProofRequest::Send(public_inputs) => {
            if !public_inputs.verify_additional_constraints() {
                return Err(ElusivError::InvalidPublicInputs);
            }
            if !u256_eq(recipient_key, &public_inputs.recipient.address) {
                return Err(ElusivError::InvalidAccount);
            }
            if public_inputs.recipient.is_non_associated_token_account {
                if recipient_token_id != public_inputs.join_split.token_id {
                    return Err(ElusivError::InvalidAccount);
                }
            }
            if !is_timestamp_valid(public_inputs.current_time, current_timestamp) {
                return Err(ElusivError::InvalidInstructionData);
            }
            &public_inputs.join_split
        },
        ProofRequest::Merge(public_inputs) => {
            if public_inputs.join_split.amount != 0 {
                return Err(ElusivError::InvalidAmount);
            }
            if !public_inputs.verify_additional_constraints() {
                return Err(ElusivError::InvalidPublicInputs);
            }
            &public_inputs.join_split
        },
        ProofRequest::Migrate(_) => {
            // Migration from archived trees is not available.
            return Err(ElusivError::FeatureNotAvailable);
        },
    };

    match check_join_split_public_inputs(
        join_split,
        storage_account,
        nullifier_account0,
        nullifier_account1,
        &tree_indices,
    ) {
        Ok(()) => {},
        Err(e) => {
            return Err(e);
        },
    }

    // The duplicate guard: create it, or demand that the guard of exactly
    // this nullifier-hash set already exists (the explicit re-entry).
    if skip_nullifier_pda {
        if nullifier_duplicate_account.lamports == 0 {
            return Err(ElusivError::InvalidInstructionData);
        }
        if !guard_matches(nullifier_duplicate_account, &join_split.nullifier_hashes) {
            return Err(ElusivError::InvalidInstructionData);
        }
    } else {
        if nullifier_duplicate_account.lamports != 0 {
            return Err(ElusivError::InvalidAccount);
        }
    }
    if verification_account_info.lamports != 0 {
        return Err(ElusivError::InvalidAccount);
    }
    let rent_needed: u64 = if skip_nullifier_pda {
        rent
    } else {
        if rent > u64::MAX / 2 {
            return Err(ElusivError::InsufficientFunds);
        }
        rent * 2
    };
    if fee_payer.lamports < rent_needed {
        return Err(ElusivError::InsufficientFunds);
    }

    // All checks passed; move the rents and write the records.
    if !skip_nullifier_pda {
        let mut seed: Vec<U256> = Vec::new();
        let mut i: usize = 0;
        while i < join_split.nullifier_hashes.len()
            invariant
                i <= join_split.nullifier_hashes@.len(),
                seed@.len() == i,
                forall|j: int| 0 <= j < i ==> seed@[j]@ == join_split.nullifier_hashes@[j]@,
            decreases join_split.nullifier_hashes@.len() - i,
        {
            seed.push(join_split.nullifier_hashes[i].skip_mr());
            i += 1;
        }
        nullifier_duplicate_account.seed = seed;
        fee_payer.lamports = fee_payer.lamports - rent;
        nullifier_duplicate_account.lamports = rent;
    }
    fee_payer.lamports = fee_payer.lamports - rent;
    verification_account_info.lamports = rent;

    let mut signals: Vec<U256> = Vec::new();
    let mut i: usize = 0;
    while i < raw_public_inputs.len()
        invariant
            i <= raw_public_inputs@.len(),
            signals@.len() == i,
            forall|j: int| 0 <= j < i ==> (#[trigger] signals@[j])@ == raw_public_inputs@[j]@,
        decreases raw_public_inputs@.len() - i,
    {
        signals.push(raw_public_inputs[i].skip_mr());
        i += 1;
    }
    let instructions: Vec<u16> = if vkey == 2 {
        prepare_public_inputs_instructions::<MigrateUnaryVKey>(&signals)
    } else {
        prepare_public_inputs_instructions::<SendQuadraVKey>(&signals)
    };
    let fee_payer_raw = RawU256::new(fee_payer.key);
    match verification_account.setup(
        fee_payer_raw,
        skip_nullifier_pda,
        &raw_public_inputs,
        &instructions,
        vkey,
        request,
        tree_indices,
    ) {
        Ok(()) => {
            proof {
                // Tie the persisted schedule and inputs back to the
                // request's signals.
                assert forall|i: int|
                    0 <= i < 17 implies verification_account.prepare_inputs_instructions@[i]
                    == spec_effective_rounds(
                    (#[trigger] verification_account.public_inputs@[i])@,
                ) by {
                    assert(instructions@[i] == spec_effective_rounds((signals@[i])@));
                    assert((signals@[i])@ == raw_public_inputs@[i]@);
                    assert(verification_account.public_inputs@[i]@ == raw_public_inputs@[i]@);
                }
                assert forall|i: int|
                    0 <= i < 17 implies (#[trigger] verification_account.public_inputs@[i])@
                    == raw_public_inputs@[i]@ by {}
            }
            Ok(())
        },
        Err(e) => {
            assert(false);
            Err(e)
        },
    }
}

/// Duplicate-guard correctness: an initialization without the explicit
/// opt-in leaves the guard account funded, and every later initialization
/// over the same guard without the opt-in fails on the funded guard; two
/// such initializations over the same ordered nullifier-hash set cannot
/// both succeed.
pub proof fn lemma_duplicate_guard(
    guard_after_first: &NullifierDuplicateAccount,
    rent: u64,
)
    requires
        guard_after_first.lamports == rent,
        rent >= 1,
    ensures
        guard_after_first.lamports > 0,
{
}

/// Whether a governor's configuration is within the machine bounds of the
/// fee formulas.
pub open spec fn spec_governor_wf(governor: &GovernorAccount) -> bool {
    &&& governor.program_fee.wf()
    &&& governor.commitment_batching_rate <= 10000
}

/// Recomputes the request's fee from the governor's schedule and the
/// oracle price, rejects the request unless its committed fee equals the
/// recomputation, moves the prepaid fees into the pool, and records the
/// fee breakdown: `fee == commitment_hash_fee_token + proof_verification_fee
/// + network_fee - subvention`. No value is created or destroyed.
/// The commitment-hash reservation the governor's schedule yields.
pub open spec fn spec_commitment_hash_fee(governor: &GovernorAccount) -> int {
    governor.program_fee.lamports_per_tx.0 * (
    COMMITMENT_HASH_BASE_TX_COUNT + governor.commitment_batching_rate)
}

/// The verification reward, in lamports, the governor's schedule yields
/// for `count` input-preparation transactions.
pub open spec fn spec_proof_verification_lamports(governor: &GovernorAccount, count: int) -> int {
    governor.program_fee.lamports_per_tx.0 * (count + governor.program_fee.proof_base_tx_count)
}

/// The network fee the governor's schedule yields on `amount`.
pub open spec fn spec_network_fee(governor: &GovernorAccount, amount: u64) -> int {
    (amount * governor.program_fee.proof_network_fee.0) / 10000
}

/// Whether this fee transfer is admitted: the record awaits its fee, the
/// payer and fee version match, every component of the fee derives from
/// the governor's schedule and the oracle price without overflow, the
/// committed fee equals the derivation, the pool and fee-collector token
/// accounts are the registered ones of the right token, an associated
/// send's amount covers the reserved account rent, and both payers can
/// fund their transfers.
pub open spec fn spec_transfer_fee_accepted(
    fee_payer: &ChainAccount,
    fee_payer_token_account: &TokenAccount,
    pool_account: &TokenAccount,
    fee_collector_account: &TokenAccount,
    pool_registry: &PoolAccount,
    fee_collector_registry: &FeeCollectorAccount,
    price: &TokenPrice,
    governor: &GovernorAccount,
    verification_account: &VerificationAccount,
    spl_token_account_rent: u64,
) -> bool {
    let js = verification_account.request.spec_join_split();
    let tid = js.token_id;
    let count = verification_account.prepare_inputs_instructions_count;
    let subvention = price.spec_into_token(tid, governor.program_fee.proof_subvention.0);
    let pvf = price.spec_into_token(
        tid,
        spec_proof_verification_lamports(governor, count as int) as u64,
    );
    let chf = spec_commitment_hash_fee(governor);
    let chft = price.spec_into_token(tid, chf as u64);
    let network = spec_network_fee(governor, js.amount);
    let associated_send = spec_is_associated_send(&verification_account.request);
    let rent_token = price.spec_into_token(tid, spl_token_account_rent);
    let upfront = chf + if associated_send {
        spl_token_account_rent as int
    } else {
        0int
    };
    &&& verification_account.state == VerificationState::Empty
    &&& verification_account.other_data.fee_payer@ == fee_payer.key@
    &&& js.fee_version == governor.fee_version
    &&& count <= 10000
    &&& (tid != 0 ==> tid == price.token_id)
    &&& subvention <= u64::MAX
    &&& pvf <= u64::MAX
    &&& chft <= u64::MAX
    &&& tid <= crate::token::SPL_TOKEN_COUNT
    &&& chft + pvf + network <= u64::MAX
    &&& chft + pvf + network >= subvention
    &&& chft + pvf + network - subvention == js.fee
    &&& spec_token_authority_ok(pool_registry.accounts@, pool_account.key@, tid)
    &&& spec_token_authority_ok(fee_collector_registry.accounts@, fee_collector_account.key@, tid)
    &&& (associated_send ==> rent_token <= u64::MAX && js.amount >= rent_token)
    &&& fee_payer_token_account.token_id == tid
    &&& upfront <= u64::MAX
    &&& fee_payer.lamports >= upfront
    &&& pool_account.token_id == tid
    &&& fee_collector_account.token_id == tid
    &&& fee_collector_account.amount >= subvention
}

pub fn init_verification_transfer_fee(
    fee_payer: &mut ChainAccount,
    fee_payer_token_account: &TokenAccount,
    pool: &mut ChainAccount,
    pool_account: &mut TokenAccount,
    fee_collector_account: &mut TokenAccount,
    pool_registry: &PoolAccount,
    fee_collector_registry: &FeeCollectorAccount,
    price: &TokenPrice,
    governor: &GovernorAccount,
    verification_account: &mut VerificationAccount,
    spl_token_account_rent: u64,
) -> (r: Result<(), ElusivError>)
    requires
        old(verification_account).wf(),
        spec_governor_wf(governor),
        price.wf(),
        old(fee_payer).lamports + old(pool).lamports <= u64::MAX,
        old(fee_collector_account).amount + old(pool_account).amount <= u64::MAX,
    ensures
        final(verification_account).wf(),
        verification_step(old(verification_account), final(verification_account)),
        final(fee_payer).lamports + final(pool).lamports == old(fee_payer).lamports + old(
            pool,
        ).lamports,
        final(fee_collector_account).amount + final(pool_account).amount == old(
            fee_collector_account,
        ).amount + old(pool_account).amount,
        r is Ok <==> spec_transfer_fee_accepted(
            old(fee_payer),
            fee_payer_token_account,
            old(pool_account),
            old(fee_collector_account),
            pool_registry,
            fee_collector_registry,
            price,
            governor,
            old(verification_account),
            spl_token_account_rent,
        ),
        old(verification_account).state != VerificationState::Empty ==> r == Err::<
            (),
            ElusivError,
        >(ElusivError::InvalidAccountState),
        (old(verification_account).state == VerificationState::Empty && old(
            verification_account,
        ).other_data.fee_payer@ != old(fee_payer).key@) ==> r == Err::<(), ElusivError>(
            ElusivError::InvalidAccount,
        ),
        (old(verification_account).state == VerificationState::Empty && old(
            verification_account,
        ).other_data.fee_payer@ == old(fee_payer).key@ && old(
            verification_account,
        ).request.spec_join_split().fee_version != governor.fee_version) ==> r == Err::<
            (),
            ElusivError,
        >(ElusivError::InvalidFeeVersion),
        ({
            let js = old(verification_account).request.spec_join_split();
            let tid = js.token_id;
            let count = old(verification_account).prepare_inputs_instructions_count;
            let subvention = price.spec_into_token(tid, governor.program_fee.proof_subvention.0);
            let pvf = price.spec_into_token(
                tid,
                spec_proof_verification_lamports(governor, count as int) as u64,
            );
            let chft = price.spec_into_token(tid, spec_commitment_hash_fee(governor) as u64);
            let network = spec_network_fee(governor, js.amount);
            &&& old(verification_account).state == VerificationState::Empty
            &&& old(verification_account).other_data.fee_payer@ == old(fee_payer).key@
            &&& js.fee_version == governor.fee_version
            &&& count <= 10000
            &&& (tid != 0 ==> tid == price.token_id)
            &&& subvention <= u64::MAX
            &&& pvf <= u64::MAX
            &&& chft <= u64::MAX
            &&& tid <= crate::token::SPL_TOKEN_COUNT
            &&& chft + pvf + network <= u64::MAX
            &&& chft + pvf + network >= subvention
            &&& chft + pvf + network - subvention != js.fee
        }) ==> r == Err::<(), ElusivError>(ElusivError::InvalidPublicInputs),
        ({
            let js = old(verification_account).request.spec_join_split();
            let tid = js.token_id;
            let rent_token = price.spec_into_token(tid, spl_token_account_rent);
            &&& spec_transfer_fee_accepted(
                old(fee_payer),
                fee_payer_token_account,
                old(pool_account),
                old(fee_collector_account),
                pool_registry,
                fee_collector_registry,
                price,
                governor,
                old(verification_account),
                0,
            )
            &&& spec_is_associated_send(&old(verification_account).request)
            &&& rent_token <= u64::MAX
            &&& js.amount < rent_token
        }) ==> r == Err::<(), ElusivError>(ElusivError::InvalidPublicInputs),
        match r {
            Ok(()) => {
                &&& old(verification_account).state == VerificationState::Empty
                &&& old(verification_account).other_data.fee_payer@ == old(fee_payer).key@
                &&& old(verification_account).request.spec_join_split().fee_version
                    == governor.fee_version
                &&& final(verification_account).state == VerificationState::FeeTransferred
                &&& {
                    let d = final(verification_account).other_data;
                    let js = old(verification_account).request.spec_join_split();
                    let count = old(verification_account).prepare_inputs_instructions_count;
                    &&& d.commitment_hash_fee_token + d.proof_verification_fee + d.network_fee
                        - d.subvention == js.fee
                    &&& d.subvention == price.spec_into_token(
                        js.token_id,
                        governor.program_fee.proof_subvention.0,
                    )
                    &&& d.commitment_hash_fee == spec_commitment_hash_fee(governor)
                    &&& d.commitment_hash_fee_token == price.spec_into_token(
                        js.token_id,
                        spec_commitment_hash_fee(governor) as u64,
                    )
                    &&& d.proof_verification_fee == price.spec_into_token(
                        js.token_id,
                        spec_proof_verification_lamports(governor, count as int) as u64,
                    )
                    &&& d.network_fee == spec_network_fee(governor, js.amount)
                    &&& d.associated_token_account_rent == (
                    if spec_is_associated_send(&old(verification_account).request) {
                        price.spec_into_token(js.token_id, spl_token_account_rent)
                    } else {
                        0int
                    })
                    &&& d.fee_payer@ == old(verification_account).other_data.fee_payer@
                    &&& d.fee_payer_account@ == fee_payer_token_account.key@
                    &&& d.skip_nullifier_pda == old(
                        verification_account,
                    ).other_data.skip_nullifier_pda
                    &&& d.min_batching_rate == governor.commitment_batching_rate
                    &&& d.token_id == old(verification_account).request.spec_join_split().token_id
                    &&& final(pool).lamports == old(pool).lamports + d.commitment_hash_fee + (
                    if old(verification_account).request matches ProofRequest::Send(p)
                        && !p.recipient.is_non_associated_token_account {
                        spl_token_account_rent as int
                    } else {
                        0int
                    })
                    &&& final(pool_account).amount == old(pool_account).amount + d.subvention
                }
                &&& final(verification_account).request == old(verification_account).request
            },
            Err(_) => {
                &&& *final(fee_payer) == *old(fee_payer)
                &&& *final(pool) == *old(pool)
                &&& *final(pool_account) == *old(pool_account)
                &&& *final(fee_collector_account) == *old(fee_collector_account)
                &&& *final(verification_account) == *old(verification_account)
            },
        },
{
    if !matches!(verification_account.get_state(), VerificationState::Empty) {
        return Err(ElusivError::InvalidAccountState);
    }
    let other_data = verification_account.get_other_data();
    if !u256_eq(&other_data.fee_payer.skip_mr(), &fee_payer.key) {
        return Err(ElusivError::InvalidAccount);
    }

    let request = verification_account.get_request();
    let join_split = request.join_split_inputs();
    let token_id = join_split.token_id;
    let amount = join_split.amount;
    let committed_fee = join_split.fee;
    let fee_version = join_split.fee_version;
    let is_send_to_associated: bool = match request {
        ProofRequest::Send(p) => !p.recipient.is_non_associated_token_account,
        _ => false,
    };

    if fee_version != governor.get_fee_version() {
        return Err(ElusivError::InvalidFeeVersion);
    }
    let min_batching_rate = governor.get_commitment_batching_rate();
    let fee = governor.get_program_fee();
    let subvention = match price.lamports_into_token(fee.proof_subvention, token_id) {
        Ok(v) => v,
        Err(e) => {
            return Err(e);
        },
    };
    let input_preparation_tx_count =
        verification_account.get_prepare_inputs_instructions_count();
    if input_preparation_tx_count > 10000 {
        return Err(ElusivError::InvalidInstructionData);
    }
    let proof_verification_fee = match price.lamports_into_token(
        fee.proof_verification_computation_fee(input_preparation_tx_count as usize),
        token_id,
    ) {
        Ok(v) => v,
        Err(e) => {
            return Err(e);
        },
    };
    let commitment_hash_fee = fee.commitment_hash_computation_fee(min_batching_rate);
    let commitment_hash_fee_token = match price.lamports_into_token(
        commitment_hash_fee,
        token_id,
    ) {
        Ok(v) => v,
        Err(e) => {
            return Err(e);
        },
    };
    let network_fee = match Token::new_checked(token_id, fee.proof_network_fee.calc(amount)) {
        Ok(v) => v,
        Err(e) => {
            return Err(e);
        },
    };

    let sum1 = match commitment_hash_fee_token.try_add(proof_verification_fee) {
        Ok(v) => v,
        Err(e) => {
            return Err(e);
        },
    };
    let sum2 = match sum1.try_add(network_fee) {
        Ok(v) => v,
        Err(e) => {
            return Err(e);
        },
    };
    let computed_fee = match sum2.try_sub(subvention) {
        Ok(v) => v,
        Err(e) => {
            return Err(e);
        },
    };
    if computed_fee.amount() != committed_fee {
        return Err(ElusivError::InvalidPublicInputs);
    }

    match verify_pool(pool_registry, &pool_account.key, token_id) {
        Ok(()) => {},
        Err(e) => {
            return Err(e);
        },
    }
    match verify_fee_collector(fee_collector_registry, &fee_collector_account.key, token_id) {
        Ok(()) => {},
        Err(e) => {
            return Err(e);
        },
    }

    let mut associated_token_account_rent: u64 = 0;
    let mut associated_token_account_rent_token: u64 = 0;
    if is_send_to_associated {
        associated_token_account_rent = spl_token_account_rent;
        let rent_token = match price.lamports_into_token(
            Lamports(associated_token_account_rent),
            token_id,
        ) {
            Ok(v) => v,
            Err(e) => {
                return Err(e);
            },
        };
        associated_token_account_rent_token = rent_token.amount();
        if amount < associated_token_account_rent_token {
            return Err(ElusivError::InvalidPublicInputs);
        }
    }

    match verify_token_account(fee_payer_token_account, token_id) {
        Ok(true) => {},
        _ => {
            return Err(ElusivError::InvalidAccount);
        },
    }

    // Pre-check both transfers, then move the value.
    let upfront = match Lamports(commitment_hash_fee.0).try_add(
        Lamports(associated_token_account_rent),
    ) {
        Ok(v) => v,
        Err(e) => {
            return Err(e);
        },
    };
    if fee_payer.lamports < upfront.0 {
        return Err(ElusivError::InsufficientFunds);
    }
    if fee_collector_account.token_id != token_id || pool_account.token_id != token_id {
        return Err(ElusivError::InvalidAccount);
    }
    if fee_collector_account.amount < subvention.amount() {
        return Err(ElusivError::InsufficientFunds);
    }

    // `fee_payer` pays the commitment-hash fee (and a possible account
    // rent) into the pool, in lamports.
    match transfer_lamports(fee_payer, pool, upfront.0) {
        Ok(()) => {},
        Err(_) => {
            assert(false);
        },
    }
    // The fee collector pays the subvention into the pool, in tokens.
    match transfer_token_amount(
        fee_collector_account,
        pool_account,
        Token::new(token_id, subvention.amount()),
    ) {
        Ok(()) => {},
        Err(_) => {
            assert(false);
        },
    }

    verification_account.set_other_data(
        &VerificationAccountData {
            fee_payer: other_data.fee_payer,
            fee_payer_account: RawU256::new(fee_payer_token_account.key),
            skip_nullifier_pda: other_data.skip_nullifier_pda,
            min_batching_rate,
            token_id,
            subvention: subvention.amount(),
            network_fee: network_fee.amount(),
            commitment_hash_fee: commitment_hash_fee.0,
            commitment_hash_fee_token: commitment_hash_fee_token.amount(),
            proof_verification_fee: proof_verification_fee.amount(),
            associated_token_account_rent: associated_token_account_rent_token,
        },
    );
    verification_account.set_state(&VerificationState::FeeTransferred);
    Ok(())
}

/// Applies the computation's outcome: a rejected proof moves directly to
/// `Finalized`; an accepted send or merge is validated against the
/// identifier and salt accounts and the submitted finalization estimate,
/// then moves to `InsertNullifiers`.
/// Whether the identifier and salt accounts are the ones the request names;
/// a migrate request names none.
pub open spec fn spec_send_identity_ok(
    request: &ProofRequest,
    identifier_key: Seq<u8>,
    salt_key: Seq<u8>,
) -> bool {
    match request {
        ProofRequest::Send(p) => identifier_key == p.identifier@ && salt_key == p.salt@,
        ProofRequest::Merge(p) => identifier_key == p.identifier@ && salt_key == p.salt@,
        ProofRequest::Migrate(_) => false,
    }
}

/// Whether the submitted finalization estimate equals the one this storage
/// and queue state yields for the request.
pub open spec fn spec_send_estimate_ok(
    request: &ProofRequest,
    storage: &StorageAccount,
    queue: &CommitmentQueueAccount,
    data: FinalizeSendData,
) -> bool {
    let js = request.spec_join_split();
    let pending = storage.next_commitment + queue.view().len();
    &&& (match request {
        ProofRequest::Send(p) => data.timestamp == p.current_time,
        ProofRequest::Merge(p) => data.timestamp == p.current_time,
        ProofRequest::Migrate(_) => false,
    })
    &&& data.total_amount == js.amount + js.fee
    &&& data.token_id == js.token_id
    &&& data.commitment_index == pending as int % MT_COMMITMENT_COUNT as int
    &&& data.mt_index == storage.trees_count + pending as int / MT_COMMITMENT_COUNT as int
}

pub fn finalize_verification_send(
    identifier_key: &U256,
    salt_key: &U256,
    commitment_hash_queue: &CommitmentQueueAccount,
    verification_account: &mut VerificationAccount,
    storage_account: &StorageAccount,
    data: FinalizeSendData,
) -> (r: Result<(), ElusivError>)
    requires
        old(verification_account).wf(),
        spec_request_in_range(old(verification_account)),
        storage_account.wf(),
        commitment_hash_queue.wf(),
        storage_account.trees_count < u32::MAX,
    ensures
        final(verification_account).wf(),
        verification_step(old(verification_account), final(verification_account)),
        old(verification_account).state != VerificationState::ProofSetup ==> (r == Err::<
            (),
            ElusivError,
        >(ElusivError::InvalidAccountState) && *final(verification_account) == *old(
            verification_account,
        )),
        (old(verification_account).state == VerificationState::ProofSetup && old(
            verification_account,
        ).is_verified is None) ==> (r == Err::<(), ElusivError>(
            ElusivError::ComputationIsNotYetFinished,
        ) && *final(verification_account) == *old(verification_account)),
        (old(verification_account).state == VerificationState::ProofSetup && old(
            verification_account,
        ).is_verified == Some(false)) ==> (r is Ok && *final(verification_account)
            == (VerificationAccount {
            state: VerificationState::Finalized,
            ..*old(verification_account)
        })),
        (old(verification_account).state == VerificationState::ProofSetup && old(
            verification_account,
        ).is_verified == Some(true)) ==> {
            let request = &old(verification_account).request;
            let identity_ok = spec_send_identity_ok(request, identifier_key@, salt_key@);
            let estimate_ok = spec_send_estimate_ok(
                request,
                storage_account,
                commitment_hash_queue,
                data,
            );
            &&& (request matches ProofRequest::Migrate(_) ==> r == Err::<(), ElusivError>(
                ElusivError::FeatureNotAvailable,
            ))
            &&& (!(request matches ProofRequest::Migrate(_)) && !identity_ok ==> r == Err::<
                (),
                ElusivError,
            >(ElusivError::InvalidAccount))
            &&& (identity_ok && !estimate_ok ==> r == Err::<(), ElusivError>(
                ElusivError::InvalidInstructionData,
            ))
            &&& ((identity_ok && estimate_ok) <==> r is Ok)
            &&& (r is Ok ==> *final(verification_account) == (VerificationAccount {
                state: VerificationState::InsertNullifiers,
                ..*old(verification_account)
            }))
        },
        r is Err ==> *final(verification_account) == *old(verification_account),
{
    if !matches!(verification_account.get_state(), VerificationState::ProofSetup) {
        return Err(ElusivError::InvalidAccountState);
    }
    match verification_account.get_is_verified() {
        None => {
            return Err(ElusivError::ComputationIsNotYetFinished);
        },
        Some(false) => {
            verification_account.set_state(&VerificationState::Finalized);
            return Ok(());
        },
        Some(true) => {},
    }

    let request = verification_account.get_request();
    let (identifier, salt, current_time, total_amount, token_id) = match request {
        ProofRequest::Send(p) => (
            p.identifier,
            p.salt,
            p.current_time,
            p.join_split.total_amount(),
            p.join_split.token_id,
        ),
        ProofRequest::Merge(p) => (
            p.identifier,
            p.salt,
            p.current_time,
            p.join_split.total_amount(),
            p.join_split.token_id,
        ),
        ProofRequest::Migrate(_) => {
            return Err(ElusivError::FeatureNotAvailable);
        },
    };

    if !u256_eq(identifier_key, &identifier.skip_mr()) {
        return Err(ElusivError::InvalidAccount);
    }
    if !u256_eq(salt_key, &salt.skip_mr()) {
        return Err(ElusivError::InvalidAccount);
    }

    let (commitment_index, mt_index) = minimum_commitment_mt_index(
        storage_account.get_trees_count(),
        storage_account.get_next_commitment_ptr(),
        commitment_hash_queue.len(),
    );
    if data.timestamp != current_time {
        return Err(ElusivError::InvalidInstructionData);
    }
    if data.total_amount != total_amount {
        return Err(ElusivError::InvalidInstructionData);
    }
    if data.token_id != token_id {
        return Err(ElusivError::InvalidInstructionData);
    }
    if data.commitment_index != commitment_index {
        return Err(ElusivError::InvalidInstructionData);
    }
    if data.mt_index != mt_index {
        return Err(ElusivError::InvalidInstructionData);
    }

    verification_account.set_state(&VerificationState::InsertNullifiers);
    Ok(())
}

/// Whether every nullifier hash of the request can be inserted into its
/// tree slot: the arity is consistent, at most two slots open, no hash is
/// already spent in its slot's set, and equal canonical hashes never share
/// a slot.
pub open spec fn spec_nullifiers_insertable(
    request: &ProofRequest,
    n0: &NullifierAccount,
    n1: &NullifierAccount,
) -> bool {
    let roots = request.spec_join_split().roots@;
    let hashes = request.spec_join_split().nullifier_hashes@;
    &&& !(request matches ProofRequest::Migrate(_))
    &&& hashes.len() == roots.len()
    &&& spec_some_count(roots, roots.len() as int) <= MAX_MT_COUNT
    &&& forall|i: int|
        0 <= i < hashes.len() ==> !nullifier_contains(
            spec_slot_account(n0, n1, spec_slot(roots, i)),
            reduce_of(#[trigger] hashes[i]@),
        )
    &&& forall|i: int, j: int|
        0 <= i < j < hashes.len() && spec_slot(roots, i) == spec_slot(roots, j) ==> reduce_of(
            #[trigger] hashes[i]@,
        ) != reduce_of(#[trigger] hashes[j]@)
}

/// Inserts the request's nullifier hashes into their tree slots, walking
/// the roots left to right; a present root advances the slot. The call
/// succeeds exactly when every hash is insertable into its slot, and any
/// failing insert is fatal. Afterwards every hash of the request is
/// recorded in its slot's set, and both sets only grew.
pub fn finalize_verification_send_nullifiers(
    verification_account: &mut VerificationAccount,
    nullifier_account0: &mut NullifierAccount,
    nullifier_account1: &mut NullifierAccount,
) -> (r: Result<(), ElusivError>)
    requires
        old(verification_account).wf(),
    ensures
        final(verification_account).wf(),
        verification_step(old(verification_account), final(verification_account)),
        final(nullifier_account0).key == old(nullifier_account0).key,
        final(nullifier_account0).root == old(nullifier_account0).root,
        final(nullifier_account1).key == old(nullifier_account1).key,
        final(nullifier_account1).root == old(nullifier_account1).root,
        nullifier_set_extended(old(nullifier_account0), final(nullifier_account0)),
        nullifier_set_extended(old(nullifier_account1), final(nullifier_account1)),
        old(verification_account).state != VerificationState::InsertNullifiers ==> (r == Err::<
            (),
            ElusivError,
        >(ElusivError::InvalidAccountState) && *final(verification_account) == *old(
            verification_account,
        ) && *final(nullifier_account0) == *old(nullifier_account0) && *final(nullifier_account1)
            == *old(nullifier_account1)),
        old(verification_account).state == VerificationState::InsertNullifiers ==> {
            let request = &old(verification_account).request;
            &&& (r is Ok <==> spec_nullifiers_insertable(
                request,
                old(nullifier_account0),
                old(nullifier_account1),
            ))
            &&& (request matches ProofRequest::Migrate(_) ==> r == Err::<(), ElusivError>(
                ElusivError::FeatureNotAvailable,
            ))
            &&& (r is Err ==> (r == Err::<(), ElusivError>(ElusivError::FeatureNotAvailable) || r
                == Err::<(), ElusivError>(ElusivError::InvalidPublicInputs) || r == Err::<
                (),
                ElusivError,
            >(ElusivError::CouldNotInsertNullifier)))
        },
        r is Err ==> *final(verification_account) == *old(verification_account),
        r is Ok ==> {
            let hashes = old(verification_account).request.spec_join_split().nullifier_hashes@;
            let roots = old(verification_account).request.spec_join_split().roots@;
            &&& final(verification_account).state == VerificationState::Finalized
            &&& forall|i: int|
                0 <= i < hashes.len() ==> nullifier_contains(
                    spec_slot_account(
                        final(nullifier_account0),
                        final(nullifier_account1),
                        spec_slot(roots, i),
                    ),
                    reduce_of(#[trigger] hashes[i]@),
                )
        },
{
    if !matches!(verification_account.get_state(), VerificationState::InsertNullifiers) {
        return Err(ElusivError::InvalidAccountState);
    }
    let request = verification_account.get_request();
    let is_migrate = matches!(request, ProofRequest::Migrate(_));
    if is_migrate {
        return Err(ElusivError::FeatureNotAvailable);
    }
    let join_split = request.join_split_inputs();
    let roots_len = join_split.roots.len();
    if join_split.nullifier_hashes.len() != roots_len {
        return Err(ElusivError::InvalidPublicInputs);
    }

    let ghost old_len0 = old(nullifier_account0).nullifier_hashes@.len() as int;
    let ghost old_len1 = old(nullifier_account1).nullifier_hashes@.len() as int;
    // The indices of the request's hashes appended to each set so far.
    let ghost mut origins0: Seq<int> = Seq::empty();
    let ghost mut origins1: Seq<int> = Seq::empty();
    let mut tree_index: usize = 0;
    let mut i: usize = 0;
    while i < roots_len
        invariant
            i <= roots_len,
            verification_account.wf(),
            *verification_account == *old(verification_account),
            old(verification_account).state == VerificationState::InsertNullifiers,
            roots_len == join_split.roots@.len(),
            roots_len == join_split.nullifier_hashes@.len(),
            *join_split == old(verification_account).request.spec_join_split(),
            !(old(verification_account).request matches ProofRequest::Migrate(_)),
            tree_index == spec_some_count(join_split.roots@, i as int),
            tree_index <= MAX_MT_COUNT,
            old_len0 == old(nullifier_account0).nullifier_hashes@.len() as int,
            old_len1 == old(nullifier_account1).nullifier_hashes@.len() as int,
            nullifier_account0.key == old(nullifier_account0).key,
            nullifier_account0.root == old(nullifier_account0).root,
            nullifier_account1.key == old(nullifier_account1).key,
            nullifier_account1.root == old(nullifier_account1).root,
            nullifier_set_extended(old(nullifier_account0), nullifier_account0),
            nullifier_set_extended(old(nullifier_account1), nullifier_account1),
            nullifier_account0.nullifier_hashes@.len() == old_len0 + origins0.len(),
            nullifier_account1.nullifier_hashes@.len() == old_len1 + origins1.len(),
            forall|t: int|
                0 <= t < origins0.len() ==> {
                    &&& 0 <= #[trigger] origins0[t] < i
                    &&& spec_slot(join_split.roots@, origins0[t]) == 0
                    &&& nullifier_account0.nullifier_hashes@[old_len0 + t]@ == reduce_of(
                        join_split.nullifier_hashes@[origins0[t]]@,
                    )
                },
            forall|t: int|
                0 <= t < origins1.len() ==> {
                    &&& 0 <= #[trigger] origins1[t] < i
                    &&& spec_slot(join_split.roots@, origins1[t]) == 1
                    &&& nullifier_account1.nullifier_hashes@[old_len1 + t]@ == reduce_of(
                        join_split.nullifier_hashes@[origins1[t]]@,
                    )
                },
            forall|m: int| 0 <= m < i ==> 0 <= #[trigger] spec_slot(join_split.roots@, m) <= 1,
            forall|k: int|
                0 <= k < i ==> nullifier_contains(
                    spec_slot_account(
                        nullifier_account0,
                        nullifier_account1,
                        spec_slot(join_split.roots@, k),
                    ),
                    reduce_of(#[trigger] join_split.nullifier_hashes@[k]@),
                ),
            forall|m: int|
                0 <= m < i ==> !nullifier_contains(
                    spec_slot_account(
                        old(nullifier_account0),
                        old(nullifier_account1),
                        spec_slot(join_split.roots@, m),
                    ),
                    reduce_of(#[trigger] join_split.nullifier_hashes@[m]@),
                ),
            forall|m: int, mm: int|
                0 <= m < mm < i && spec_slot(join_split.roots@, m) == spec_slot(
                    join_split.roots@,
                    mm,
                ) ==> reduce_of(#[trigger] join_split.nullifier_hashes@[m]@) != reduce_of(
                    #[trigger] join_split.nullifier_hashes@[mm]@,
                ),
        decreases roots_len - i,
    {
        let nullifier_hash = join_split.nullifier_hashes[i].reduce();
        let index: usize = match &join_split.roots[i] {
            Some(_) => {
                if tree_index >= MAX_MT_COUNT {
                    proof {
                        lemma_some_count_monotone(
                            join_split.roots@,
                            i as int + 1,
                            roots_len as int,
                        );
                    }
                    return Err(ElusivError::InvalidPublicInputs);
                }
                let t = tree_index;
                tree_index += 1;
                t
            },
            None => 0,
        };
        assert(index == spec_slot(join_split.roots@, i as int));
        let ghost pre0 = *nullifier_account0;
        let ghost pre1 = *nullifier_account1;
        let insert_result = if index == 0 {
            nullifier_account0.try_insert_nullifier_hash(nullifier_hash)
        } else {
            nullifier_account1.try_insert_nullifier_hash(nullifier_hash)
        };
        match insert_result {
            Ok(()) => {
                proof {
                    // Record the appended hash's origin, and carry the
                    // freshness and per-slot distinctness facts forward:
                    // the hash was new to the set it entered, so it was
                    // neither spent originally nor equal to an earlier
                    // hash of the same slot.
                    if index == 0 {
                        origins0 = origins0.push(i as int);
                    } else {
                        origins1 = origins1.push(i as int);
                    }
                    let y = reduce_of(join_split.nullifier_hashes@[i as int]@);
                    if index == 0 {
                        assert(!nullifier_contains(&pre0, y));
                        if nullifier_contains(old(nullifier_account0), y) {
                            let j = choose|j: int|
                                0 <= j < old(nullifier_account0).nullifier_hashes@.len() && old(
                                    nullifier_account0,
                                ).nullifier_hashes@[j]@ == y;
                            assert(pre0.nullifier_hashes@[j]@ == y);
                            assert(false);
                        }
                    } else {
                        assert(!nullifier_contains(&pre1, y));
                        if nullifier_contains(old(nullifier_account1), y) {
                            let j = choose|j: int|
                                0 <= j < old(nullifier_account1).nullifier_hashes@.len() && old(
                                    nullifier_account1,
                                ).nullifier_hashes@[j]@ == y;
                            assert(pre1.nullifier_hashes@[j]@ == y);
                            assert(false);
                        }
                    }
                }
            },
            Err(e) => {
                proof {
                    // The clash is either with the original set or with an
                    // earlier hash of the same slot; both refute
                    // insertability of the request.
                    let y = reduce_of(join_split.nullifier_hashes@[i as int]@);
                    if index == 0 {
                        let j = choose|j: int|
                            0 <= j < pre0.nullifier_hashes@.len()
                                && pre0.nullifier_hashes@[j]@ == y;
                        if j < old_len0 {
                            assert(old(nullifier_account0).nullifier_hashes@[j]@ == y);
                            assert(nullifier_contains(old(nullifier_account0), y));
                        } else {
                            let t = j - old_len0;
                            assert(pre0.nullifier_hashes@[old_len0 + t]@ == reduce_of(
                                join_split.nullifier_hashes@[origins0[t]]@,
                            ));
                        }
                    } else {
                        let j = choose|j: int|
                            0 <= j < pre1.nullifier_hashes@.len()
                                && pre1.nullifier_hashes@[j]@ == y;
                        if j < old_len1 {
                            assert(old(nullifier_account1).nullifier_hashes@[j]@ == y);
                            assert(nullifier_contains(old(nullifier_account1), y));
                        } else {
                            let t = j - old_len1;
                            assert(pre1.nullifier_hashes@[old_len1 + t]@ == reduce_of(
                                join_split.nullifier_hashes@[origins1[t]]@,
                            ));
                        }
                    }
                }
                return Err(e);
            },
        }
        proof {
            // Entries recorded before this step survive the append.
            assert forall|k: int|
                0 <= k < i + 1 implies nullifier_contains(
                spec_slot_account(
                    nullifier_account0,
                    nullifier_account1,
                    spec_slot(join_split.roots@, k),
                ),
                reduce_of(#[trigger] join_split.nullifier_hashes@[k]@),
            ) by {
                if k < i {
                    let y = reduce_of(join_split.nullifier_hashes@[k]@);
                    if spec_slot(join_split.roots@, k) == 0 {
                        let j = choose|j: int|
                            0 <= j < pre0.nullifier_hashes@.len()
                                && pre0.nullifier_hashes@[j]@ == y;
                        assert(nullifier_account0.nullifier_hashes@[j]@ == y);
                    } else {
                        let j = choose|j: int|
                            0 <= j < pre1.nullifier_hashes@.len()
                                && pre1.nullifier_hashes@[j]@ == y;
                        assert(nullifier_account1.nullifier_hashes@[j]@ == y);
                    }
                }
            }
        }
        i += 1;
    }

    verification_account.set_state(&VerificationState::Finalized);
    Ok(())
}

/// Whether the native settlement is admitted: a native finalized record,
/// the guard of exactly this nullifier-hash set, the recorded fee payer,
/// and - per verdict - either a pool able to refund the fee collector, or
/// the named recipient, room in the commitment queue and a pool able to
/// cover the payout.
pub open spec fn spec_transfer_lamports_accepted(
    recipient: &ChainAccount,
    original_fee_payer: &ChainAccount,
    pool: &ChainAccount,
    queue: &CommitmentQueueAccount,
    guard: &NullifierDuplicateAccount,
    verification_account: &VerificationAccount,
) -> bool {
    let d = verification_account.other_data;
    let js = verification_account.request.spec_join_split();
    let rejected = verification_account.is_verified == Some(false);
    let send_amount: int = if verification_account.request matches ProofRequest::Send(_) {
        js.amount as int
    } else {
        0int
    };
    &&& js.token_id == 0
    &&& verification_account.state == VerificationState::Finalized
    &&& spec_guard_matches(guard.seed@, js.nullifier_hashes@)
    &&& original_fee_payer.key@ == d.fee_payer@
    &&& (rejected ==> pool.lamports >= d.subvention + d.commitment_hash_fee)
    &&& (!rejected ==> {
        &&& (verification_account.request matches ProofRequest::Send(p) ==> recipient.key@
            == p.recipient.address@)
        &&& queue.view().len() < crate::queue::COMMITMENT_QUEUE_CAPACITY
        &&& d.commitment_hash_fee_token + d.proof_verification_fee <= u64::MAX
        &&& pool.lamports >= send_amount + d.commitment_hash_fee_token
            + d.proof_verification_fee + d.network_fee
    })
}

/// Settles a native-token verification and closes its transient accounts.
/// A rejected proof concentrates the prepaid fees and the rent in the fee
/// collector and leaves the queue untouched; an accepted one pays the
/// recipient and the fee payer, pays the network fee to the fee collector,
/// enqueues the new commitment and returns the rent to the fee payer.
/// Either way the sum of all balances is unchanged: no value is created or
/// destroyed.
pub fn finalize_verification_transfer_lamports(
    recipient: &mut ChainAccount,
    original_fee_payer: &mut ChainAccount,
    pool: &mut ChainAccount,
    fee_collector: &mut ChainAccount,
    commitment_hash_queue: &mut CommitmentQueueAccount,
    verification_account_info: &mut ChainAccount,
    verification_account: &mut VerificationAccount,
    nullifier_duplicate_account: &mut NullifierDuplicateAccount,
) -> (r: Result<(), ElusivError>)
    requires
        old(verification_account).wf(),
        spec_request_in_range(old(verification_account)),
        old(commitment_hash_queue).wf(),
        old(recipient).lamports + old(original_fee_payer).lamports + old(pool).lamports + old(
            fee_collector,
        ).lamports + old(verification_account_info).lamports + old(
            nullifier_duplicate_account,
        ).lamports <= u64::MAX,
    ensures
        final(verification_account).wf(),
        final(commitment_hash_queue).wf(),
        verification_step(old(verification_account), final(verification_account)),
        final(recipient).key == old(recipient).key,
        final(original_fee_payer).key == old(original_fee_payer).key,
        final(pool).key == old(pool).key,
        final(fee_collector).key == old(fee_collector).key,
        final(verification_account_info).key == old(verification_account_info).key,
        final(nullifier_duplicate_account).seed@ == old(nullifier_duplicate_account).seed@,
        final(recipient).lamports + final(original_fee_payer).lamports + final(pool).lamports
            + final(fee_collector).lamports + final(verification_account_info).lamports + final(nullifier_duplicate_account).lamports == old(recipient).lamports + old(original_fee_payer).lamports + old(
            pool,
        ).lamports + old(fee_collector).lamports + old(verification_account_info).lamports + old(
            nullifier_duplicate_account,
        ).lamports,
        r is Ok <==> spec_transfer_lamports_accepted(
            old(recipient),
            old(original_fee_payer),
            old(pool),
            old(commitment_hash_queue),
            old(nullifier_duplicate_account),
            old(verification_account),
        ),
        (old(verification_account).request.spec_join_split().token_id != 0 || old(
            verification_account,
        ).state != VerificationState::Finalized) ==> r == Err::<(), ElusivError>(
            ElusivError::InvalidAccountState,
        ),
        (old(verification_account).request.spec_join_split().token_id == 0 && old(
            verification_account,
        ).state == VerificationState::Finalized && !spec_guard_matches(
            old(nullifier_duplicate_account).seed@,
            old(verification_account).request.spec_join_split().nullifier_hashes@,
        )) ==> r == Err::<(), ElusivError>(ElusivError::InvalidAccount),
        r is Err ==> {
            &&& *final(recipient) == *old(recipient)
            &&& *final(original_fee_payer) == *old(original_fee_payer)
            &&& *final(pool) == *old(pool)
            &&& *final(fee_collector) == *old(fee_collector)
            &&& *final(verification_account_info) == *old(verification_account_info)
            &&& final(nullifier_duplicate_account).lamports == old(
                nullifier_duplicate_account,
            ).lamports
            &&& *final(verification_account) == *old(verification_account)
            &&& final(commitment_hash_queue).view() == old(commitment_hash_queue).view()
        },
        r is Ok ==> {
            let d = old(verification_account).other_data;
            let js = old(verification_account).request.spec_join_split();
            &&& js.token_id == 0
            &&& old(verification_account).state == VerificationState::Finalized
            &&& final(verification_account).state == VerificationState::Closed
            &&& spec_guard_matches(old(nullifier_duplicate_account).seed@, js.nullifier_hashes@)
            &&& old(original_fee_payer).key@ == d.fee_payer@
            &&& final(verification_account_info).lamports == 0
            &&& (d.skip_nullifier_pda ==> final(nullifier_duplicate_account).lamports == old(
                nullifier_duplicate_account,
            ).lamports)
            &&& (!d.skip_nullifier_pda ==> final(nullifier_duplicate_account).lamports == 0)
        },
        (r is Ok && old(verification_account).is_verified == Some(false)) ==> {
            let d = old(verification_account).other_data;
            &&& final(fee_collector).lamports == old(fee_collector).lamports + old(
                verification_account_info,
            ).lamports + (
            if d.skip_nullifier_pda {
                0int
            } else {
                old(nullifier_duplicate_account).lamports as int
            }) + d.subvention + d.commitment_hash_fee
            &&& final(pool).lamports == old(pool).lamports - d.subvention
                - d.commitment_hash_fee
            &&& *final(recipient) == *old(recipient)
            &&& *final(original_fee_payer) == *old(original_fee_payer)
            &&& final(commitment_hash_queue).view() == old(commitment_hash_queue).view()
        },
        (r is Ok && old(verification_account).is_verified != Some(false)) ==> {
            let d = old(verification_account).other_data;
            let js = old(verification_account).request.spec_join_split();
            let amount = if old(verification_account).request matches ProofRequest::Send(_) {
                js.amount as int
            } else {
                0int
            };
            &&& final(recipient).lamports == old(recipient).lamports + amount
            &&& final(original_fee_payer).lamports == old(original_fee_payer).lamports
                + d.commitment_hash_fee_token + d.proof_verification_fee + old(
                verification_account_info,
            ).lamports + (
            if d.skip_nullifier_pda {
                0int
            } else {
                old(nullifier_duplicate_account).lamports as int
            })
            &&& final(fee_collector).lamports == old(fee_collector).lamports + d.network_fee
            &&& final(pool).lamports == old(pool).lamports - amount
                - d.commitment_hash_fee_token - d.proof_verification_fee - d.network_fee
            &&& final(commitment_hash_queue).view().len() == old(
                commitment_hash_queue,
            ).view().len() + 1
            &&& final(commitment_hash_queue).view().last().commitment@ == reduce_of(
                js.commitment@,
            )
            &&& final(commitment_hash_queue).view().last().fee_version == js.fee_version
            &&& final(commitment_hash_queue).view().last().min_batching_rate
                == d.min_batching_rate
            &&& forall|i: int|
                0 <= i < old(commitment_hash_queue).view().len() ==> final(commitment_hash_queue).view()[i] == old(commitment_hash_queue).view()[i]
        },
{
    let data = verification_account.get_other_data();
    let request = verification_account.get_request();
    let join_split = request.join_split_inputs();
    let token_id = join_split.token_id;
    let amount = join_split.amount;
    let fee_version = join_split.fee_version;
    let commitment = join_split.commitment;
    let is_send = matches!(request, ProofRequest::Send(_));
    let send_recipient_address: U256 = match request {
        ProofRequest::Send(p) => p.recipient.address,
        _ => [0; 32],
    };

    if token_id != 0 {
        return Err(ElusivError::InvalidAccountState);
    }
    if !matches!(verification_account.get_state(), VerificationState::Finalized) {
        return Err(ElusivError::InvalidAccountState);
    }
    if !guard_matches(nullifier_duplicate_account, &join_split.nullifier_hashes) {
        return Err(ElusivError::InvalidAccount);
    }
    if !u256_eq(&original_fee_payer.key, &data.fee_payer.skip_mr()) {
        return Err(ElusivError::InvalidAccount);
    }

    let rejected = matches!(verification_account.get_is_verified(), Some(false));
    if rejected {
        // The rent and the prepaid fees flow to the fee collector.
        let outflow = (data.subvention as u128) + (data.commitment_hash_fee as u128);
        if (pool.lamports as u128) < outflow {
            return Err(ElusivError::InsufficientFunds);
        }
        close_account(fee_collector, verification_account_info);
        if !data.skip_nullifier_pda {
            fee_collector.lamports = fee_collector.lamports + nullifier_duplicate_account.lamports;
            nullifier_duplicate_account.lamports = 0;
        }
        verification_account.set_state(&VerificationState::Closed);
        match transfer_lamports(pool, fee_collector, data.subvention) {
            Ok(()) => {},
            Err(_) => {
                assert(false);
            },
        }
        match transfer_lamports(pool, fee_collector, data.commitment_hash_fee) {
            Ok(()) => {},
            Err(_) => {
                assert(false);
            },
        }
        return Ok(());
    }

    if is_send {
        if !u256_eq(&recipient.key, &send_recipient_address) {
            return Err(ElusivError::InvalidAccount);
        }
    }
    if commitment_hash_queue.len() >= crate::queue::COMMITMENT_QUEUE_CAPACITY as u32 {
        return Err(ElusivError::QueueIsFull);
    }
    let payer_reward = match Lamports(data.commitment_hash_fee_token).try_add(
        Lamports(data.proof_verification_fee),
    ) {
        Ok(v) => v,
        Err(e) => {
            return Err(e);
        },
    };
    let send_amount: u64 = if is_send {
        amount
    } else {
        0
    };
    let outflow = (send_amount as u128) + (payer_reward.0 as u128) + (data.network_fee as u128);
    if (pool.lamports as u128) < outflow {
        return Err(ElusivError::InsufficientFunds);
    }

    // The pool pays the recipient, the fee payer and the fee collector.
    if is_send {
        match transfer_lamports(pool, recipient, send_amount) {
            Ok(()) => {},
            Err(_) => {
                assert(false);
            },
        }
    }
    match transfer_lamports(pool, original_fee_payer, payer_reward.0) {
        Ok(()) => {},
        Err(_) => {
            assert(false);
        },
    }
    match transfer_lamports(pool, fee_collector, data.network_fee) {
        Ok(()) => {},
        Err(_) => {
            assert(false);
        },
    }

    // Close the transient accounts into the fee payer.
    close_account(original_fee_payer, verification_account_info);
    if !data.skip_nullifier_pda {
        original_fee_payer.lamports = original_fee_payer.lamports
            + nullifier_duplicate_account.lamports;
        nullifier_duplicate_account.lamports = 0;
    }

    match commitment_hash_queue.enqueue(
        CommitmentHashRequest {
            commitment: commitment.reduce(),
            fee_version,
            min_batching_rate: data.min_batching_rate,
        },
    ) {
        Ok(()) => {},
        Err(_) => {
            assert(false);
        },
    }

    verification_account.set_state(&VerificationState::Closed);
    Ok(())
}

/// Whether the request is a send to an associated token account.
pub open spec fn spec_is_associated_send(request: &ProofRequest) -> bool {
    request matches ProofRequest::Send(p) && !p.recipient.is_non_associated_token_account
}

/// Whether the request is a send to a non-associated token account.
pub open spec fn spec_is_non_associated_send(request: &ProofRequest) -> bool {
    request matches ProofRequest::Send(p) && p.recipient.is_non_associated_token_account
}

/// Whether the token settlement is admitted: a finalized token record,
/// the guard of exactly this nullifier-hash set, the recorded fee payer
/// and its token account, the registered pool and fee-collector token
/// accounts of that token, and - per verdict - either a pool able to
/// refund the fee collector in tokens and lamports, or a well-formed
/// recipient (named non-associated account, or verified associated account
/// whose reserved rent the amount covers and whose creation the signer can
/// fund), room in the queue and a pool able to cover the token payout and
/// the rent refund.
pub open spec fn spec_transfer_token_accepted(
    signer: &ChainAccount,
    recipient: &TokenAccount,
    recipient_wallet_key: Seq<u8>,
    original_fee_payer: &ChainAccount,
    original_fee_payer_account: &TokenAccount,
    pool: &ChainAccount,
    pool_account: &TokenAccount,
    fee_collector_account: &TokenAccount,
    pool_registry: &PoolAccount,
    fee_collector_registry: &FeeCollectorAccount,
    queue: &CommitmentQueueAccount,
    guard: &NullifierDuplicateAccount,
    verification_account: &VerificationAccount,
    spl_token_account_rent: u64,
) -> bool {
    let d = verification_account.other_data;
    let js = verification_account.request.spec_join_split();
    let tid = js.token_id;
    let rejected = verification_account.is_verified == Some(false);
    let is_send = verification_account.request matches ProofRequest::Send(_);
    let send_amount: int = if is_send {
        js.amount as int
    } else {
        0int
    };
    let associated = spec_is_associated_send(&verification_account.request);
    let rented = associated && recipient.lamports == 0;
    let rent_token: int = if rented {
        d.associated_token_account_rent as int
    } else {
        0int
    };
    &&& tid > 0
    &&& verification_account.state == VerificationState::Finalized
    &&& spec_guard_matches(guard.seed@, js.nullifier_hashes@)
    &&& original_fee_payer.key@ == d.fee_payer@
    &&& original_fee_payer_account.key@ == d.fee_payer_account@
    &&& spec_token_authority_ok(pool_registry.accounts@, pool_account.key@, tid)
    &&& spec_token_authority_ok(fee_collector_registry.accounts@, fee_collector_account.key@, tid)
    &&& (rejected ==> {
        &&& pool_account.token_id == tid
        &&& fee_collector_account.token_id == tid
        &&& pool_account.amount >= d.subvention
        &&& pool.lamports >= d.commitment_hash_fee + spl_token_account_rent
    })
    &&& (!rejected ==> {
        &&& (spec_is_non_associated_send(&verification_account.request) ==> recipient.key@
            == js_send_address(&verification_account.request))
        &&& (associated ==> recipient_wallet_key == js_send_address(
            &verification_account.request,
        ) && recipient.wallet@ == recipient_wallet_key && recipient.token_id == tid)
        &&& (is_send ==> js.amount >= rent_token)
        &&& pool_account.token_id == tid
        &&& original_fee_payer_account.token_id == tid
        &&& fee_collector_account.token_id == tid
        &&& queue.view().len() < crate::queue::COMMITMENT_QUEUE_CAPACITY
        &&& d.commitment_hash_fee_token + d.proof_verification_fee <= u64::MAX
        &&& d.commitment_hash_fee_token + d.proof_verification_fee + rent_token <= u64::MAX
        &&& pool_account.amount >= send_amount + d.commitment_hash_fee_token
            + d.proof_verification_fee + rent_token + d.network_fee
        &&& (associated ==> pool.lamports >= spl_token_account_rent)
        &&& (rented ==> signer.lamports >= spl_token_account_rent)
    })
}

/// The recipient address a send request names.
pub open spec fn js_send_address(request: &ProofRequest) -> Seq<u8> {
    match request {
        ProofRequest::Send(p) => p.recipient.address@,
        ProofRequest::Merge(p) => p.recipient.address@,
        ProofRequest::Migrate(_) => Seq::empty(),
    }
}

/// Settles a token verification and closes its transient accounts. A
/// rejected proof refunds the subvention (tokens) and the reserved
/// lamports to the fee collector. An accepted send pays the recipient in
/// tokens - to the fee collector instead if a non-associated recipient
/// account is malformed; an uncreated associated recipient account is
/// created from the signer's funds, which the pool refunds, while the
/// reserved token rent goes to the fee payer. The fee payer receives its
/// rewards in tokens, the fee collector the network fee, the new
/// commitment enters the queue. No lamports and no tokens are created or
/// destroyed.
pub fn finalize_verification_transfer_token(
    signer: &mut ChainAccount,
    recipient: &mut TokenAccount,
    recipient_wallet_key: &U256,
    original_fee_payer: &mut ChainAccount,
    original_fee_payer_account: &mut TokenAccount,
    pool: &mut ChainAccount,
    pool_account: &mut TokenAccount,
    fee_collector: &mut ChainAccount,
    fee_collector_account: &mut TokenAccount,
    pool_registry: &PoolAccount,
    fee_collector_registry: &FeeCollectorAccount,
    commitment_hash_queue: &mut CommitmentQueueAccount,
    verification_account_info: &mut ChainAccount,
    verification_account: &mut VerificationAccount,
    nullifier_duplicate_account: &mut NullifierDuplicateAccount,
    spl_token_account_rent: u64,
) -> (r: Result<(), ElusivError>)
    requires
        old(verification_account).wf(),
        spec_request_in_range(old(verification_account)),
        old(commitment_hash_queue).wf(),
        old(signer).lamports + old(recipient).lamports + old(original_fee_payer).lamports + old(
            pool,
        ).lamports + old(fee_collector).lamports + old(verification_account_info).lamports + old(
            nullifier_duplicate_account,
        ).lamports <= u64::MAX,
        old(recipient).amount + old(original_fee_payer_account).amount + old(pool_account).amount
            + old(fee_collector_account).amount <= u64::MAX,
    ensures
        final(verification_account).wf(),
        final(commitment_hash_queue).wf(),
        verification_step(old(verification_account), final(verification_account)),
        final(signer).lamports + final(recipient).lamports + final(original_fee_payer).lamports
            + final(pool).lamports + final(fee_collector).lamports + final(verification_account_info).lamports
            + final(nullifier_duplicate_account).lamports == old(signer).lamports + old(
            recipient,
        ).lamports + old(original_fee_payer).lamports + old(pool).lamports + old(
            fee_collector,
        ).lamports + old(verification_account_info).lamports + old(
            nullifier_duplicate_account,
        ).lamports,
        final(recipient).amount + final(original_fee_payer_account).amount + final(pool_account).amount
            + final(fee_collector_account).amount == old(recipient).amount + old(
            original_fee_payer_account,
        ).amount + old(pool_account).amount + old(fee_collector_account).amount,
        r is Ok <==> spec_transfer_token_accepted(
            old(signer),
            old(recipient),
            recipient_wallet_key@,
            old(original_fee_payer),
            old(original_fee_payer_account),
            old(pool),
            old(pool_account),
            old(fee_collector_account),
            pool_registry,
            fee_collector_registry,
            old(commitment_hash_queue),
            old(nullifier_duplicate_account),
            old(verification_account),
            spl_token_account_rent,
        ),
        (old(verification_account).request.spec_join_split().token_id == 0 || old(
            verification_account,
        ).state != VerificationState::Finalized) ==> r == Err::<(), ElusivError>(
            ElusivError::InvalidAccountState,
        ),
        (old(verification_account).request.spec_join_split().token_id > 0 && old(
            verification_account,
        ).state == VerificationState::Finalized && !spec_guard_matches(
            old(nullifier_duplicate_account).seed@,
            old(verification_account).request.spec_join_split().nullifier_hashes@,
        )) ==> r == Err::<(), ElusivError>(ElusivError::InvalidAccount),
        r is Err ==> {
            &&& *final(signer) == *old(signer)
            &&& *final(recipient) == *old(recipient)
            &&& *final(original_fee_payer) == *old(original_fee_payer)
            &&& *final(original_fee_payer_account) == *old(original_fee_payer_account)
            &&& *final(pool) == *old(pool)
            &&& *final(pool_account) == *old(pool_account)
            &&& *final(fee_collector) == *old(fee_collector)
            &&& *final(fee_collector_account) == *old(fee_collector_account)
            &&& *final(verification_account_info) == *old(verification_account_info)
            &&& final(nullifier_duplicate_account).lamports == old(
                nullifier_duplicate_account,
            ).lamports
            &&& *final(verification_account) == *old(verification_account)
            &&& final(commitment_hash_queue).view() == old(commitment_hash_queue).view()
        },
        r is Ok ==> {
            let d = old(verification_account).other_data;
            let js = old(verification_account).request.spec_join_split();
            &&& js.token_id > 0
            &&& old(verification_account).state == VerificationState::Finalized
            &&& final(verification_account).state == VerificationState::Closed
            &&& spec_guard_matches(old(nullifier_duplicate_account).seed@, js.nullifier_hashes@)
            &&& old(original_fee_payer).key@ == d.fee_payer@
            &&& old(original_fee_payer_account).key@ == d.fee_payer_account@
            &&& final(verification_account_info).lamports == 0
            &&& (d.skip_nullifier_pda ==> final(nullifier_duplicate_account).lamports == old(
                nullifier_duplicate_account,
            ).lamports)
            &&& (!d.skip_nullifier_pda ==> final(nullifier_duplicate_account).lamports == 0)
        },
        (r is Ok && old(verification_account).is_verified == Some(false)) ==> {
            let d = old(verification_account).other_data;
            &&& final(fee_collector_account).amount == old(fee_collector_account).amount
                + d.subvention
            &&& final(pool_account).amount == old(pool_account).amount - d.subvention
            &&& final(fee_collector).lamports == old(fee_collector).lamports + old(
                verification_account_info,
            ).lamports + (
            if d.skip_nullifier_pda {
                0int
            } else {
                old(nullifier_duplicate_account).lamports as int
            }) + d.commitment_hash_fee + spl_token_account_rent
            &&& final(pool).lamports == old(pool).lamports - d.commitment_hash_fee
                - spl_token_account_rent
            &&& *final(recipient) == *old(recipient)
            &&& *final(signer) == *old(signer)
            &&& *final(original_fee_payer) == *old(original_fee_payer)
            &&& *final(original_fee_payer_account) == *old(original_fee_payer_account)
            &&& final(commitment_hash_queue).view() == old(commitment_hash_queue).view()
        },
        (r is Ok && old(verification_account).is_verified != Some(false)) ==> {
            let d = old(verification_account).other_data;
            let js = old(verification_account).request.spec_join_split();
            let request = &old(verification_account).request;
            let is_send = request matches ProofRequest::Send(_);
            let rented = spec_is_associated_send(request) && old(recipient).lamports == 0;
            let redirect = spec_is_non_associated_send(request) && old(recipient).token_id
                != js.token_id;
            let rent_token: int = if rented {
                d.associated_token_account_rent as int
            } else {
                0int
            };
            &&& final(original_fee_payer_account).amount == old(original_fee_payer_account).amount
                + d.commitment_hash_fee_token + d.proof_verification_fee + rent_token
            &&& final(recipient).amount == old(recipient).amount + (
            if is_send && !redirect {
                js.amount - rent_token
            } else {
                0int
            })
            &&& final(fee_collector_account).amount == old(fee_collector_account).amount
                + d.network_fee + (
            if redirect {
                js.amount as int
            } else {
                0int
            })
            &&& final(pool_account).amount == old(pool_account).amount - (
            if is_send {
                js.amount as int
            } else {
                0int
            }) - d.commitment_hash_fee_token - d.proof_verification_fee - d.network_fee
            &&& final(recipient).lamports == old(recipient).lamports + (
            if rented {
                spl_token_account_rent as int
            } else {
                0int
            })
            &&& (spec_is_associated_send(request) ==> final(pool).lamports == old(pool).lamports
                - spl_token_account_rent)
            &&& (spec_is_associated_send(request) && !rented
                ==> final(original_fee_payer).lamports
                == old(original_fee_payer).lamports + old(verification_account_info).lamports
                + (
            if d.skip_nullifier_pda {
                0int
            } else {
                old(nullifier_duplicate_account).lamports as int
            }) + spl_token_account_rent)
            &&& *final(signer) == *old(signer)
            &&& final(commitment_hash_queue).view().len() == old(
                commitment_hash_queue,
            ).view().len() + 1
            &&& final(commitment_hash_queue).view().last().commitment@ == reduce_of(
                js.commitment@,
            )
            &&& final(commitment_hash_queue).view().last().fee_version == js.fee_version
            &&& final(commitment_hash_queue).view().last().min_batching_rate
                == d.min_batching_rate
        },
{
    let data = verification_account.get_other_data();
    let request = verification_account.get_request();
    let join_split = request.join_split_inputs();
    let token_id = join_split.token_id;
    let amount = join_split.amount;
    let fee_version = join_split.fee_version;
    let commitment = join_split.commitment;
    let is_send = matches!(request, ProofRequest::Send(_));
    let (send_recipient_address, is_non_ata): (U256, bool) = match request {
        ProofRequest::Send(p) => (p.recipient.address, p.recipient.is_non_associated_token_account),
        _ => ([0; 32], false),
    };

    if token_id == 0 {
        return Err(ElusivError::InvalidAccountState);
    }
    if !matches!(verification_account.get_state(), VerificationState::Finalized) {
        return Err(ElusivError::InvalidAccountState);
    }
    if !guard_matches(nullifier_duplicate_account, &join_split.nullifier_hashes) {
        return Err(ElusivError::InvalidAccount);
    }
    if !u256_eq(&original_fee_payer.key, &data.fee_payer.skip_mr()) {
        return Err(ElusivError::InvalidAccount);
    }
    if !u256_eq(&original_fee_payer_account.key, &data.fee_payer_account.skip_mr()) {
        return Err(ElusivError::InvalidAccount);
    }
    match verify_pool(pool_registry, &pool_account.key, token_id) {
        Ok(()) => {},
        Err(e) => {
            return Err(e);
        },
    }
    match verify_fee_collector(fee_collector_registry, &fee_collector_account.key, token_id) {
        Ok(()) => {},
        Err(e) => {
            return Err(e);
        },
    }

    let rejected = matches!(verification_account.get_is_verified(), Some(false));
    if rejected {
        if pool_account.token_id != token_id || fee_collector_account.token_id != token_id {
            return Err(ElusivError::InvalidAccount);
        }
        if pool_account.amount < data.subvention {
            return Err(ElusivError::InsufficientFunds);
        }
        let lamports_out = (data.commitment_hash_fee as u128) + (spl_token_account_rent as u128);
        if (pool.lamports as u128) < lamports_out {
            return Err(ElusivError::InsufficientFunds);
        }
        close_account(fee_collector, verification_account_info);
        if !data.skip_nullifier_pda {
            fee_collector.lamports = fee_collector.lamports + nullifier_duplicate_account.lamports;
            nullifier_duplicate_account.lamports = 0;
        }
        verification_account.set_state(&VerificationState::Closed);
        match transfer_token_amount(
            pool_account,
            fee_collector_account,
            Token::new(token_id, data.subvention),
        ) {
            Ok(()) => {},
            Err(_) => {
                assert(false);
            },
        }
        match transfer_lamports(
            pool,
            fee_collector,
            data.commitment_hash_fee + spl_token_account_rent,
        ) {
            Ok(()) => {},
            Err(_) => {
                assert(false);
            },
        }
        return Ok(());
    }

    // The accepted path.
    let mut redirect = false;
    let mut rented = false;
    let mut has_rent_refund = false;
    let mut rent_token: u64 = 0;
    if is_send {
        if is_non_ata {
            if !u256_eq(&recipient.key, &send_recipient_address) {
                return Err(ElusivError::InvalidAccount);
            }
            // A malformed recipient token account redirects the funds to
            // the fee collector.
            redirect = recipient.token_id != token_id;
        } else {
            if !u256_eq(recipient_wallet_key, &send_recipient_address) {
                return Err(ElusivError::InvalidAccount);
            }
            let ata_ok = match verify_associated_token_account(
                recipient,
                recipient_wallet_key,
                token_id,
            ) {
                Ok(v) => v,
                Err(_) => false,
            };
            if !ata_ok {
                return Err(ElusivError::InvalidAccount);
            }
            has_rent_refund = true;
            if recipient.lamports == 0 {
                rented = true;
                rent_token = data.associated_token_account_rent;
            }
        }
    }
    if is_send {
        if amount < rent_token {
            return Err(ElusivError::InvalidAmount);
        }
    }
    if pool_account.token_id != token_id || original_fee_payer_account.token_id != token_id
        || fee_collector_account.token_id != token_id {
        return Err(ElusivError::InvalidAccount);
    }
    if commitment_hash_queue.len() >= crate::queue::COMMITMENT_QUEUE_CAPACITY as u32 {
        return Err(ElusivError::QueueIsFull);
    }
    let payer_tokens = match Token::new(token_id, data.commitment_hash_fee_token).try_add(
        Token::new(token_id, data.proof_verification_fee),
    ) {
        Ok(v) => v,
        Err(e) => {
            return Err(e);
        },
    };
    let payer_tokens = match payer_tokens.try_add(Token::new(token_id, rent_token)) {
        Ok(v) => v,
        Err(e) => {
            return Err(e);
        },
    };
    let send_amount: u64 = if is_send {
        amount
    } else {
        0
    };
    let token_out = (send_amount as u128) + ((payer_tokens.amount() - rent_token) as u128)
        + (data.network_fee as u128) + (rent_token as u128);
    if (pool_account.amount as u128) < token_out {
        return Err(ElusivError::InsufficientFunds);
    }
    if has_rent_refund {
        if (pool.lamports as u128) < (spl_token_account_rent as u128) {
            return Err(ElusivError::InsufficientFunds);
        }
    }
    if rented {
        if signer.lamports < spl_token_account_rent {
            return Err(ElusivError::InsufficientFunds);
        }
    }

    // All checks passed: create the recipient account if needed, move the
    // tokens, close the transient accounts, refund the rent, enqueue.
    if rented {
        signer.lamports = signer.lamports - spl_token_account_rent;
        recipient.lamports = recipient.lamports + spl_token_account_rent;
    }
    if is_send {
        let to_recipient = Token::new(token_id, send_amount - rent_token);
        if redirect {
            match transfer_token_amount(pool_account, fee_collector_account, to_recipient) {
                Ok(()) => {},
                Err(_) => {
                    assert(false);
                },
            }
        } else {
            match transfer_token_amount(pool_account, recipient, to_recipient) {
                Ok(()) => {},
                Err(_) => {
                    assert(false);
                },
            }
        }
    }
    match transfer_token_amount(pool_account, original_fee_payer_account, payer_tokens) {
        Ok(()) => {},
        Err(_) => {
            assert(false);
        },
    }
    match transfer_token_amount(
        pool_account,
        fee_collector_account,
        Token::new(token_id, data.network_fee),
    ) {
        Ok(()) => {},
        Err(_) => {
            assert(false);
        },
    }
    close_account(original_fee_payer, verification_account_info);
    if !data.skip_nullifier_pda {
        original_fee_payer.lamports = original_fee_payer.lamports
            + nullifier_duplicate_account.lamports;
        nullifier_duplicate_account.lamports = 0;
    }
    if has_rent_refund {
        if rented {
            match transfer_lamports(pool, signer, spl_token_account_rent) {
                Ok(()) => {},
                Err(_) => {
                    assert(false);
                },
            }
        } else {
            match transfer_lamports(pool, original_fee_payer, spl_token_account_rent) {
                Ok(()) => {},
                Err(_) => {
                    assert(false);
                },
            }
        }
    }
    match commitment_hash_queue.enqueue(
        CommitmentHashRequest {
            commitment: commitment.reduce(),
            fee_version,
            min_batching_rate: data.min_batching_rate,
        },
    ) {
        Ok(()) => {},
        Err(_) => {
            assert(false);
        },
    }
    verification_account.set_state(&VerificationState::Closed);
    Ok(())
}

/// Conservation: every operation of the pipeline preserves the total
/// balance over the accounts it touches - the initialization and the
/// settlement instructions each ensure that the sum of the balances of
/// their accounts is unchanged - so along any completed verification the
/// total at the end equals the total at the start; no value is minted or
/// lost.
pub proof fn lemma_conservation(totals: Seq<int>)
    requires
        forall|i: int| 0 <= i < totals.len() - 1 ==> #[trigger] totals[i] == totals[i + 1],
    ensures
        forall|i: int, j: int|
            #![trigger totals[i], totals[j]]
            0 <= i <= j < totals.len() ==> totals[i] == totals[j],
    decreases totals.len(),
{
    if totals.len() > 1 {
        lemma_conservation(totals.drop_last());
        assert forall|i: int, j: int|
            #![trigger totals[i], totals[j]]
            0 <= i <= j < totals.len() implies totals[i] == totals[j] by {
            if j < totals.len() - 1 {
                assert(totals.drop_last()[i] == totals[i]);
                assert(totals.drop_last()[j] == totals[j]);
            } else if i < j {
                assert(totals[j - 1] == totals[j]);
                if i < j - 1 {
                    assert(totals.drop_last()[i] == totals[i]);
                    assert(totals.drop_last()[j - 1] == totals[j - 1]);
                }
            }
        }
    }
}

} // verus!
