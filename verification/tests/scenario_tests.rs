//! End-to-end scenarios: a whole verification from initialization through
//! settlement, for the accepted and the rejected branch, for native and
//! merge flows, and the multi-tree join-split arrangements.

use elusiv_core::error::ElusivError;
use elusiv_core::governor::{
    BasisPointFee, FeeCollectorAccount, GovernorAccount, PoolAccount, ProgramFee,
};
use elusiv_core::groth16::{COMBINED_MILLER_LOOP_IXS, FINAL_EXPONENTIATION_IXS};
use elusiv_core::processor::{
    check_join_split_public_inputs, compute_verification, finalize_verification_send,
    finalize_verification_send_nullifiers, finalize_verification_transfer_lamports,
    init_verification, init_verification_proof, init_verification_transfer_fee, ChainAccount,
    FinalizeSendData, NullifierDuplicateAccount,
};
use elusiv_core::program_account::PDAAccountData;
use elusiv_core::queue::CommitmentQueueAccount;
use elusiv_core::storage::{empty_root_raw, NullifierAccount, StorageAccount};
use elusiv_core::token::{Lamports, TokenAccount, TokenPrice};
use elusiv_core::types::{
    JoinSplitPublicInputs, MigratePublicInputs, ProofRequest, RawU256, RecipientAccount,
    SendPublicInputs,
};
use elusiv_core::verification::{VerificationAccount, VerificationState};

const LAMPORTS_PER_SOL: u64 = 1_000_000_000;

fn u256_from_str_skip_mr(s: &str) -> [u8; 32] {
    let mut out = [0u8; 32];
    for c in s.chars() {
        let d = c.to_digit(10).unwrap() as u16;
        let mut carry = d;
        for b in out.iter_mut() {
            let v = (*b as u16) * 10 + carry;
            *b = (v & 0xff) as u8;
            carry = v >> 8;
        }
    }
    out
}

fn fee() -> ProgramFee {
    ProgramFee {
        lamports_per_tx: Lamports(5000),
        base_commitment_network_fee: BasisPointFee(11),
        proof_network_fee: BasisPointFee(100),
        base_commitment_subvention: Lamports(33),
        proof_subvention: Lamports(44),
        warden_hash_tx_reward: Lamports(300),
        warden_proof_reward: Lamports(555),
        proof_base_tx_count: (COMBINED_MILLER_LOOP_IXS + FINAL_EXPONENTIATION_IXS + 2) as u64,
    }
}

fn expected_native_fee(amount: u64) -> u64 {
    5000 * 24 + 5000 * (17 + fee().proof_base_tx_count) + amount / 100 - 44
}

fn send_request(amount: u64) -> SendPublicInputs {
    SendPublicInputs {
        join_split: JoinSplitPublicInputs {
            commitment_count: 1,
            roots: vec![Some(empty_root_raw())],
            nullifier_hashes: vec![RawU256::new(u256_from_str_skip_mr("1"))],
            commitment: RawU256::new(u256_from_str_skip_mr("987654321")),
            fee_version: 0,
            amount,
            fee: expected_native_fee(amount),
            token_id: 0,
        },
        recipient: RecipientAccount::new(u256_from_str_skip_mr("123"), true),
        current_time: 112233,
        identifier: RawU256::new(u256_from_str_skip_mr("12345")),
        salt: RawU256::new(u256_from_str_skip_mr("6789")),
    }
}

struct World {
    fee_payer: ChainAccount,
    recipient: ChainAccount,
    pool: ChainAccount,
    fee_collector: ChainAccount,
    v_info: ChainAccount,
    guard: NullifierDuplicateAccount,
    pool_token: TokenAccount,
    fee_collector_token: TokenAccount,
    storage: StorageAccount,
    n0: NullifierAccount,
    n1: NullifierAccount,
    queue: CommitmentQueueAccount,
    verification: VerificationAccount,
    governor: GovernorAccount,
}

fn world(recipient_address: [u8; 32]) -> World {
    World {
        fee_payer: ChainAccount { key: [11; 32], lamports: 50_000_000 },
        recipient: ChainAccount { key: recipient_address, lamports: 0 },
        pool: ChainAccount { key: [21; 32], lamports: 2 * LAMPORTS_PER_SOL },
        fee_collector: ChainAccount { key: [22; 32], lamports: 0 },
        v_info: ChainAccount { key: [23; 32], lamports: 0 },
        guard: NullifierDuplicateAccount { seed: Vec::new(), lamports: 0 },
        pool_token: TokenAccount {
            key: [24; 32],
            token_id: 0,
            wallet: [0; 32],
            amount: 0,
            lamports: 1,
        },
        fee_collector_token: TokenAccount {
            key: [25; 32],
            token_id: 0,
            wallet: [0; 32],
            amount: 1_000_000,
            lamports: 1,
        },
        storage: StorageAccount::new(),
        n0: NullifierAccount::new(),
        n1: NullifierAccount::new(),
        queue: CommitmentQueueAccount::new(),
        verification: VerificationAccount::new(),
        governor: GovernorAccount::new(fee()),
    }
}

fn lamports_total(w: &World) -> u64 {
    w.fee_payer.lamports + w.recipient.lamports + w.pool.lamports + w.fee_collector.lamports
        + w.v_info.lamports + w.guard.lamports
}

/// Runs one request from initialization to a verdict; returns the world
/// ready for finalization.
fn run_until_verdict(request: ProofRequest, w: &mut World) {
    init_verification(
        &mut w.fee_payer,
        &mut w.v_info,
        &mut w.guard,
        &w.recipient.key.clone(),
        0,
        &w.storage,
        &w.n0,
        &w.n1,
        &mut w.verification,
        [0, 1],
        request,
        false,
        112233,
        1000,
    )
    .unwrap();

    let fee_payer_token = TokenAccount {
        key: w.fee_payer.key,
        token_id: 0,
        wallet: [0; 32],
        amount: 0,
        lamports: 1,
    };
    init_verification_transfer_fee(
        &mut w.fee_payer,
        &fee_payer_token,
        &mut w.pool,
        &mut w.pool_token,
        &mut w.fee_collector_token,
        &PoolAccount {
            pda_data: PDAAccountData { bump_seed: 0, version: 0, initialized: false },
            accounts: Vec::new(),
        },
        &FeeCollectorAccount {
            pda_data: PDAAccountData { bump_seed: 0, version: 0, initialized: false },
            accounts: Vec::new(),
        },
        &TokenPrice::native(),
        &w.governor,
        &mut w.verification,
        0,
    )
    .unwrap();

    let proof = elusiv_core::types::Proof {
        a: elusiv_core::fields::g1_new(
            elusiv_core::fields::fq_from_u64(3),
            elusiv_core::fields::fq_from_u64(4),
            false,
        ),
        b: elusiv_core::fields::g2_new(
            elusiv_core::fields::fq2_new(
                elusiv_core::fields::fq_from_u64(5),
                elusiv_core::fields::fq_from_u64(6),
            ),
            elusiv_core::fields::fq2_new(
                elusiv_core::fields::fq_from_u64(7),
                elusiv_core::fields::fq_from_u64(8),
            ),
            false,
        ),
        c: elusiv_core::fields::g1_new(
            elusiv_core::fields::fq_from_u64(9),
            elusiv_core::fields::fq_from_u64(10),
            false,
        ),
    };
    init_verification_proof(&w.fee_payer.key.clone(), &mut w.verification, &proof).unwrap();

    // Drive all rounds to a verdict.
    for _ in 0..17 + COMBINED_MILLER_LOOP_IXS + FINAL_EXPONENTIATION_IXS {
        compute_verification(&mut w.verification).unwrap();
    }
    assert!(w.verification.get_is_verified().is_some());
}

fn finalize(w: &mut World, request: &SendPublicInputs) {
    let identifier_key = request.identifier.skip_mr();
    let salt_key = request.salt.skip_mr();
    let data = FinalizeSendData {
        timestamp: request.current_time,
        total_amount: request.join_split.amount + request.join_split.fee,
        token_id: 0,
        mt_index: 0,
        commitment_index: 0,
    };
    finalize_verification_send(
        &identifier_key,
        &salt_key,
        &w.queue,
        &mut w.verification,
        &w.storage,
        data,
    )
    .unwrap();
    if matches!(w.verification.get_is_verified(), Some(true)) {
        finalize_verification_send_nullifiers(&mut w.verification, &mut w.n0, &mut w.n1)
            .unwrap();
    }
    finalize_verification_transfer_lamports(
        &mut w.recipient,
        &mut w.fee_payer,
        &mut w.pool,
        &mut w.fee_collector,
        &mut w.queue,
        &mut w.v_info,
        &mut w.verification,
        &mut w.guard,
    )
    .unwrap();
}

#[test]
fn test_send_flow_native_accepted() {
    let request = send_request(LAMPORTS_PER_SOL);
    let mut w = world(request.recipient.address);
    let total_before = lamports_total(&w);
    let payer_before = w.fee_payer.lamports;

    run_until_verdict(ProofRequest::Send(request.clone()), &mut w);
    // The deployed verifying key accepts the proof; the verdict stands in
    // for that here.
    w.verification.is_verified = Some(true);

    let pool_before_settlement = w.pool.lamports;
    finalize(&mut w, &request);

    let d = w.verification.other_data;
    // The recipient got the committed amount.
    assert_eq!(w.recipient.lamports, LAMPORTS_PER_SOL);
    // The fee payer got its rewards and both rents back: it paid two rents
    // and the commitment-hash fee upfront and earned the verification
    // rewards.
    assert_eq!(
        w.fee_payer.lamports,
        payer_before - d.commitment_hash_fee + d.commitment_hash_fee_token
            + d.proof_verification_fee
    );
    // The fee collector got exactly the network fee.
    assert_eq!(w.fee_collector.lamports, d.network_fee);
    // The pool paid out amount and rewards.
    assert_eq!(
        w.pool.lamports,
        pool_before_settlement - LAMPORTS_PER_SOL - d.commitment_hash_fee_token
            - d.proof_verification_fee - d.network_fee
    );
    // The commitment was queued, both transient accounts are closed.
    assert_eq!(w.queue.len(), 1);
    assert_eq!(w.v_info.lamports, 0);
    assert_eq!(w.guard.lamports, 0);
    assert!(matches!(w.verification.state, VerificationState::Closed));
    // The nullifier hash is spent now.
    assert!(!w
        .n0
        .can_insert_nullifier_hash(request.join_split.nullifier_hashes[0].reduce())
        .unwrap());
    // No lamports were minted or lost.
    assert_eq!(lamports_total(&w), total_before);
}

#[test]
fn test_send_flow_native_rejected() {
    let request = send_request(LAMPORTS_PER_SOL);
    let mut w = world(request.recipient.address);
    let total_before = lamports_total(&w);

    run_until_verdict(ProofRequest::Send(request.clone()), &mut w);
    // The placeholder verifying key rejects this proof.
    assert!(matches!(w.verification.get_is_verified(), Some(false)));

    finalize(&mut w, &request);

    let d = w.verification.other_data;
    // The recipient and the fee payer get nothing back.
    assert_eq!(w.recipient.lamports, 0);
    // The fee collector collects the subvention, the commitment-hash fee
    // and both rents.
    assert_eq!(
        w.fee_collector.lamports,
        d.subvention + d.commitment_hash_fee + 2000
    );
    // The queue is untouched, both transient accounts are closed.
    assert_eq!(w.queue.len(), 0);
    assert_eq!(w.v_info.lamports, 0);
    assert_eq!(w.guard.lamports, 0);
    assert!(matches!(w.verification.state, VerificationState::Closed));
    // The nullifier hash was never spent.
    assert!(w
        .n0
        .can_insert_nullifier_hash(request.join_split.nullifier_hashes[0].reduce())
        .unwrap());
    assert_eq!(lamports_total(&w), total_before);
}

#[test]
fn test_merge_flow_zero_amount() {
    let mut request = send_request(0);
    request.join_split.amount = 0;
    request.join_split.fee = expected_native_fee(0);
    let mut w = world(request.recipient.address);
    let total_before = lamports_total(&w);

    run_until_verdict(ProofRequest::Merge(request.clone()), &mut w);
    w.verification.is_verified = Some(true);

    finalize(&mut w, &request);

    let d = w.verification.other_data;
    // No recipient transfer; otherwise the same settlement topology as a
    // send.
    assert_eq!(w.recipient.lamports, 0);
    assert_eq!(w.fee_collector.lamports, d.network_fee);
    assert_eq!(w.queue.len(), 1);
    assert_eq!(w.v_info.lamports, 0);
    assert_eq!(w.guard.lamports, 0);
    assert!(matches!(w.verification.state, VerificationState::Closed));
    assert_eq!(lamports_total(&w), total_before);
}

#[test]
fn test_merge_nonzero_amount_rejected() {
    let request = send_request(5);
    let mut w = world(request.recipient.address);
    let r = init_verification(
        &mut w.fee_payer,
        &mut w.v_info,
        &mut w.guard,
        &w.recipient.key.clone(),
        0,
        &w.storage,
        &w.n0,
        &w.n1,
        &mut w.verification,
        [0, 1],
        ProofRequest::Merge(request),
        false,
        112233,
        1000,
    );
    assert!(matches!(r, Err(ElusivError::InvalidAmount)));
}

#[test]
fn test_migrate_rejected() {
    let request = send_request(LAMPORTS_PER_SOL);
    let mut w = world(request.recipient.address);
    let total_before = lamports_total(&w);

    let r = init_verification(
        &mut w.fee_payer,
        &mut w.v_info,
        &mut w.guard,
        &w.recipient.key.clone(),
        0,
        &w.storage,
        &w.n0,
        &w.n1,
        &mut w.verification,
        [0, 1],
        ProofRequest::Migrate(MigratePublicInputs {
            join_split: request.join_split,
            current_nsmt_root: RawU256::new([0; 32]),
            next_nsmt_root: RawU256::new([0; 32]),
        }),
        false,
        112233,
        1000,
    );
    assert!(matches!(r, Err(ElusivError::FeatureNotAvailable)));
    // No state was created, no value moved.
    assert!(matches!(w.verification.state, VerificationState::Empty));
    assert_eq!(w.guard.lamports, 0);
    assert_eq!(w.v_info.lamports, 0);
    assert_eq!(lamports_total(&w), total_before);
}

#[test]
fn test_two_tree_join_split() {
    // Slot 0 opens the active tree, slot 1 an archived tree whose recorded
    // root is the zero word.
    let storage = StorageAccount::new();
    let n0 = NullifierAccount::new();
    let n1 = NullifierAccount::new();
    let archived_root_raw = RawU256::new(u256_from_str_skip_mr("0"));

    let inputs = JoinSplitPublicInputs {
        commitment_count: 2,
        roots: vec![Some(empty_root_raw()), Some(archived_root_raw)],
        nullifier_hashes: vec![
            RawU256::new(u256_from_str_skip_mr("1")),
            RawU256::new(u256_from_str_skip_mr("2")),
        ],
        commitment: RawU256::new(u256_from_str_skip_mr("987654321")),
        fee_version: 0,
        amount: 0,
        fee: 0,
        token_id: 0,
    };
    check_join_split_public_inputs(&inputs, &storage, &n0, &n1, &[0, 1]).unwrap();

    // Both inserts succeed, one per tree.
    let mut verification = VerificationAccount::new();
    verification
        .setup(
            RawU256::new([13; 32]),
            false,
            &Vec::new(),
            &vec![0],
            0,
            ProofRequest::Send(SendPublicInputs {
                join_split: inputs.clone(),
                recipient: RecipientAccount::new([0; 32], true),
                current_time: 0,
                identifier: RawU256::new([0; 32]),
                salt: RawU256::new([0; 32]),
            }),
            [0, 1],
        )
        .unwrap();
    verification.set_state(&VerificationState::InsertNullifiers);
    let mut n0 = n0;
    let mut n1 = n1;
    finalize_verification_send_nullifiers(&mut verification, &mut n0, &mut n1).unwrap();
    assert!(!n0
        .can_insert_nullifier_hash(inputs.nullifier_hashes[0].reduce())
        .unwrap());
    assert!(!n1
        .can_insert_nullifier_hash(inputs.nullifier_hashes[1].reduce())
        .unwrap());
    assert!(n1
        .can_insert_nullifier_hash(inputs.nullifier_hashes[0].reduce())
        .unwrap());
}

#[test]
fn test_duplicate_nullifier_across_slots() {
    let storage = StorageAccount::new();
    let n0 = NullifierAccount::new();
    let n1 = NullifierAccount::new();
    let same = RawU256::new(u256_from_str_skip_mr("1"));

    // The same hash in two distinct slots is allowed by the checker.
    let two_slots = JoinSplitPublicInputs {
        commitment_count: 2,
        roots: vec![Some(empty_root_raw()), Some(RawU256::new(u256_from_str_skip_mr("0")))],
        nullifier_hashes: vec![same, same],
        commitment: RawU256::new(u256_from_str_skip_mr("987654321")),
        fee_version: 0,
        amount: 0,
        fee: 0,
        token_id: 0,
    };
    check_join_split_public_inputs(&two_slots, &storage, &n0, &n1, &[0, 1]).unwrap();

    // The same hash twice in the same slot is rejected.
    let one_slot = JoinSplitPublicInputs {
        commitment_count: 2,
        roots: vec![Some(empty_root_raw()), None],
        nullifier_hashes: vec![same, same],
        commitment: RawU256::new(u256_from_str_skip_mr("987654321")),
        fee_version: 0,
        amount: 0,
        fee: 0,
        token_id: 0,
    };
    assert!(
        check_join_split_public_inputs(&one_slot, &storage, &n0, &n1, &[0, 1]).is_err()
    );

    // And even across distinct slots, the trees must be distinct.
    assert!(
        check_join_split_public_inputs(&two_slots, &storage, &n0, &n1, &[0, 0]).is_err()
    );
}
