use std::str::FromStr;

use elusiv_core::error::ElusivError;
use elusiv_core::fields::{fq2_new, g1_new, g1_xy, g2_new};
use elusiv_core::governor::{
    BasisPointFee, FeeCollectorAccount, GovernorAccount, PoolAccount, ProgramFee,
};
use elusiv_core::groth16::{
    prepare_public_inputs_instructions, COMBINED_MILLER_LOOP_IXS, FINAL_EXPONENTIATION_IXS,
};
use elusiv_core::processor::{
    check_join_split_public_inputs, compute_verification, finalize_verification_send,
    finalize_verification_send_nullifiers, finalize_verification_transfer_lamports,
    finalize_verification_transfer_token, init_verification, init_verification_proof,
    init_verification_transfer_fee, is_timestamp_valid, is_vec_duplicate_free,
    minimum_commitment_mt_index, ChainAccount, FinalizeSendData, NullifierDuplicateAccount,
    ZERO_COMMITMENT_RAW,
};
use elusiv_core::program_account::PDAAccountData;
use elusiv_core::queue::{CommitmentHashRequest, CommitmentQueueAccount, COMMITMENT_QUEUE_CAPACITY};
use elusiv_core::storage::{empty_root_raw, NullifierAccount, StorageAccount, MT_COMMITMENT_COUNT};
use elusiv_core::token::{Lamports, TokenAccount, TokenPrice};
use elusiv_core::types::{
    JoinSplitPublicInputs, MigratePublicInputs, Proof, ProofRequest, RawU256, RecipientAccount,
    SendPublicInputs, JOIN_SPLIT_MAX_N_ARITY,
};
use elusiv_core::verification::{
    VerificationAccount, VerificationAccountData, VerificationState,
};
use elusiv_core::vkey::SendQuadraVKey;

const LAMPORTS_PER_SOL: u64 = 1_000_000_000;
const USDC_TOKEN_ID: u16 = 2;

fn u256_from_str_skip_mr(s: &str) -> [u8; 32] {
    let mut out = [0u8; 32];
    for c in s.chars() {
        let d = c.to_digit(10).unwrap() as u16;
        let mut carry = d;
        for b in out.iter_mut() {
            let v = (*b as u16) * 10 + carry;
            *b = (v & 0xff) as u8;
            carry = v >> 8;
        }
        assert_eq!(carry, 0);
    }
    out
}

fn mutate<T: Clone, F>(v: &T, f: F) -> T
where
    F: Fn(&mut T),
{
    let mut i = v.clone();
    f(&mut i);
    i
}

fn fee() -> ProgramFee {
    ProgramFee {
        lamports_per_tx: Lamports(5000),
        base_commitment_network_fee: BasisPointFee(11),
        proof_network_fee: BasisPointFee(100),
        base_commitment_subvention: Lamports(33),
        proof_subvention: Lamports(44),
        warden_hash_tx_reward: Lamports(300),
        warden_proof_reward: Lamports(555),
        proof_base_tx_count: (COMBINED_MILLER_LOOP_IXS + FINAL_EXPONENTIATION_IXS + 2) as u64,
    }
}

/// The fee the schedule above yields for a native request over `amount`,
/// with 17 input-preparation transactions and batching rate 0.
fn expected_native_fee(amount: u64) -> u64 {
    let commitment_hash_fee = 5000 * 24;
    let proof_verification_fee = 5000 * (17 + fee().proof_base_tx_count);
    let network_fee = amount / 100;
    commitment_hash_fee + proof_verification_fee + network_fee - 44
}

fn send_inputs(token_id: u16, amount: u64, fee: u64) -> SendPublicInputs {
    SendPublicInputs {
        join_split: JoinSplitPublicInputs {
            commitment_count: 1,
            roots: vec![Some(empty_root_raw())],
            nullifier_hashes: vec![RawU256::new(u256_from_str_skip_mr("1"))],
            commitment: RawU256::new(u256_from_str_skip_mr("987654321")),
            fee_version: 0,
            amount,
            fee,
            token_id,
        },
        recipient: RecipientAccount::new(u256_from_str_skip_mr("123"), true),
        current_time: 112233,
        identifier: RawU256::new(u256_from_str_skip_mr("12345")),
        salt: RawU256::new(u256_from_str_skip_mr("6789")),
    }
}

fn test_proof() -> Proof {
    let fq = |s: &str| ark_bn254::Fq::from_str(s).unwrap();
    Proof {
        a: g1_new(
            fq("10026859857882131638516328056627849627085232677511724829502598764489185541935"),
            fq("19685960310506634721912121951341598678325833230508240750559904196809564625591"),
            false,
        ),
        b: g2_new(
            fq2_new(
                fq("857882131638516328056627849627085232677511724829502598764489185541935"),
                fq("685960310506634721912121951341598678325833230508240750559904196809564625591"),
            ),
            fq2_new(
                fq("837064132573119120838379738103457054645361649757131991036638108422638197362"),
                fq("86803555845400161937398579081414146527572885637089779856221229551142844794"),
            ),
            false,
        ),
        c: g1_new(
            fq("21186803555845400161937398579081414146527572885637089779856221229551142844794"),
            fq("85960310506634721912121951341598678325833230508240750559904196809564625591"),
            false,
        ),
    }
}

fn test_public_inputs() -> Vec<[u8; 32]> {
    [
        "7889586699914970744657798935358222218486353295005298675075639741334684257960",
        "9606705614694883961284553030253534686862979817135488577431113592919470999200",
        "7548080684044753634901903467536594261850721059805517798311616241293112471457",
        "7548080684044753634901903467536594261850721059805517798311616241293112471457",
        "7548080684044753634901903467536594261850721059805517798311616241293112471457",
        "17718047633435172913528840327177336488970255844461341542131787100983543190394",
        "17718047633435172913528840327177336488970255844461341542131787100983543190394",
        "0",
        "0",
        "340282366920938463463374607431768211455",
        "340282366920938463463374607431768211455",
        "120000",
        "1657140479",
        "1",
        "2",
        "2827970856290632118729271546490749634442294169342908710567180510922374163316",
        "0",
    ]
    .iter()
    .map(|s| u256_from_str_skip_mr(s))
    .collect()
}

fn matching_guard(inputs: &SendPublicInputs, lamports: u64) -> NullifierDuplicateAccount {
    NullifierDuplicateAccount {
        seed: inputs
            .join_split
            .nullifier_hashes
            .iter()
            .map(|n| n.skip_mr())
            .collect(),
        lamports,
    }
}

#[test]
fn test_is_timestamp_valid() {
    assert!(is_timestamp_valid(0, 1));
    assert!(is_timestamp_valid(32 - 1, 0));

    assert!(!is_timestamp_valid(32, 0));
}

#[test]
fn test_minimum_commitment_mt_index() {
    assert_eq!(minimum_commitment_mt_index(0, 0, 0), (0, 0));
    assert_eq!(minimum_commitment_mt_index(0, 1, 0), (1, 0));
    assert_eq!(minimum_commitment_mt_index(0, 1, 1), (2, 0));

    assert_eq!(
        minimum_commitment_mt_index(0, MT_COMMITMENT_COUNT as u32, 0),
        (0, 1)
    );
    assert_eq!(
        minimum_commitment_mt_index(0, MT_COMMITMENT_COUNT as u32, MT_COMMITMENT_COUNT as u32 + 1),
        (1, 2)
    );
}

#[test]
fn test_is_vec_duplicate_free() {
    assert!(is_vec_duplicate_free(&Vec::new()));
    assert!(is_vec_duplicate_free(&vec![0]));
    assert!(is_vec_duplicate_free(&vec![0, 1, 2]));

    assert!(!is_vec_duplicate_free(&vec![0, 1, 2, 0]));
    assert!(!is_vec_duplicate_free(&vec![0, 1, 0, 2]));
    assert!(!is_vec_duplicate_free(&vec![0, 0]));
}

#[test]
fn test_check_join_split_public_inputs() {
    let storage = StorageAccount::new();
    let n_account = NullifierAccount::new();

    let valid_inputs = JoinSplitPublicInputs {
        commitment_count: 1,
        roots: vec![Some(empty_root_raw())],
        nullifier_hashes: vec![RawU256::new(u256_from_str_skip_mr("1"))],
        commitment: RawU256::new(u256_from_str_skip_mr("1")),
        fee_version: 0,
        amount: 0,
        fee: 123,
        token_id: 0,
    };

    let invalid_public_inputs = [
        // Zero-commitment
        mutate(&valid_inputs, |inputs| {
            inputs.commitment = RawU256::new(ZERO_COMMITMENT_RAW);
        }),
        // Invalid root for active MT
        mutate(&valid_inputs, |inputs| {
            inputs.roots[0] = Some(RawU256::new([0; 32]));
        }),
        // First root is None
        mutate(&valid_inputs, |inputs| {
            inputs.roots[0] = None;
        }),
        // Mismatched nullifier_hashes amount
        mutate(&valid_inputs, |inputs| {
            inputs.commitment_count = 2;
        }),
        // Same nullifier_hash supplied twice for same MT
        mutate(&valid_inputs, |inputs| {
            inputs.commitment_count = 2;
            inputs.nullifier_hashes = vec![
                RawU256::new(u256_from_str_skip_mr("0")),
                RawU256::new(u256_from_str_skip_mr("0")),
            ];
            inputs.roots.push(None);
        }),
        // Invalid root in closed MT
        mutate(&valid_inputs, |inputs| {
            inputs.commitment_count = 2;
            inputs.nullifier_hashes = vec![
                RawU256::new(u256_from_str_skip_mr("0")),
                RawU256::new(u256_from_str_skip_mr("0")),
            ];
            inputs.roots.push(Some(empty_root_raw()));
        }),
    ];

    for public_inputs in invalid_public_inputs {
        assert!(
            check_join_split_public_inputs(&public_inputs, &storage, &n_account, &n_account, &[
                0, 1
            ])
            .is_err()
        );
    }

    // Same MT supplied twice
    assert!(
        check_join_split_public_inputs(
            &mutate(&valid_inputs, |inputs| {
                inputs.commitment_count = 2;
                inputs.nullifier_hashes = vec![
                    RawU256::new(u256_from_str_skip_mr("0")),
                    RawU256::new(u256_from_str_skip_mr("0")),
                ];
                inputs.roots.push(Some(RawU256::new(u256_from_str_skip_mr("0"))));
            }),
            &storage,
            &n_account,
            &n_account,
            &[0, 0]
        )
        .is_err()
    );

    // Success
    check_join_split_public_inputs(&valid_inputs, &storage, &n_account, &n_account, &[0, 1])
        .unwrap();

    // Same nullifier_hash supplied twice for different MT
    check_join_split_public_inputs(
        &mutate(&valid_inputs, |inputs| {
            inputs.commitment_count = 2;
            inputs.nullifier_hashes = vec![
                RawU256::new(u256_from_str_skip_mr("0")),
                RawU256::new(u256_from_str_skip_mr("0")),
            ];
            inputs.roots.push(Some(RawU256::new(u256_from_str_skip_mr("0"))));
        }),
        &storage,
        &n_account,
        &n_account,
        &[0, 1],
    )
    .unwrap();

    // Duplicate nullifier_hash already exists
    let mut used = NullifierAccount::new();
    used.try_insert_nullifier_hash(RawU256::new(u256_from_str_skip_mr("1")).reduce())
        .unwrap();
    assert!(
        check_join_split_public_inputs(&valid_inputs, &storage, &used, &used, &[0, 1]).is_err()
    );
}

#[test]
fn test_init_verification() {
    let storage = StorageAccount::new();
    let n = NullifierAccount::new();
    let mut fee_payer = ChainAccount { key: [11; 32], lamports: 1_000_000 };
    let mut v_info = ChainAccount { key: [12; 32], lamports: 0 };
    let mut verification_account = VerificationAccount::new();

    let inputs = send_inputs(0, LAMPORTS_PER_SOL, 0);
    let recipient_key = inputs.recipient.address;
    let mut guard = NullifierDuplicateAccount { seed: Vec::new(), lamports: 0 };

    // Commitment-count too low
    assert!(init_verification(
        &mut fee_payer,
        &mut v_info,
        &mut guard,
        &recipient_key,
        0,
        &storage,
        &n,
        &n,
        &mut verification_account,
        [0, 1],
        ProofRequest::Send(mutate(&inputs, |v| {
            v.join_split.commitment_count = 0;
        })),
        false,
        112233,
        1000,
    )
    .is_err());

    // Commitment-count too high
    assert!(init_verification(
        &mut fee_payer,
        &mut v_info,
        &mut guard,
        &recipient_key,
        0,
        &storage,
        &n,
        &n,
        &mut verification_account,
        [0, 1],
        ProofRequest::Send(mutate(&inputs, |v| {
            v.join_split.commitment_count = JOIN_SPLIT_MAX_N_ARITY + 1;
        })),
        false,
        112233,
        1000,
    )
    .is_err());

    // Invalid root
    assert!(init_verification(
        &mut fee_payer,
        &mut v_info,
        &mut guard,
        &recipient_key,
        0,
        &storage,
        &n,
        &n,
        &mut verification_account,
        [0, 1],
        ProofRequest::Send(mutate(&inputs, |v| {
            v.join_split.roots[0] = Some(RawU256::new(u256_from_str_skip_mr("1")));
        })),
        false,
        112233,
        1000,
    )
    .is_err());

    // First root is None
    assert!(init_verification(
        &mut fee_payer,
        &mut v_info,
        &mut guard,
        &recipient_key,
        0,
        &storage,
        &n,
        &n,
        &mut verification_account,
        [0, 1],
        ProofRequest::Send(mutate(&inputs, |v| {
            v.join_split.roots[0] = None;
        })),
        false,
        112233,
        1000,
    )
    .is_err());

    // Mismatched tree indices
    assert!(init_verification(
        &mut fee_payer,
        &mut v_info,
        &mut guard,
        &recipient_key,
        0,
        &storage,
        &n,
        &n,
        &mut verification_account,
        [1, 0],
        ProofRequest::Send(inputs.clone()),
        false,
        112233,
        1000,
    )
    .is_err());

    // Zero commitment
    assert!(init_verification(
        &mut fee_payer,
        &mut v_info,
        &mut guard,
        &recipient_key,
        0,
        &storage,
        &n,
        &n,
        &mut verification_account,
        [0, 1],
        ProofRequest::Send(mutate(&inputs, |v| {
            v.join_split.commitment = RawU256::new(ZERO_COMMITMENT_RAW);
        })),
        false,
        112233,
        1000,
    )
    .is_err());

    // Nullifier already exists
    let mut used = NullifierAccount::new();
    used.try_insert_nullifier_hash(inputs.join_split.nullifier_hashes[0].reduce())
        .unwrap();
    assert!(init_verification(
        &mut fee_payer,
        &mut v_info,
        &mut guard,
        &recipient_key,
        0,
        &storage,
        &used,
        &used,
        &mut verification_account,
        [0, 1],
        ProofRequest::Send(inputs.clone()),
        false,
        112233,
        1000,
    )
    .is_err());

    // Invalid (already funded) nullifier_duplicate_account
    let mut funded_guard = NullifierDuplicateAccount { seed: Vec::new(), lamports: 1 };
    assert!(init_verification(
        &mut fee_payer,
        &mut v_info,
        &mut funded_guard,
        &recipient_key,
        0,
        &storage,
        &n,
        &n,
        &mut verification_account,
        [0, 1],
        ProofRequest::Send(inputs.clone()),
        false,
        112233,
        1000,
    )
    .is_err());

    // Migrate always fails
    assert!(matches!(
        init_verification(
            &mut fee_payer,
            &mut v_info,
            &mut guard,
            &recipient_key,
            0,
            &storage,
            &n,
            &n,
            &mut verification_account,
            [0, 1],
            ProofRequest::Migrate(MigratePublicInputs {
                join_split: inputs.join_split.clone(),
                current_nsmt_root: RawU256::new([0; 32]),
                next_nsmt_root: RawU256::new([0; 32]),
            }),
            false,
            112233,
            1000,
        ),
        Err(ElusivError::FeatureNotAvailable)
    ));

    // Success
    let before = fee_payer.lamports;
    init_verification(
        &mut fee_payer,
        &mut v_info,
        &mut guard,
        &recipient_key,
        0,
        &storage,
        &n,
        &n,
        &mut verification_account,
        [0, 1],
        ProofRequest::Send(inputs.clone()),
        false,
        112233,
        1000,
    )
    .unwrap();
    assert_eq!(fee_payer.lamports, before - 2000);
    assert_eq!(v_info.lamports, 1000);
    assert_eq!(guard.lamports, 1000);
    assert_eq!(guard.seed, vec![inputs.join_split.nullifier_hashes[0].skip_mr()]);
    assert!(matches!(verification_account.state, VerificationState::Empty));
    assert_eq!(verification_account.kind, 0);
}

fn governor() -> GovernorAccount {
    GovernorAccount::new(fee())
}

#[test]
fn test_init_verification_transfer_fee_lamports() {
    let mut fee_payer = ChainAccount { key: [7; 32], lamports: 10_000_000 };
    let fee_payer_token = TokenAccount {
        key: [7; 32],
        token_id: 0,
        wallet: [0; 32],
        amount: 0,
        lamports: 1,
    };
    let mut pool = ChainAccount { key: [21; 32], lamports: 0 };
    let mut pool_token = TokenAccount {
        key: [22; 32],
        token_id: 0,
        wallet: [0; 32],
        amount: 0,
        lamports: 1,
    };
    let mut fee_c_token = TokenAccount {
        key: [24; 32],
        token_id: 0,
        wallet: [0; 32],
        amount: 1_000_000,
        lamports: 1,
    };
    let pool_registry = PoolAccount {
        pda_data: PDAAccountData { bump_seed: 0, version: 0, initialized: false },
        accounts: Vec::new(),
    };
    let fee_collector_registry = FeeCollectorAccount {
        pda_data: PDAAccountData { bump_seed: 0, version: 0, initialized: false },
        accounts: Vec::new(),
    };
    let price = TokenPrice::native();
    let mut g = governor();

    let amount = LAMPORTS_PER_SOL;
    let committed = expected_native_fee(amount);
    let inputs = send_inputs(0, amount, committed);

    let mut verification_acc = VerificationAccount::new();
    verification_acc.set_request(ProofRequest::Send(inputs.clone()));
    verification_acc.set_prepare_inputs_instructions_count(&17);
    verification_acc.set_other_data(&VerificationAccountData {
        fee_payer: RawU256::new(fee_payer.key),
        ..Default::default()
    });

    // Invalid fee_payer
    let mut f2 = ChainAccount { key: [8; 32], lamports: 10_000_000 };
    assert!(init_verification_transfer_fee(
        &mut f2,
        &fee_payer_token,
        &mut pool,
        &mut pool_token,
        &mut fee_c_token,
        &pool_registry,
        &fee_collector_registry,
        &price,
        &g,
        &mut verification_acc,
        0,
    )
    .is_err());

    // Invalid verification account state
    verification_acc.set_state(&VerificationState::FeeTransferred);
    assert!(init_verification_transfer_fee(
        &mut fee_payer,
        &fee_payer_token,
        &mut pool,
        &mut pool_token,
        &mut fee_c_token,
        &pool_registry,
        &fee_collector_registry,
        &price,
        &g,
        &mut verification_acc,
        0,
    )
    .is_err());
    verification_acc.set_state(&VerificationState::Empty);

    // Invalid fee_version
    g.set_fee_version(&1);
    assert!(init_verification_transfer_fee(
        &mut fee_payer,
        &fee_payer_token,
        &mut pool,
        &mut pool_token,
        &mut fee_c_token,
        &pool_registry,
        &fee_collector_registry,
        &price,
        &g,
        &mut verification_acc,
        0,
    )
    .is_err());
    g.set_fee_version(&0);

    // Invalid fee
    verification_acc.set_request(ProofRequest::Send(mutate(&inputs, |v| {
        v.join_split.fee += 1;
    })));
    assert!(init_verification_transfer_fee(
        &mut fee_payer,
        &fee_payer_token,
        &mut pool,
        &mut pool_token,
        &mut fee_c_token,
        &pool_registry,
        &fee_collector_registry,
        &price,
        &g,
        &mut verification_acc,
        0,
    )
    .is_err());
    verification_acc.set_request(ProofRequest::Send(inputs.clone()));

    // Success
    init_verification_transfer_fee(
        &mut fee_payer,
        &fee_payer_token,
        &mut pool,
        &mut pool_token,
        &mut fee_c_token,
        &pool_registry,
        &fee_collector_registry,
        &price,
        &g,
        &mut verification_acc,
        0,
    )
    .unwrap();

    assert!(matches!(verification_acc.state, VerificationState::FeeTransferred));
    // The pool received the commitment-hash fee upfront, the fee collector
    // paid the subvention, and the recorded breakdown satisfies the fee
    // equation.
    let d = verification_acc.other_data;
    assert_eq!(pool.lamports, d.commitment_hash_fee);
    assert_eq!(pool_token.amount, d.subvention);
    assert_eq!(d.subvention, 44);
    assert_eq!(
        d.commitment_hash_fee_token + d.proof_verification_fee + d.network_fee - d.subvention,
        committed
    );
}

#[test]
fn test_init_verification_transfer_fee_token() {
    let mut fee_payer = ChainAccount { key: [7; 32], lamports: 10_000_000 };
    let fee_payer_token = TokenAccount {
        key: [9; 32],
        token_id: USDC_TOKEN_ID,
        wallet: [0; 32],
        amount: 0,
        lamports: 1,
    };
    let wrong_token_acc = TokenAccount {
        key: [10; 32],
        token_id: USDC_TOKEN_ID + 1,
        wallet: [0; 32],
        amount: 0,
        lamports: 1,
    };
    let mut pool = ChainAccount { key: [21; 32], lamports: 0 };
    let mut pool_token = TokenAccount {
        key: [22; 32],
        token_id: USDC_TOKEN_ID,
        wallet: [0; 32],
        amount: 0,
        lamports: 1,
    };
    let mut fee_c_token = TokenAccount {
        key: [24; 32],
        token_id: USDC_TOKEN_ID,
        wallet: [0; 32],
        amount: 1_000_000,
        lamports: 1,
    };
    let pool_registry = PoolAccount {
        pda_data: PDAAccountData { bump_seed: 0, version: 0, initialized: false },
        accounts: vec![None, Some(pool_token.key)],
    };
    let fee_collector_registry = FeeCollectorAccount {
        pda_data: PDAAccountData { bump_seed: 0, version: 0, initialized: false },
        accounts: vec![None, Some(fee_c_token.key)],
    };
    // 1 SOL = 39 USD, 1 USDC unit = 1e-6 USD: 39 token units per 1000
    // lamports.
    let price = TokenPrice { token_id: USDC_TOKEN_ID, numerator: 39, denominator: 1000 };
    let g = governor();

    let amount = 1_000_000u64;
    let subvention = 44 * 39 / 1000;
    let proof_verification_fee = 5000 * (17 + fee().proof_base_tx_count) * 39 / 1000;
    let commitment_hash_fee_token = 5000u64 * 24 * 39 / 1000;
    let network_fee = amount * 100 / 10000;
    let committed = commitment_hash_fee_token + proof_verification_fee + network_fee - subvention;
    let inputs = send_inputs(USDC_TOKEN_ID, amount, committed);

    let mut verification_acc = VerificationAccount::new();
    verification_acc.set_request(ProofRequest::Send(inputs.clone()));
    verification_acc.set_prepare_inputs_instructions_count(&17);
    verification_acc.set_other_data(&VerificationAccountData {
        fee_payer: RawU256::new(fee_payer.key),
        ..Default::default()
    });

    // Invalid fee
    verification_acc.set_request(ProofRequest::Send(mutate(&inputs, |v| {
        v.join_split.fee += 1;
    })));
    assert!(init_verification_transfer_fee(
        &mut fee_payer,
        &fee_payer_token,
        &mut pool,
        &mut pool_token,
        &mut fee_c_token,
        &pool_registry,
        &fee_collector_registry,
        &price,
        &g,
        &mut verification_acc,
        0,
    )
    .is_err());
    verification_acc.set_request(ProofRequest::Send(inputs.clone()));

    // Invalid fee_payer_account
    assert!(init_verification_transfer_fee(
        &mut fee_payer,
        &wrong_token_acc,
        &mut pool,
        &mut pool_token,
        &mut fee_c_token,
        &pool_registry,
        &fee_collector_registry,
        &price,
        &g,
        &mut verification_acc,
        0,
    )
    .is_err());

    // Invalid pool_account (not the registered one)
    let mut wrong_pool_token = TokenAccount {
        key: [55; 32],
        token_id: USDC_TOKEN_ID,
        wallet: [0; 32],
        amount: 0,
        lamports: 1,
    };
    assert!(init_verification_transfer_fee(
        &mut fee_payer,
        &fee_payer_token,
        &mut pool,
        &mut wrong_pool_token,
        &mut fee_c_token,
        &pool_registry,
        &fee_collector_registry,
        &price,
        &g,
        &mut verification_acc,
        0,
    )
    .is_err());

    // Invalid fee_collector_account
    assert!(init_verification_transfer_fee(
        &mut fee_payer,
        &fee_payer_token,
        &mut pool,
        &mut pool_token,
        &mut wrong_pool_token,
        &pool_registry,
        &fee_collector_registry,
        &price,
        &g,
        &mut verification_acc,
        0,
    )
    .is_err());

    // Success
    init_verification_transfer_fee(
        &mut fee_payer,
        &fee_payer_token,
        &mut pool,
        &mut pool_token,
        &mut fee_c_token,
        &pool_registry,
        &fee_collector_registry,
        &price,
        &g,
        &mut verification_acc,
        0,
    )
    .unwrap();

    assert!(matches!(verification_acc.state, VerificationState::FeeTransferred));
    let d = verification_acc.other_data;
    assert_eq!(d.token_id, USDC_TOKEN_ID);
    assert_eq!(d.subvention, subvention);
    assert_eq!(pool_token.amount, subvention);
    assert_eq!(
        d.commitment_hash_fee_token + d.proof_verification_fee + d.network_fee - d.subvention,
        committed
    );
}

#[test]
fn test_init_verification_proof() {
    let mut verification_account = VerificationAccount::new();
    let proof = test_proof();
    let valid_key = [0u8; 32];

    // Account setup
    verification_account.set_state(&VerificationState::ProofSetup);
    assert!(init_verification_proof(&valid_key, &mut verification_account, &proof).is_err());
    verification_account.set_state(&VerificationState::FeeTransferred);

    // Computation already finished
    verification_account.set_is_verified(&Some(true));
    assert!(init_verification_proof(&valid_key, &mut verification_account, &proof).is_err());
    verification_account.set_is_verified(&Some(false));
    assert!(init_verification_proof(&valid_key, &mut verification_account, &proof).is_err());
    verification_account.set_is_verified(&None);

    // Invalid fee_payer
    let invalid_key = [1u8; 32];
    assert!(init_verification_proof(&invalid_key, &mut verification_account, &proof).is_err());

    // Success
    init_verification_proof(&valid_key, &mut verification_account, &proof).unwrap();
    assert!(matches!(verification_account.state, VerificationState::ProofSetup));
    assert_eq!(g1_xy(&verification_account.a), g1_xy(&proof.a));
    assert_eq!(g1_xy(&verification_account.c), g1_xy(&proof.c));

    // Already setup proof
    assert!(init_verification_proof(&valid_key, &mut verification_account, &proof).is_err());
}

#[test]
fn test_compute_verification() {
    let mut verification_account = VerificationAccount::new();

    // Setup
    let public_inputs = test_public_inputs();
    for (i, public_input) in public_inputs.iter().enumerate() {
        verification_account.set_public_input(i, &RawU256::new(*public_input));
    }
    let instructions = prepare_public_inputs_instructions::<SendQuadraVKey>(&public_inputs);
    verification_account.set_prepare_inputs_instructions_count(&(instructions.len() as u32));
    verification_account.prepare_inputs_instructions = instructions.clone();

    // Computation is already finished (is_verified is Some)
    verification_account.set_is_verified(&Some(true));
    assert!(compute_verification(&mut verification_account).is_err());
    verification_account.set_is_verified(&None);

    // Success for public input preparation
    for _ in 0..instructions.len() {
        compute_verification(&mut verification_account).unwrap();
    }

    // Failure for miller loop (proof not setup)
    assert!(compute_verification(&mut verification_account).is_err());

    let proof = test_proof();
    verification_account.a = proof.a;
    verification_account.b = proof.b;
    verification_account.c = proof.c;
    verification_account.set_state(&VerificationState::ProofSetup);

    // Success
    for _ in 0..COMBINED_MILLER_LOOP_IXS + FINAL_EXPONENTIATION_IXS {
        compute_verification(&mut verification_account).unwrap();
    }

    // Computation is finished
    assert!(compute_verification(&mut verification_account).is_err());
    assert!(matches!(verification_account.get_is_verified(), Some(false)));
}

fn finalize_send_setup(token_id: u16) -> (SendPublicInputs, VerificationAccount) {
    let public_inputs = send_inputs(token_id, LAMPORTS_PER_SOL, 10000);
    let mut v_account = VerificationAccount::new();
    let fee_payer = RawU256::new([13; 32]);
    v_account
        .setup(
            fee_payer,
            false,
            &Vec::new(),
            &vec![0],
            0,
            ProofRequest::Send(public_inputs.clone()),
            [0, 1],
        )
        .unwrap();
    v_account.set_state(&VerificationState::ProofSetup);
    v_account.set_is_verified(&Some(true));
    v_account.set_other_data(&VerificationAccountData {
        fee_payer,
        fee_payer_account: fee_payer,
        ..Default::default()
    });
    (public_inputs, v_account)
}

#[test]
fn test_finalize_verification_send_valid() {
    let (public_inputs, mut verification_acc) = finalize_send_setup(USDC_TOKEN_ID);
    let queue = CommitmentQueueAccount::new();
    let identifier_key = public_inputs.identifier.skip_mr();
    let salt_key = public_inputs.salt.skip_mr();
    let storage = StorageAccount::new();

    let finalize_data = FinalizeSendData {
        timestamp: public_inputs.current_time,
        total_amount: public_inputs.join_split.amount + public_inputs.join_split.fee,
        token_id: USDC_TOKEN_ID,
        mt_index: 0,
        commitment_index: 0,
    };

    // Verification is not finished
    verification_acc.set_is_verified(&None);
    assert!(finalize_verification_send(
        &identifier_key,
        &salt_key,
        &queue,
        &mut verification_acc,
        &storage,
        finalize_data,
    )
    .is_err());

    verification_acc.set_is_verified(&Some(true));

    // Invalid identifier
    assert!(finalize_verification_send(
        &salt_key,
        &salt_key,
        &queue,
        &mut verification_acc,
        &storage,
        finalize_data,
    )
    .is_err());

    // Invalid salt
    assert!(finalize_verification_send(
        &identifier_key,
        &identifier_key,
        &queue,
        &mut verification_acc,
        &storage,
        finalize_data,
    )
    .is_err());

    // Invalid finalize_data
    for invalid_data in [
        mutate(&finalize_data, |d| {
            d.timestamp = 0;
        }),
        mutate(&finalize_data, |d| {
            d.total_amount = public_inputs.join_split.amount;
        }),
        mutate(&finalize_data, |d| {
            d.token_id = 0;
        }),
        mutate(&finalize_data, |d| {
            d.commitment_index = 1;
        }),
        mutate(&finalize_data, |d| {
            d.mt_index = 1;
        }),
    ] {
        assert!(finalize_verification_send(
            &identifier_key,
            &salt_key,
            &queue,
            &mut verification_acc,
            &storage,
            invalid_data,
        )
        .is_err());
    }

    // Success
    finalize_verification_send(
        &identifier_key,
        &salt_key,
        &queue,
        &mut verification_acc,
        &storage,
        finalize_data,
    )
    .unwrap();

    assert!(matches!(verification_acc.state, VerificationState::InsertNullifiers));

    // Called twice
    assert!(finalize_verification_send(
        &identifier_key,
        &salt_key,
        &queue,
        &mut verification_acc,
        &storage,
        finalize_data,
    )
    .is_err());
}

#[test]
fn test_finalize_verification_send_invalid() {
    let (public_inputs, mut verification_acc) = finalize_send_setup(USDC_TOKEN_ID);
    let queue = CommitmentQueueAccount::new();
    let identifier_key = public_inputs.identifier.skip_mr();
    let salt_key = public_inputs.salt.skip_mr();
    let storage = StorageAccount::new();
    verification_acc.set_is_verified(&Some(false));

    let finalize_data = FinalizeSendData {
        timestamp: public_inputs.current_time,
        total_amount: public_inputs.join_split.amount + public_inputs.join_split.fee,
        token_id: USDC_TOKEN_ID,
        mt_index: 0,
        commitment_index: 0,
    };

    finalize_verification_send(
        &identifier_key,
        &salt_key,
        &queue,
        &mut verification_acc,
        &storage,
        finalize_data,
    )
    .unwrap();
    assert!(matches!(verification_acc.state, VerificationState::Finalized));
}

#[test]
fn test_finalize_verification_migrate() {
    let migrate_public_inputs = MigratePublicInputs {
        join_split: send_inputs(0, LAMPORTS_PER_SOL, 10000).join_split,
        current_nsmt_root: RawU256::new([0; 32]),
        next_nsmt_root: RawU256::new([0; 32]),
    };
    let any_key = [3u8; 32];

    let mut v_account = VerificationAccount::new();
    v_account.set_request(ProofRequest::Migrate(migrate_public_inputs));
    v_account.set_state(&VerificationState::ProofSetup);
    v_account.set_is_verified(&Some(true));

    let queue = CommitmentQueueAccount::new();
    let storage = StorageAccount::new();
    let finalize_data = FinalizeSendData {
        timestamp: 0,
        total_amount: 0,
        token_id: 0,
        mt_index: 0,
        commitment_index: 0,
    };

    assert!(finalize_verification_send(
        &any_key,
        &any_key,
        &queue,
        &mut v_account,
        &storage,
        finalize_data,
    )
    .is_err());
}

#[test]
fn test_finalize_verification_send_nullifiers() {
    let (public_inputs, mut verification_acc) = finalize_send_setup(USDC_TOKEN_ID);
    verification_acc.set_state(&VerificationState::InsertNullifiers);

    // Nullifier duplicate
    let mut n_acc_0 = NullifierAccount::new();
    let mut n_acc_1 = NullifierAccount::new();
    n_acc_0
        .try_insert_nullifier_hash(public_inputs.join_split.nullifier_hashes[0].reduce())
        .unwrap();
    assert!(
        finalize_verification_send_nullifiers(&mut verification_acc, &mut n_acc_0, &mut n_acc_1)
            .is_err()
    );

    // Success
    let mut n_acc_0 = NullifierAccount::new();
    finalize_verification_send_nullifiers(&mut verification_acc, &mut n_acc_0, &mut n_acc_1)
        .unwrap();

    assert!(!n_acc_0
        .can_insert_nullifier_hash(public_inputs.join_split.nullifier_hashes[0].reduce())
        .unwrap());
    assert!(matches!(verification_acc.state, VerificationState::Finalized));

    // Called twice
    assert!(
        finalize_verification_send_nullifiers(&mut verification_acc, &mut n_acc_0, &mut n_acc_1)
            .is_err()
    );
}

#[test]
fn test_finalize_verification_transfer_lamports() {
    let (public_inputs, mut verification_acc) = finalize_send_setup(0);
    let fee_payer_key = verification_acc.other_data.fee_payer.skip_mr();
    let mut recipient =
        ChainAccount { key: public_inputs.recipient.address, lamports: 0 };
    let mut f = ChainAccount { key: fee_payer_key, lamports: 0 };
    let mut pool = ChainAccount { key: [31; 32], lamports: 2 * LAMPORTS_PER_SOL };
    let mut fee_c = ChainAccount { key: [32; 32], lamports: 0 };
    let mut any = ChainAccount { key: [33; 32], lamports: 0 };
    let mut n_pda = matching_guard(&public_inputs, 1000);
    let mut v_info = ChainAccount { key: [34; 32], lamports: 1000 };
    let mut queue = CommitmentQueueAccount::new();

    // Invalid state
    verification_acc.set_state(&VerificationState::Empty);
    verification_acc.set_is_verified(&Some(true));
    assert!(finalize_verification_transfer_lamports(
        &mut recipient,
        &mut f,
        &mut pool,
        &mut fee_c,
        &mut queue,
        &mut v_info,
        &mut verification_acc,
        &mut n_pda,
    )
    .is_err());

    verification_acc.set_state(&VerificationState::Finalized);

    // Invalid nullifier_duplicate_account
    let mut invalid_n_pda = NullifierDuplicateAccount { seed: vec![[9; 32]], lamports: 1000 };
    assert!(finalize_verification_transfer_lamports(
        &mut recipient,
        &mut f,
        &mut pool,
        &mut fee_c,
        &mut queue,
        &mut v_info,
        &mut verification_acc,
        &mut invalid_n_pda,
    )
    .is_err());

    // Invalid original_fee_payer
    assert!(finalize_verification_transfer_lamports(
        &mut recipient,
        &mut any,
        &mut pool,
        &mut fee_c,
        &mut queue,
        &mut v_info,
        &mut verification_acc,
        &mut n_pda,
    )
    .is_err());

    // Invalid recipient
    assert!(finalize_verification_transfer_lamports(
        &mut any,
        &mut f,
        &mut pool,
        &mut fee_c,
        &mut queue,
        &mut v_info,
        &mut verification_acc,
        &mut n_pda,
    )
    .is_err());

    // Commitment queue is full
    for _ in 0..COMMITMENT_QUEUE_CAPACITY {
        queue
            .enqueue(CommitmentHashRequest {
                commitment: [0; 32],
                fee_version: 0,
                min_batching_rate: 0,
            })
            .unwrap();
    }
    assert!(finalize_verification_transfer_lamports(
        &mut recipient,
        &mut f,
        &mut pool,
        &mut fee_c,
        &mut queue,
        &mut v_info,
        &mut verification_acc,
        &mut n_pda,
    )
    .is_err());

    let mut queue = CommitmentQueueAccount::new();
    finalize_verification_transfer_lamports(
        &mut recipient,
        &mut f,
        &mut pool,
        &mut fee_c,
        &mut queue,
        &mut v_info,
        &mut verification_acc,
        &mut n_pda,
    )
    .unwrap();

    assert_eq!(n_pda.lamports, 0);
    assert_eq!(v_info.lamports, 0);
    assert_eq!(recipient.lamports, LAMPORTS_PER_SOL);
    assert!(matches!(verification_acc.state, VerificationState::Closed));
    assert_eq!(queue.len(), 1);
}

#[test]
fn test_finalize_verification_transfer_token() {
    let (public_inputs, mut verification_acc) = finalize_send_setup(USDC_TOKEN_ID);
    verification_acc.set_state(&VerificationState::Finalized);
    verification_acc.set_is_verified(&Some(true));
    let mut d = verification_acc.other_data;
    d.token_id = USDC_TOKEN_ID;
    verification_acc.set_other_data(&d);

    let fee_payer_key = verification_acc.other_data.fee_payer.skip_mr();
    let mut signer = ChainAccount { key: [41; 32], lamports: 10_000 };
    let mut recipient = TokenAccount {
        key: public_inputs.recipient.address,
        token_id: USDC_TOKEN_ID,
        wallet: [0; 32],
        amount: 0,
        lamports: 1,
    };
    let mut f = ChainAccount { key: fee_payer_key, lamports: 0 };
    let mut f_token = TokenAccount {
        key: fee_payer_key,
        token_id: USDC_TOKEN_ID,
        wallet: [0; 32],
        amount: 0,
        lamports: 1,
    };
    let mut pool = ChainAccount { key: [31; 32], lamports: LAMPORTS_PER_SOL };
    let mut pool_token = TokenAccount {
        key: [42; 32],
        token_id: USDC_TOKEN_ID,
        wallet: [0; 32],
        amount: 2 * LAMPORTS_PER_SOL,
        lamports: 1,
    };
    let mut fee_c = ChainAccount { key: [32; 32], lamports: 0 };
    let mut fee_c_token = TokenAccount {
        key: [43; 32],
        token_id: USDC_TOKEN_ID,
        wallet: [0; 32],
        amount: 0,
        lamports: 1,
    };
    let pool_registry = PoolAccount {
        pda_data: PDAAccountData { bump_seed: 0, version: 0, initialized: false },
        accounts: vec![None, Some(pool_token.key)],
    };
    let fee_collector_registry = FeeCollectorAccount {
        pda_data: PDAAccountData { bump_seed: 0, version: 0, initialized: false },
        accounts: vec![None, Some(fee_c_token.key)],
    };
    let mut n_pda = matching_guard(&public_inputs, 1000);
    let mut v_info = ChainAccount { key: [34; 32], lamports: 1000 };
    let mut queue = CommitmentQueueAccount::new();
    let wallet_key = [0u8; 32];

    // Invalid pool_account
    let mut wrong_pool_token = TokenAccount {
        key: [55; 32],
        token_id: USDC_TOKEN_ID,
        wallet: [0; 32],
        amount: 2 * LAMPORTS_PER_SOL,
        lamports: 1,
    };
    assert!(finalize_verification_transfer_token(
        &mut signer,
        &mut recipient,
        &wallet_key,
        &mut f,
        &mut f_token,
        &mut pool,
        &mut wrong_pool_token,
        &mut fee_c,
        &mut fee_c_token,
        &pool_registry,
        &fee_collector_registry,
        &mut queue,
        &mut v_info,
        &mut verification_acc,
        &mut n_pda,
        5000,
    )
    .is_err());

    // Invalid original_fee_payer
    let mut any = ChainAccount { key: [66; 32], lamports: 0 };
    assert!(finalize_verification_transfer_token(
        &mut signer,
        &mut recipient,
        &wallet_key,
        &mut any,
        &mut f_token,
        &mut pool,
        &mut pool_token,
        &mut fee_c,
        &mut fee_c_token,
        &pool_registry,
        &fee_collector_registry,
        &mut queue,
        &mut v_info,
        &mut verification_acc,
        &mut n_pda,
        5000,
    )
    .is_err());

    // Invalid recipient
    let mut wrong_recipient = TokenAccount {
        key: [77; 32],
        token_id: USDC_TOKEN_ID,
        wallet: [0; 32],
        amount: 0,
        lamports: 1,
    };
    assert!(finalize_verification_transfer_token(
        &mut signer,
        &mut wrong_recipient,
        &wallet_key,
        &mut f,
        &mut f_token,
        &mut pool,
        &mut pool_token,
        &mut fee_c,
        &mut fee_c_token,
        &pool_registry,
        &fee_collector_registry,
        &mut queue,
        &mut v_info,
        &mut verification_acc,
        &mut n_pda,
        5000,
    )
    .is_err());

    // Success
    finalize_verification_transfer_token(
        &mut signer,
        &mut recipient,
        &wallet_key,
        &mut f,
        &mut f_token,
        &mut pool,
        &mut pool_token,
        &mut fee_c,
        &mut fee_c_token,
        &pool_registry,
        &fee_collector_registry,
        &mut queue,
        &mut v_info,
        &mut verification_acc,
        &mut n_pda,
        5000,
    )
    .unwrap();

    assert_eq!(n_pda.lamports, 0);
    assert_eq!(v_info.lamports, 0);
    assert_eq!(recipient.amount, LAMPORTS_PER_SOL);
    assert!(matches!(verification_acc.state, VerificationState::Closed));
    assert_eq!(queue.len(), 1);
}

#[test]
fn test_init_verification_insufficient_funds() {
    let storage = StorageAccount::new();
    let n = NullifierAccount::new();
    let mut fee_payer = ChainAccount { key: [11; 32], lamports: 10 };
    let mut v_info = ChainAccount { key: [12; 32], lamports: 0 };
    let mut guard = NullifierDuplicateAccount { seed: Vec::new(), lamports: 0 };
    let mut verification_account = VerificationAccount::new();
    let inputs = send_inputs(0, LAMPORTS_PER_SOL, 0);
    let r = init_verification(
        &mut fee_payer,
        &mut v_info,
        &mut guard,
        &inputs.recipient.address,
        0,
        &storage,
        &n,
        &n,
        &mut verification_account,
        [0, 1],
        ProofRequest::Send(inputs.clone()),
        false,
        112233,
        1000,
    );
    assert!(matches!(r, Err(ElusivError::InsufficientFunds)));
    assert_eq!(fee_payer.lamports, 10);
}

#[test]
fn test_init_verification_stale_timestamp() {
    let storage = StorageAccount::new();
    let n = NullifierAccount::new();
    let mut fee_payer = ChainAccount { key: [11; 32], lamports: 1_000_000 };
    let mut v_info = ChainAccount { key: [12; 32], lamports: 0 };
    let mut guard = NullifierDuplicateAccount { seed: Vec::new(), lamports: 0 };
    let mut verification_account = VerificationAccount::new();
    let inputs = send_inputs(0, LAMPORTS_PER_SOL, 0);
    // The asserted time lies far in the chain clock's future.
    let r = init_verification(
        &mut fee_payer,
        &mut v_info,
        &mut guard,
        &inputs.recipient.address,
        0,
        &storage,
        &n,
        &n,
        &mut verification_account,
        [0, 1],
        ProofRequest::Send(inputs.clone()),
        false,
        0,
        1000,
    );
    assert!(matches!(r, Err(ElusivError::InvalidInstructionData)));
}

#[test]
fn test_duplicate_guard_prevents_second_init() {
    let storage = StorageAccount::new();
    let n = NullifierAccount::new();
    let mut fee_payer = ChainAccount { key: [11; 32], lamports: 1_000_000 };
    let mut guard = NullifierDuplicateAccount { seed: Vec::new(), lamports: 0 };
    let inputs = send_inputs(0, LAMPORTS_PER_SOL, 0);

    let mut v_info_a = ChainAccount { key: [12; 32], lamports: 0 };
    let mut verification_a = VerificationAccount::new();
    init_verification(
        &mut fee_payer,
        &mut v_info_a,
        &mut guard,
        &inputs.recipient.address,
        0,
        &storage,
        &n,
        &n,
        &mut verification_a,
        [0, 1],
        ProofRequest::Send(inputs.clone()),
        false,
        112233,
        1000,
    )
    .unwrap();

    // A second verification over the same nullifier-hash set finds the
    // guard funded and fails without the explicit opt-in.
    let mut v_info_b = ChainAccount { key: [14; 32], lamports: 0 };
    let mut verification_b = VerificationAccount::new();
    let r = init_verification(
        &mut fee_payer,
        &mut v_info_b,
        &mut guard,
        &inputs.recipient.address,
        0,
        &storage,
        &n,
        &n,
        &mut verification_b,
        [0, 1],
        ProofRequest::Send(inputs.clone()),
        false,
        112233,
        1000,
    );
    assert!(r.is_err());

    // With the opt-in it is allowed.
    init_verification(
        &mut fee_payer,
        &mut v_info_b,
        &mut guard,
        &inputs.recipient.address,
        0,
        &storage,
        &n,
        &n,
        &mut verification_b,
        [0, 1],
        ProofRequest::Send(inputs.clone()),
        true,
        112233,
        1000,
    )
    .unwrap();
}

#[test]
fn test_opt_in_requires_matching_guard() {
    let storage = StorageAccount::new();
    let n = NullifierAccount::new();
    let mut fee_payer = ChainAccount { key: [11; 32], lamports: 1_000_000 };
    let mut v_info = ChainAccount { key: [12; 32], lamports: 0 };
    let mut verification_account = VerificationAccount::new();
    let inputs = send_inputs(0, LAMPORTS_PER_SOL, 0);

    // A funded guard of a different nullifier-hash set is refused even
    // with the explicit opt-in.
    let mut wrong_guard = NullifierDuplicateAccount { seed: vec![[9; 32]], lamports: 1000 };
    let r = init_verification(
        &mut fee_payer,
        &mut v_info,
        &mut wrong_guard,
        &inputs.recipient.address,
        0,
        &storage,
        &n,
        &n,
        &mut verification_account,
        [0, 1],
        ProofRequest::Send(inputs.clone()),
        true,
        112233,
        1000,
    );
    assert!(matches!(r, Err(ElusivError::InvalidInstructionData)));

    // The guard of exactly this set is accepted.
    let mut guard = matching_guard(&inputs, 1000);
    let recipient_address = inputs.recipient.address;
    init_verification(
        &mut fee_payer,
        &mut v_info,
        &mut guard,
        &recipient_address,
        0,
        &storage,
        &n,
        &n,
        &mut verification_account,
        [0, 1],
        ProofRequest::Send(inputs),
        true,
        112233,
        1000,
    )
    .unwrap();
    assert_eq!(guard.lamports, 1000);
}
