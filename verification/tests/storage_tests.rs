use elusiv_core::storage::{
    empty_root_raw, tree_array_index, size_of_tree_layer, NullifierAccount, StorageAccount,
    HISTORY_ARRAY_COUNT, TOTAL_SIZE, TREE_HEIGHT,
};
use elusiv_core::queue::{CommitmentHashRequest, CommitmentQueueAccount, COMMITMENT_QUEUE_CAPACITY};
use elusiv_core::error::ElusivError;
use elusiv_core::commitment::{
    BaseCommitmentHashRequest, BaseCommitmentHashingAccount, CommitmentHashingAccount,
    MT_HEIGHT, TOTAL_POSEIDON_ROUNDS,
};
use elusiv_core::program_account::{MultiAccountAccountData, PDAAccountData};

#[test]
fn test_correct_size() {
    let data = vec![0; TOTAL_SIZE];
    StorageAccount::from_data(&data).unwrap();
}

#[test]
#[should_panic]
fn test_invalid_size() {
    let data = vec![0; TOTAL_SIZE - 1];
    StorageAccount::from_data(&data).unwrap();
}

#[test]
fn test_tree_indexing() {
    assert_eq!(tree_array_index(0, 0), 0);
    assert_eq!(tree_array_index(1, 0), 1);
    assert_eq!(tree_array_index(1, 1), 2);
    assert_eq!(tree_array_index(16, 0), 65535);
    assert_eq!(size_of_tree_layer(0), 1);
    assert_eq!(size_of_tree_layer(16), 65536);
}

#[test]
fn test_tree_nodes() {
    let mut storage = StorageAccount::new();
    assert!(storage.get_tree_node(17, 0).is_err());
    assert!(storage.set_tree_node(0, 2, [1; 32]).is_err());

    storage.set_tree_node(16, 5, [7; 32]).unwrap();
    assert_eq!(storage.get_tree_node(16, 5).unwrap(), [7; 32]);

    let opening = storage.get_tree_opening(0).unwrap();
    assert_eq!(opening.len(), TREE_HEIGHT);
    assert!(storage.get_tree_opening(2).is_err());
}

#[test]
fn test_insert_commitment() {
    let mut storage = StorageAccount::new();
    let mut values = vec![[0u8; 32]; TREE_HEIGHT + 1];
    for (i, v) in values.iter_mut().enumerate() {
        v[0] = (i + 1) as u8;
    }
    storage.insert_commitment(&values).unwrap();
    assert_eq!(storage.next_commitment, 1);
    // The leaf sits at the bottom layer, the last value is the new root.
    assert_eq!(storage.get_tree_node(TREE_HEIGHT, 0).unwrap(), values[0]);
    assert_eq!(storage.get_tree_node(0, 0).unwrap(), values[TREE_HEIGHT]);

    // A duplicate leaf is rejected.
    let r = storage.insert_commitment(&values);
    assert!(matches!(r, Err(ElusivError::CommitmentAlreadyExists)));
}

#[test]
fn test_root_history() {
    let mut storage = StorageAccount::new();
    // The empty tree accepts exactly the canonical empty root.
    assert!(storage.is_root_known(&empty_root_raw().reduce()));
    assert!(!storage.is_root_known(&[0; 32]));

    // After an insert the recorded root becomes the current one and the
    // displaced (zero-node) root is only valid through the default.
    let mut values = vec![[0u8; 32]; TREE_HEIGHT + 1];
    values[0][0] = 1;
    values[TREE_HEIGHT][0] = 9;
    storage.insert_commitment(&values).unwrap();
    assert!(storage.is_root_known(&values[TREE_HEIGHT]));
    assert_eq!(storage.root_history.len(), HISTORY_ARRAY_COUNT);
}

#[test]
fn test_nullifier_account_inserts() {
    let mut account = NullifierAccount::new();
    let n = [5u8; 32];
    assert!(account.can_insert_nullifier_hash(n).unwrap());
    account.try_insert_nullifier_hash(n).unwrap();
    assert!(!account.can_insert_nullifier_hash(n).unwrap());
    let r = account.try_insert_nullifier_hash(n);
    assert!(matches!(r, Err(ElusivError::CouldNotInsertNullifier)));
    assert_eq!(account.nullifier_hashes.len(), 1);
}

#[test]
fn test_commitment_queue() {
    let mut queue = CommitmentQueueAccount::new();
    assert_eq!(queue.len(), 0);
    for i in 0..COMMITMENT_QUEUE_CAPACITY {
        let request = CommitmentHashRequest {
            commitment: [(i % 250) as u8; 32],
            fee_version: i as u32,
            min_batching_rate: 0,
        };
        queue.enqueue(request).unwrap();
    }
    assert_eq!(queue.len() as usize, COMMITMENT_QUEUE_CAPACITY);
    let r = queue.enqueue(CommitmentHashRequest {
        commitment: [0; 32],
        fee_version: 0,
        min_batching_rate: 0,
    });
    assert!(matches!(r, Err(ElusivError::QueueIsFull)));
}

#[test]
fn test_reduce_is_not_identity() {
    // The canonical form of the raw word 1 is the Montgomery factor's
    // inverse, never the raw bytes themselves.
    let mut one = [0u8; 32];
    one[0] = 1;
    let raw = elusiv_core::types::RawU256::new(one);
    assert_ne!(raw.reduce(), one);
    assert_eq!(raw.skip_mr(), one);
    // Reducing twice from the same raw value is deterministic.
    assert_eq!(raw.reduce(), elusiv_core::types::RawU256::new(one).reduce());
}

#[test]
fn test_no_room_for_commitment() {
    let mut storage = StorageAccount::new();
    storage.next_commitment = elusiv_core::storage::TREE_COMMITMENT_COUNT as u64;
    let values = vec![[0u8; 32]; TREE_HEIGHT + 1];
    let r = storage.insert_commitment(&values);
    assert!(matches!(r, Err(ElusivError::NoRoomForCommitment)));
}

#[test]
fn test_nullifier_account_lookup() {
    let mut storage = StorageAccount::new();
    assert!(matches!(
        storage.try_get_nullifier_account(),
        Err(ElusivError::NullifierAccountDoesNotExist)
    ));
    storage.nullifier_account = Some([9; 32]);
    assert_eq!(storage.try_get_nullifier_account().unwrap(), [9; 32]);
}

#[test]
fn test_storage_reset() {
    let mut storage = StorageAccount::new();
    storage.set_tree_node(16, 0, [1; 32]).unwrap();
    storage.next_commitment = 5;
    storage.nullifier_account = Some([9; 32]);
    storage.reset();
    assert_eq!(storage.next_commitment, 0);
    assert!(storage.nullifier_account.is_none());
    assert_eq!(storage.get_tree_node(16, 0).unwrap(), [0; 32]);
}

#[test]
fn test_is_root_valid_archived() {
    let storage = StorageAccount::new();
    let mut n = NullifierAccount::new();
    n.root = [4; 32];
    // The archived root matches even while the set is not the active one.
    assert!(storage.is_root_valid(&n, [4; 32]).is_ok());
    assert!(matches!(
        storage.is_root_valid(&n, [5; 32]),
        Err(ElusivError::InvalidMerkleRoot)
    ));
}

#[test]
fn test_hashing_account_reset() {
    let mut base = BaseCommitmentHashingAccount::new();
    let request = BaseCommitmentHashRequest { base_commitment: [3; 32], amount: 1 };
    base.reset(request, [8; 32]).unwrap();
    assert!(base.is_active);
    assert_eq!(base.total_rounds, TOTAL_POSEIDON_ROUNDS);
    assert_eq!(base.state[0], [0; 32]);
    assert_eq!(base.state[1], [3; 32]);
    // The amount is embedded as a scalar-field element: reducing the high
    // limb yields a value unlike the plain amount bytes.
    assert_ne!(base.state[2], [0; 32]);
    let mut one = [0u8; 32];
    one[0] = 1;
    assert_ne!(base.state[2], one);
    // Arming twice without completion is rejected.
    let r = base.reset(BaseCommitmentHashRequest { base_commitment: [0; 32], amount: 0 }, [0; 32]);
    assert!(matches!(r, Err(ElusivError::AccountCannotBeReset)));

    let mut hashing = CommitmentHashingAccount::new();
    hashing.reset([7; 32], [8; 32]).unwrap();
    assert!(hashing.is_active);
    assert_eq!(hashing.total_rounds, TOTAL_POSEIDON_ROUNDS * MT_HEIGHT);
    assert!(matches!(
        hashing.reset([7; 32], [8; 32]),
        Err(ElusivError::AccountCannotBeReset)
    ));
}

#[test]
fn test_pda_account_data_parsing() {
    let data = [7u8, 1, 1, 9, 9];
    let parsed = PDAAccountData::new(&data).unwrap();
    assert_eq!(parsed.bump_seed, 7);
    assert_eq!(parsed.version, 1);
    assert!(parsed.initialized);
    assert!(matches!(
        PDAAccountData::new(&[1, 2]),
        Err(ElusivError::InvalidArgument)
    ));

    let mut multi = vec![0u8; 3 + 33 * 2];
    multi[3] = 1;
    for i in 0..32 {
        multi[4 + i] = 5;
    }
    let parsed = MultiAccountAccountData::<2>::new(&multi).unwrap();
    assert_eq!(parsed.pubkeys.len(), 2);
    assert_eq!(parsed.pubkeys[0], Some([5; 32]));
    assert_eq!(parsed.pubkeys[1], None);
    assert!(MultiAccountAccountData::<3>::new(&multi).is_err());
}
