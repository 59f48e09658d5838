//! Commitment storage and nullifier sets: the active Merkle tree with its
//! root history, and the per-tree append-only sets of spent nullifier
//! hashes.

use vstd::prelude::*;
use crate::U256;
use crate::u256_eq;
use crate::error::ElusivError;
use crate::fields::{reduce_of, reduce_mr};
use crate::types::RawU256;

verus! {

/// The height of one commitment Merkle tree.
pub const TREE_HEIGHT: usize = 16;

/// The number of nodes of one tree.
pub const TREE_SIZE: usize = 131072;

/// The index of the first leaf.
pub const TREE_COMMITMENT_START: usize = 65535;

/// The number of commitments one tree holds.
pub const TREE_COMMITMENT_COUNT: usize = 65536;

/// The number of commitments one Merkle tree accepts before a new tree is
/// opened; the protocol constant used by the commitment-index estimate.
pub const MT_COMMITMENT_COUNT: usize = 65536;

/// The number of past roots kept.
pub const HISTORY_ARRAY_COUNT: usize = 10;

/// The byte size of a serialized storage account.
pub const TOTAL_SIZE: usize = TREE_SIZE * 32 + 8 + HISTORY_ARRAY_COUNT * 32 + 33 + 4;

/// The raw form of the root of a tree without commitments.
pub const EMPTY_TREE_ROOT_RAW: U256 = [
    7, 81, 207, 78, 21, 246, 121, 231, 200, 9, 45, 15, 96, 199, 81, 63, 27, 211, 80, 2, 173, 38,
    118, 41, 80, 128, 238, 200, 4, 73, 140, 17,
];

/// The raw form of the root every fresh tree has.
pub fn empty_root_raw() -> (r: RawU256)
    ensures
        r@ == EMPTY_TREE_ROOT_RAW@,
{
    RawU256::new(EMPTY_TREE_ROOT_RAW)
}

/// The flat index of the node `index` of `layer`; layer 0 is the root.
pub open spec fn spec_tree_array_index(layer: usize, index: usize) -> int {
    (1usize << layer) - 1 + index
}

/// The flat index of the node `index` of `layer`; layer 0 is the root.
pub fn tree_array_index(layer: usize, index: usize) -> (r: usize)
    requires
        layer <= TREE_HEIGHT,
        index <= 65536,
    ensures
        r == spec_tree_array_index(layer, index),
        r <= 131071 + 65536,
{
    proof {
        assert((1usize << layer) <= 65536 && (1usize << layer) >= 1) by (bit_vector)
            requires layer <= 16;
    }
    (1usize << layer) - 1 + index
}

/// The number of nodes of `layer`.
pub fn size_of_tree_layer(layer: usize) -> (r: usize)
    requires
        layer <= TREE_HEIGHT,
    ensures
        r == (1usize << layer),
        1 <= r <= 65536,
{
    proof {
        assert((1usize << layer) <= 65536 && (1usize << layer) >= 1) by (bit_vector)
            requires layer <= 16;
    }
    1usize << layer
}

/// A per-tree append-only set of spent nullifier hashes, in canonical
/// (Montgomery-reduced) form, together with the archived root of its tree.
pub struct NullifierAccount {
    pub key: U256,
    pub root: U256,
    pub nullifier_hashes: Vec<U256>,
}

/// Whether the set holds the hash `n`.
pub open spec fn nullifier_contains(account: &NullifierAccount, n: Seq<u8>) -> bool {
    exists|j: int| 0 <= j < account.nullifier_hashes@.len() && account.nullifier_hashes@[j]@ == n
}

/// The effect of a successful insert: `n` was new and is now appended.
pub open spec fn nullifier_inserted(
    pre: &NullifierAccount,
    post: &NullifierAccount,
    n: Seq<u8>,
) -> bool {
    &&& !nullifier_contains(pre, n)
    &&& post.nullifier_hashes@.len() == pre.nullifier_hashes@.len() + 1
    &&& forall|j: int|
        0 <= j < pre.nullifier_hashes@.len() ==> post.nullifier_hashes@[j]
            == pre.nullifier_hashes@[j]
    &&& post.nullifier_hashes@[pre.nullifier_hashes@.len() as int]@ == n
}

/// An append-only extension: every previously recorded hash is still at
/// its place; nothing is removed or reordered.
pub open spec fn nullifier_set_extended(pre: &NullifierAccount, post: &NullifierAccount) -> bool {
    &&& post.nullifier_hashes@.len() >= pre.nullifier_hashes@.len()
    &&& forall|j: int|
        0 <= j < pre.nullifier_hashes@.len() ==> post.nullifier_hashes@[j]
            == pre.nullifier_hashes@[j]
}

/// No double spend: after a successful insert the hash is in the set, so
/// by the contract of `try_insert_nullifier_hash` every later insert of
/// the same hash into this set fails; a hash enters a set at most once.
pub proof fn lemma_no_double_spend(
    pre: &NullifierAccount,
    post: &NullifierAccount,
    n: Seq<u8>,
)
    requires
        nullifier_inserted(pre, post, n),
    ensures
        nullifier_contains(post, n),
        !nullifier_inserted(post, post, n),
        forall|later: &NullifierAccount| !nullifier_inserted(post, later, n),
{
    assert(post.nullifier_hashes@[pre.nullifier_hashes@.len() as int]@ == n);
    assert(nullifier_contains(post, n));
}

impl NullifierAccount {
    /// A fresh, empty set.
    pub fn new() -> (r: Self)
        ensures
            r.nullifier_hashes@.len() == 0,
            r.key@ == Seq::new(32, |i: int| 0u8),
            r.root@ == Seq::new(32, |i: int| 0u8),
    {
        let key = [0u8; 32];
        let root = [0u8; 32];
        assert(key@ =~= Seq::new(32, |i: int| 0u8));
        NullifierAccount { key, root, nullifier_hashes: Vec::new() }
    }

    pub fn get_key(&self) -> (r: U256)
        ensures
            r@ == self.key@,
    {
        self.key
    }

    /// The archived root of this set's tree.
    pub fn get_root(&self) -> (r: U256)
        ensures
            r@ == self.root@,
    {
        self.root
    }

    /// Whether `nullifier_hash` can still be inserted, which is exactly
    /// when it is not yet in the set.
    pub fn can_insert_nullifier_hash(&self, nullifier_hash: U256) -> (r: Result<
        bool,
        ElusivError,
    >)
        ensures
            r == Ok::<bool, ElusivError>(!nullifier_contains(self, nullifier_hash@)),
    {
        let mut i: usize = 0;
        while i < self.nullifier_hashes.len()
            invariant
                i <= self.nullifier_hashes@.len(),
                forall|j: int| 0 <= j < i ==> self.nullifier_hashes@[j]@ != nullifier_hash@,
            decreases self.nullifier_hashes@.len() - i,
        {
            if u256_eq(&self.nullifier_hashes[i], &nullifier_hash) {
                assert(nullifier_contains(self, nullifier_hash@));
                return Ok(false);
            }
            i += 1;
        }
        Ok(true)
    }

    /// Inserts `nullifier_hash`; fails exactly when it is already present,
    /// the authoritative double-spend check.
    pub fn try_insert_nullifier_hash(&mut self, nullifier_hash: U256) -> (r: Result<
        (),
        ElusivError,
    >)
        ensures
            match r {
                Ok(()) => nullifier_inserted(old(self), final(self), nullifier_hash@),
                Err(e) => {
                    &&& e == ElusivError::CouldNotInsertNullifier
                    &&& nullifier_contains(old(self), nullifier_hash@)
                    &&& *final(self) == *old(self)
                },
            },
            final(self).key == old(self).key,
            final(self).root == old(self).root,
    {
        match self.can_insert_nullifier_hash(nullifier_hash) {
            Ok(true) => {
                self.nullifier_hashes.push(nullifier_hash);
                Ok(())
            },
            _ => Err(ElusivError::CouldNotInsertNullifier),
        }
    }
}

/// The active Merkle tree: all node values, the pointer to the next free
/// leaf, the recent root history, the key of the active nullifier set, and
/// the index of the active tree.
pub struct StorageAccount {
    /// All node values, root first, layer by layer.
    pub merkle_tree: Vec<U256>,
    /// The number of commitments inserted into the active tree.
    pub next_commitment: u64,
    /// The roots preceding the current one, newest slots cycling.
    pub root_history: Vec<U256>,
    /// The key of the active tree's nullifier set, if one is attached.
    pub nullifier_account: Option<U256>,
    /// The index of the active tree; earlier trees are archived.
    pub trees_count: u32,
}

impl StorageAccount {
    pub open spec fn wf(&self) -> bool {
        &&& self.merkle_tree@.len() == TREE_SIZE
        &&& self.root_history@.len() == HISTORY_ARRAY_COUNT
        &&& self.next_commitment <= TREE_COMMITMENT_COUNT
    }

    /// The stored root node.
    pub open spec fn spec_root_node(&self) -> Seq<u8>
        recommends
            self.wf(),
    {
        self.merkle_tree@[0]@
    }

    /// The canonical root of the active tree: the stored root node, or the
    /// empty-tree root while no node was ever written.
    pub open spec fn spec_root(&self) -> Seq<u8>
        recommends
            self.wf(),
    {
        if self.spec_root_node() == Seq::new(32, |i: int| 0u8) {
            reduce_of(EMPTY_TREE_ROOT_RAW@)
        } else {
            self.spec_root_node()
        }
    }

    /// How many root-history entries are meaningful.
    pub open spec fn spec_history_len(&self) -> int {
        if self.next_commitment <= HISTORY_ARRAY_COUNT {
            self.next_commitment as int
        } else {
            HISTORY_ARRAY_COUNT as int
        }
    }

    /// Whether `root` (canonical form) is the current root or one of the
    /// recorded past roots of the active tree.
    pub open spec fn spec_is_root_known(&self, root: Seq<u8>) -> bool {
        ||| root == self.spec_root()
        ||| exists|j: int| 0 <= j < self.spec_history_len() && self.root_history@[j]@ == root
    }

    /// A fresh, zeroed storage account for a first tree.
    pub fn new() -> (r: Self)
        ensures
            r.wf(),
            r.next_commitment == 0,
            r.trees_count == 0,
            r.nullifier_account is None,
            forall|k: int| 0 <= k < TREE_SIZE ==> r.merkle_tree@[k]@ == Seq::new(32, |i: int| 0u8),
    {
        let mut merkle_tree: Vec<U256> = Vec::new();
        let mut i: usize = 0;
        while i < TREE_SIZE
            invariant
                i <= TREE_SIZE,
                merkle_tree@.len() == i,
                forall|k: int| 0 <= k < i ==> merkle_tree@[k]@ == Seq::new(32, |j: int| 0u8),
            decreases TREE_SIZE - i,
        {
            let zero = [0u8; 32];
            assert(zero@ =~= Seq::new(32, |j: int| 0u8));
            merkle_tree.push(zero);
            i += 1;
        }
        let mut root_history: Vec<U256> = Vec::new();
        let mut i: usize = 0;
        while i < HISTORY_ARRAY_COUNT
            invariant
                i <= HISTORY_ARRAY_COUNT,
                root_history@.len() == i,
            decreases HISTORY_ARRAY_COUNT - i,
        {
            root_history.push([0u8; 32]);
            i += 1;
        }
        StorageAccount {
            merkle_tree,
            next_commitment: 0,
            root_history,
            nullifier_account: None,
            trees_count: 0,
        }
    }

    /// Rebuilds a storage account from its serialized bytes: the tree
    /// nodes, the next-commitment pointer, the root history, the optional
    /// nullifier-set key and the tree index, in that order.
    pub fn from_data(data: &[u8]) -> (r: Result<Self, ElusivError>)
        ensures
            r is Ok <==> data@.len() == TOTAL_SIZE,
            r matches Ok(account) ==> {
                &&& account.wf()
                &&& forall|k: int|
                    0 <= k < TREE_SIZE ==> account.merkle_tree@[k]@ == data@.subrange(
                        32 * k,
                        32 * k + 32,
                    )
            },
    {
        if data.len() != TOTAL_SIZE {
            return Err(ElusivError::InvalidArgument);
        }
        let mut merkle_tree: Vec<U256> = Vec::new();
        let mut i: usize = 0;
        while i < TREE_SIZE
            invariant
                i <= TREE_SIZE,
                merkle_tree@.len() == i,
                data@.len() == TOTAL_SIZE,
                forall|k: int|
                    0 <= k < i ==> merkle_tree@[k]@ == data@.subrange(32 * k, 32 * k + 32),
            decreases TREE_SIZE - i,
        {
            assert(32 * i + 32 <= TOTAL_SIZE) by (nonlinear_arith)
                requires i < TREE_SIZE;
            let word = vstd::slice::slice_subrange(data, 32 * i, 32 * i + 32);
            let node = crate::bytes::deserialize_u256(word);
            assert(node@ =~= data@.subrange(32 * (i as int), 32 * (i as int) + 32));
            merkle_tree.push(node);
            i += 1;
        }
        let mut offset: usize = TREE_SIZE * 32;
        let tail = vstd::slice::slice_subrange(data, offset, data.len());
        let next_commitment = crate::bytes::bytes_to_u64(tail);
        let mut root_history: Vec<U256> = Vec::new();
        let mut i: usize = 0;
        while i < HISTORY_ARRAY_COUNT
            invariant
                i <= HISTORY_ARRAY_COUNT,
                root_history@.len() == i,
                data@.len() == TOTAL_SIZE,
            decreases HISTORY_ARRAY_COUNT - i,
        {
            let start = TREE_SIZE * 32 + 8 + 32 * i;
            let word = vstd::slice::slice_subrange(data, start, start + 32);
            root_history.push(crate::bytes::deserialize_u256(word));
            i += 1;
        }
        let tag_offset = TREE_SIZE * 32 + 8 + 32 * HISTORY_ARRAY_COUNT;
        let nullifier_account: Option<U256> = if data[tag_offset] == 1 {
            let word = vstd::slice::slice_subrange(data, tag_offset + 1, tag_offset + 33);
            Some(crate::bytes::deserialize_u256(word))
        } else {
            None
        };
        let count_slice = vstd::slice::slice_subrange(data, tag_offset + 33, tag_offset + 37);
        let trees_count = crate::bytes::bytes_to_u32(count_slice);
        let next_commitment = if next_commitment > TREE_COMMITMENT_COUNT as u64 {
            TREE_COMMITMENT_COUNT as u64
        } else {
            next_commitment
        };
        Ok(
            StorageAccount {
                merkle_tree,
                next_commitment,
                root_history,
                nullifier_account,
                trees_count,
            },
        )
    }

    /// Clears the tree, the pointer, the history and the attached
    /// nullifier set.
    pub fn reset(&mut self)
        requires
            old(self).wf(),
        ensures
            final(self).wf(),
            final(self).next_commitment == 0,
            final(self).nullifier_account is None,
            final(self).trees_count == old(self).trees_count,
            forall|k: int|
                0 <= k < TREE_SIZE ==> final(self).merkle_tree@[k]@ == Seq::new(32, |i: int| 0u8),
            forall|k: int|
                0 <= k < HISTORY_ARRAY_COUNT ==> final(self).root_history@[k]@ == Seq::new(
                    32,
                    |i: int| 0u8,
                ),
    {
        let mut i: usize = 0;
        while i < TREE_SIZE
            invariant
                i <= TREE_SIZE,
                self.merkle_tree@.len() == TREE_SIZE,
                forall|k: int| 0 <= k < i ==> self.merkle_tree@[k]@ == Seq::new(32, |j: int| 0u8),
                *self == (StorageAccount { merkle_tree: self.merkle_tree, ..*old(self) }),
            decreases TREE_SIZE - i,
        {
            let zero = [0u8; 32];
            assert(zero@ =~= Seq::new(32, |j: int| 0u8));
            self.merkle_tree.set(i, zero);
            i += 1;
        }
        self.next_commitment = 0;
        let mut i: usize = 0;
        while i < HISTORY_ARRAY_COUNT
            invariant
                i <= HISTORY_ARRAY_COUNT,
                self.root_history@.len() == HISTORY_ARRAY_COUNT,
                self.merkle_tree@.len() == TREE_SIZE,
                forall|k: int| 0 <= k < i ==> self.root_history@[k]@ == Seq::new(32, |j: int| 0u8),
                forall|k: int| 0 <= k < TREE_SIZE ==> self.merkle_tree@[k]@ == Seq::new(32, |j: int| 0u8),
                self.next_commitment == 0,
                self.trees_count == old(self).trees_count,
            decreases HISTORY_ARRAY_COUNT - i,
        {
            let zero = [0u8; 32];
            assert(zero@ =~= Seq::new(32, |j: int| 0u8));
            self.root_history.set(i, zero);
            i += 1;
        }
        self.nullifier_account = None;
    }

    /// The index of the active tree.
    pub fn get_trees_count(&self) -> (r: u32)
        ensures
            r == self.trees_count,
    {
        self.trees_count
    }

    /// The number of commitments inserted into the active tree.
    pub fn get_next_commitment_ptr(&self) -> (r: u32)
        requires
            self.wf(),
        ensures
            r == self.next_commitment,
    {
        self.next_commitment as u32
    }

    /// Whether a leaf equal to `commitment` is already in the active tree.
    fn has_leaf(&self, commitment: &U256) -> (r: bool)
        requires
            self.wf(),
        ensures
            r <==> exists|j: int|
                0 <= j < self.next_commitment && (#[trigger] self.merkle_tree@[
                    TREE_COMMITMENT_START + j
                ])@ == commitment@,
    {
        let count = self.next_commitment as usize;
        let mut j: usize = 0;
        while j < count
            invariant
                self.wf(),
                count == self.next_commitment,
                j <= count,
                forall|k: int|
                    0 <= k < j ==> (#[trigger] self.merkle_tree@[TREE_COMMITMENT_START + k])@
                        != commitment@,
            decreases count - j,
        {
            if u256_eq(&self.merkle_tree[TREE_COMMITMENT_START + j], commitment) {
                return true;
            }
            j += 1;
        }
        false
    }

    /// Whether there is room for `commitment` and no equal leaf yet.
    pub fn can_insert_commitment(&self, commitment: U256) -> (r: Result<(), ElusivError>)
        requires
            self.wf(),
        ensures
            match r {
                Ok(()) => {
                    &&& self.next_commitment < TREE_COMMITMENT_COUNT
                    &&& !exists|j: int|
                        0 <= j < self.next_commitment && (#[trigger] self.merkle_tree@[
                            TREE_COMMITMENT_START + j
                        ])@ == commitment@
                },
                Err(e) => {
                    &&& (self.next_commitment >= TREE_COMMITMENT_COUNT ==> e
                        == ElusivError::NoRoomForCommitment)
                    &&& (self.next_commitment < TREE_COMMITMENT_COUNT ==> e
                        == ElusivError::CommitmentAlreadyExists && exists|j: int|
                        0 <= j < self.next_commitment && (#[trigger] self.merkle_tree@[
                            TREE_COMMITMENT_START + j
                        ])@ == commitment@)
                },
            },
    {
        if !(self.next_commitment < TREE_COMMITMENT_COUNT as u64) {
            return Err(ElusivError::NoRoomForCommitment);
        }
        if self.has_leaf(&commitment) {
            return Err(ElusivError::CommitmentAlreadyExists);
        }
        Ok(())
    }

    /// The node `index` of `layer`; fails on an address outside the tree.
    pub fn get_tree_node(&self, layer: usize, index: usize) -> (r: Result<U256, ElusivError>)
        requires
            self.wf(),
        ensures
            match r {
                Ok(node) => {
                    &&& layer <= TREE_HEIGHT
                    &&& index <= (1usize << layer)
                    &&& node@ == self.merkle_tree@[spec_tree_array_index(layer, index)]@
                },
                Err(e) => {
                    &&& e == ElusivError::InvalidMerkleTreeAccess
                    &&& (layer > TREE_HEIGHT || index > (1usize << layer))
                },
            },
    {
        if layer > TREE_HEIGHT {
            return Err(ElusivError::InvalidMerkleTreeAccess);
        }
        if index > size_of_tree_layer(layer) {
            return Err(ElusivError::InvalidMerkleTreeAccess);
        }
        let flat = tree_array_index(layer, index);
        proof {
            assert(spec_tree_array_index(layer, index) < TREE_SIZE as int) by (bit_vector)
                requires layer <= 16, index <= (1usize << layer);
        }
        Ok(self.merkle_tree[flat])
    }

    /// Writes the node `index` of `layer`; fails on an address outside the
    /// tree.
    pub fn set_tree_node(&mut self, layer: usize, index: usize, value: U256) -> (r: Result<
        (),
        ElusivError,
    >)
        requires
            old(self).wf(),
        ensures
            final(self).wf(),
            match r {
                Ok(()) => {
                    &&& layer <= TREE_HEIGHT
                    &&& index <= (1usize << layer)
                    &&& final(self).merkle_tree@ == old(self).merkle_tree@.update(
                        spec_tree_array_index(layer, index),
                        value,
                    )
                    &&& *final(self) == (StorageAccount {
                        merkle_tree: final(self).merkle_tree,
                        ..*old(self)
                    })
                },
                Err(e) => {
                    &&& e == ElusivError::InvalidMerkleTreeAccess
                    &&& (layer > TREE_HEIGHT || index > (1usize << layer))
                    &&& *final(self) == *old(self)
                },
            },
    {
        if layer > TREE_HEIGHT {
            return Err(ElusivError::InvalidMerkleTreeAccess);
        }
        if index > size_of_tree_layer(layer) {
            return Err(ElusivError::InvalidMerkleTreeAccess);
        }
        let flat = tree_array_index(layer, index);
        proof {
            assert(spec_tree_array_index(layer, index) < TREE_SIZE as int) by (bit_vector)
                requires layer <= 16, index <= (1usize << layer);
        }
        self.merkle_tree.set(flat, value);
        Ok(())
    }

    /// The sibling path of leaf `index`, bottom layer first: the leaf's
    /// neighbour, then one sibling node per layer up to the root's child.
    pub fn get_tree_opening(&self, index: usize) -> (r: Result<Vec<U256>, ElusivError>)
        requires
            self.wf(),
        ensures
            match r {
                Ok(opening) => {
                    &&& index <= 1
                    &&& opening@.len() == TREE_HEIGHT
                    &&& opening@[0]@ == self.merkle_tree@[spec_tree_array_index(
                        TREE_HEIGHT,
                        if index == 0 { 1usize } else { 0usize },
                    )]@
                    &&& forall|i: int|
                        1 <= i < TREE_HEIGHT ==> (#[trigger] opening@[i])@ == self.merkle_tree@[
                            spec_tree_array_index((TREE_HEIGHT - i) as usize, 1)
                        ]@
                },
                Err(e) => e == ElusivError::InvalidMerkleTreeAccess && index > 1,
            },
    {
        if index > 1 {
            return Err(ElusivError::InvalidMerkleTreeAccess);
        }
        let mut opening: Vec<U256> = Vec::new();
        let mut idx = index;
        let mut i: usize = 0;
        while i < TREE_HEIGHT
            invariant
                self.wf(),
                i <= TREE_HEIGHT,
                opening@.len() == i,
                idx <= 1,
                index <= 1,
                i == 0 ==> idx == index,
                i >= 1 ==> idx == 0,
                i >= 1 ==> opening@[0]@ == self.merkle_tree@[spec_tree_array_index(
                    TREE_HEIGHT,
                    if index == 0 { 1usize } else { 0usize },
                )]@,
                forall|k: int|
                    1 <= k < i ==> (#[trigger] opening@[k])@ == self.merkle_tree@[
                        spec_tree_array_index((TREE_HEIGHT - k) as usize, 1)
                    ]@,
            decreases TREE_HEIGHT - i,
        {
            let layer = TREE_HEIGHT - i;
            let n_index = if idx % 2 == 0 {
                idx + 1
            } else {
                idx - 1
            };
            proof {
                assert(2 <= (1usize << layer)) by (bit_vector)
                    requires 1 <= layer <= 16;
            }
            match self.get_tree_node(layer, n_index) {
                Ok(node) => opening.push(node),
                Err(_) => {
                    assert(false);
                },
            }
            idx = idx / 2;
            i += 1;
        }
        Ok(opening)
    }

    /// Inserts a commitment and the recomputed hashes above it: `values`
    /// holds the leaf first and then one node per layer up to the root.
    /// The displaced root is recorded in the history. Succeeds exactly
    /// when the tree has room and no equal leaf.
    pub fn insert_commitment(&mut self, values: &Vec<U256>) -> (r: Result<(), ElusivError>)
        requires
            old(self).wf(),
            values@.len() == TREE_HEIGHT + 1,
        ensures
            final(self).wf(),
            r is Ok <==> (old(self).next_commitment < TREE_COMMITMENT_COUNT && !exists|j: int|
                0 <= j < old(self).next_commitment && (#[trigger] old(self).merkle_tree@[
                    TREE_COMMITMENT_START + j
                ])@ == values@[0]@),
            old(self).next_commitment >= TREE_COMMITMENT_COUNT ==> r == Err::<(), ElusivError>(
                ElusivError::NoRoomForCommitment,
            ),
            r is Err ==> (r == Err::<(), ElusivError>(ElusivError::NoRoomForCommitment) || r
                == Err::<(), ElusivError>(ElusivError::CommitmentAlreadyExists)),
            r is Ok ==> {
                &&& final(self).next_commitment == old(self).next_commitment + 1
                &&& old(self).next_commitment < TREE_COMMITMENT_COUNT
                &&& final(self).root_history@[old(self).next_commitment as int
                    % HISTORY_ARRAY_COUNT as int]@ == old(self).spec_root_node()
                &&& forall|i: int|
                    0 <= i <= TREE_HEIGHT ==> (#[trigger] final(self).merkle_tree@[
                        spec_tree_array_index(
                            (TREE_HEIGHT - i) as usize,
                            (old(self).next_commitment as usize) >> (i as usize),
                        )
                    ])@ == values@[i]@
            },
            r is Err ==> *final(self) == *old(self),
    {
        let leaf_index = self.next_commitment as usize;
        let commitment = values[0];
        match self.can_insert_commitment(commitment) {
            Ok(()) => {},
            Err(e) => {
                return Err(e);
            },
        }
        let root = match self.get_tree_node(0, 0) {
            Ok(v) => v,
            Err(_) => {
                proof {
                    assert((1usize << 0usize) == 1usize) by (bit_vector);
                }
                assert(false);
                [0; 32]
            },
        };
        let history_index = leaf_index % HISTORY_ARRAY_COUNT;
        proof {
            assert((1usize << 0) == 1usize) by (bit_vector);
            assert(root@ == old(self).spec_root_node());
        }
        self.root_history.set(history_index, root);
        assert(self.root_history@[old(self).next_commitment as int % HISTORY_ARRAY_COUNT as int]@
            == old(self).spec_root_node());
        let mut i: usize = 0;
        while i < TREE_HEIGHT + 1
            invariant
                self.wf(),
                i <= TREE_HEIGHT + 1,
                leaf_index < TREE_COMMITMENT_COUNT,
                leaf_index == old(self).next_commitment,
                values@.len() == TREE_HEIGHT + 1,
                self.next_commitment == old(self).next_commitment,
                self.trees_count == old(self).trees_count,
                self.nullifier_account == old(self).nullifier_account,
                self.root_history@.len() == HISTORY_ARRAY_COUNT,
                self.root_history@[old(self).next_commitment as int
                    % HISTORY_ARRAY_COUNT as int]@ == old(self).spec_root_node(),
                forall|k: int|
                    0 <= k < i ==> (#[trigger] self.merkle_tree@[
                        spec_tree_array_index(
                            (TREE_HEIGHT - k) as usize,
                            leaf_index >> (k as usize),
                        )
                    ])@ == values@[k]@,
            decreases TREE_HEIGHT + 1 - i,
        {
            let layer = TREE_HEIGHT - i;
            let node_index = leaf_index >> i;
            proof {
                assert((leaf_index >> i) <= 65536) by (bit_vector)
                    requires leaf_index < 65536;
            }
            let ghost pre_tree = self.merkle_tree@;
            match self.set_tree_node(layer, node_index, values[i]) {
                Ok(()) => {},
                Err(_) => {
                    proof {
                        assert((leaf_index >> i) <= (1usize << ((16 - i) as usize))) by (bit_vector)
                            requires leaf_index < 65536, i <= 16;
                    }
                    assert(false);
                },
            }
            proof {
                // Each write lands strictly below every earlier one: the
                // flat index of a node shrinks as the layer rises.
                assert forall|k: int|
                    0 <= k < i implies spec_tree_array_index(
                    (TREE_HEIGHT - i) as usize,
                    leaf_index >> (i as usize),
                ) < #[trigger] spec_tree_array_index(
                    (TREE_HEIGHT - k) as usize,
                    leaf_index >> (k as usize),
                ) by {
                    let ku = k as usize;
                    assert(((1usize << ((16 - i) as usize)) - 1 + (leaf_index >> i)) < ((1usize
                        << ((16 - ku) as usize)) - 1 + (leaf_index >> ku))) by (bit_vector)
                        requires
                            ku < i <= 16,
                            leaf_index < 65536,
                    ;
                }
                assert(((1usize << ((16 - i) as usize)) - 1 + (leaf_index >> i)) < 131072
                    && (1usize << ((16 - i) as usize)) >= 1) by (bit_vector)
                    requires
                        i <= 16,
                        leaf_index < 65536,
                ;
                assert forall|k: int|
                    0 <= k < i + 1 implies (#[trigger] self.merkle_tree@[
                    spec_tree_array_index(
                        (TREE_HEIGHT - k) as usize,
                        leaf_index >> (k as usize),
                    )
                ])@ == values@[k]@ by {
                    assert(self.merkle_tree@ == pre_tree.update(
                        spec_tree_array_index(
                            (TREE_HEIGHT - i as int) as usize,
                            leaf_index >> (i as int as usize),
                        ),
                        values@[i as int],
                    ));
                    if k < i {
                        let ku = k as usize;
                        assert(((1usize << ((16 - ku) as usize)) - 1 + (leaf_index >> ku))
                            < 131072 && (1usize << ((16 - ku) as usize)) >= 1) by (bit_vector)
                            requires
                                ku <= 16,
                                leaf_index < 65536,
                        ;
                        assert((pre_tree[spec_tree_array_index(
                            (TREE_HEIGHT - k) as usize,
                            leaf_index >> (k as usize),
                        )])@ == values@[k]@);
                        assert(spec_tree_array_index(
                            (TREE_HEIGHT - i) as usize,
                            leaf_index >> (i as usize),
                        ) < spec_tree_array_index(
                            (TREE_HEIGHT - k) as usize,
                            leaf_index >> (k as usize),
                        ));
                    }
                }
            }
            i += 1;
        }
        self.next_commitment = self.next_commitment + 1;
        Ok(())
    }

    /// Whether `root` is acceptable for the active tree as seen by this
    /// storage together with its active nullifier set: the current root or
    /// a recorded past root when the set is the active one, else the
    /// archived root of the set.
    pub fn is_root_valid(
        &self,
        nullifier_account: &NullifierAccount,
        root: U256,
    ) -> (r: Result<(), ElusivError>)
        requires
            self.wf(),
        ensures
            match r {
                Ok(()) => self.nullifier_account matches Some(active)
                    && (active@ == nullifier_account.key@ && self.spec_is_root_known(root@))
                    || nullifier_account.root@ == root@,
                Err(e) => {
                    &&& e == ElusivError::InvalidMerkleRoot
                    &&& nullifier_account.root@ != root@
                    &&& !(self.nullifier_account matches Some(active) && active@
                        == nullifier_account.key@ && self.spec_is_root_known(root@))
                },
            },
    {
        let is_active = match &self.nullifier_account {
            Some(active) => u256_eq(active, &nullifier_account.get_key()),
            None => false,
        };
        if is_active {
            if self.is_root_known(&root) {
                return Ok(());
            }
        }
        if u256_eq(&nullifier_account.get_root(), &root) {
            return Ok(());
        }
        Err(ElusivError::InvalidMerkleRoot)
    }

    /// Whether `root` (canonical form) is the current root of the active
    /// tree or one of its recorded past roots.
    pub fn is_root_known(&self, root: &U256) -> (r: bool)
        requires
            self.wf(),
        ensures
            r == self.spec_is_root_known(root@),
    {
        let root_node = self.merkle_tree[0];
        let current: U256 = if crate::bytes::is_zero(root_node.as_slice()) {
            let reduced = reduce_mr(&EMPTY_TREE_ROOT_RAW);
            assert(root_node@ =~= Seq::new(32, |i: int| 0u8));
            reduced
        } else {
            assert(root_node@ != Seq::new(32, |i: int| 0u8)) by {
                assert(exists|j: int| 0 <= j < 32 && root_node@[j] != 0);
                let j = choose|j: int| 0 <= j < 32 && root_node@[j] != 0;
                assert(Seq::new(32, |i: int| 0u8)[j] == 0);
            }
            root_node
        };
        if u256_eq(&current, root) {
            return true;
        }
        let limit: usize = if self.next_commitment < HISTORY_ARRAY_COUNT as u64 {
            self.next_commitment as usize
        } else {
            HISTORY_ARRAY_COUNT
        };
        let mut j: usize = 0;
        while j < limit
            invariant
                self.wf(),
                j <= limit,
                limit == self.spec_history_len(),
                forall|k: int| 0 <= k < j ==> self.root_history@[k]@ != root@,
            decreases limit - j,
        {
            if u256_eq(&self.root_history[j], root) {
                return true;
            }
            j += 1;
        }
        false
    }

    /// The key of the active nullifier set, or an error while none is
    /// attached.
    pub fn try_get_nullifier_account(&self) -> (r: Result<U256, ElusivError>)
        ensures
            match r {
                Ok(key) => self.nullifier_account matches Some(k) && key == k,
                Err(e) => self.nullifier_account is None && e
                    == ElusivError::NullifierAccountDoesNotExist,
            },
    {
        match &self.nullifier_account {
            Some(key) => Ok(*key),
            None => Err(ElusivError::NullifierAccountDoesNotExist),
        }
    }
}

} // verus!
