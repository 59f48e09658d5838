//! The error space of the protocol core.

use vstd::prelude::*;

verus! {

/// Every failure a core operation can report.
#[derive(Clone, Copy, Debug, PartialEq, Eq, Structural)]
pub enum ElusivError {
    /// An account's identity does not match the expected one.
    InvalidAccount,
    /// A lifecycle precondition was violated.
    InvalidAccountState,
    /// The join-split public-input invariants are violated.
    InvalidPublicInputs,
    /// A root check against storage or an archived tree failed.
    InvalidMerkleRoot,
    /// A merge request carried a nonzero amount.
    InvalidAmount,
    /// External calldata or asserted finalize data does not match.
    InvalidInstructionData,
    /// The request's fee version differs from the governor's.
    InvalidFeeVersion,
    /// The round counter or verdict is already past the end.
    ComputationIsAlreadyFinished,
    /// A verdict was demanded before the computation produced one.
    ComputationIsNotYetFinished,
    /// The nullifier hash is already present in its set.
    CouldNotInsertNullifier,
    /// The requested feature (archived-tree migration) is unavailable.
    FeatureNotAvailable,
    /// An unrecoverable arithmetic error inside the verifier.
    CouldNotProcessProof,
    /// The commitment is already a leaf of the active tree.
    CommitmentAlreadyExists,
    /// The active tree has no room for another commitment.
    NoRoomForCommitment,
    /// A tree node outside the tree was addressed.
    InvalidMerkleTreeAccess,
    /// The storage account has no active nullifier account.
    NullifierAccountDoesNotExist,
    /// A hashing account was reset while still active.
    AccountCannotBeReset,
    /// A queue is at capacity.
    QueueIsFull,
    /// An account holds too few lamports or tokens for a transfer.
    InsufficientFunds,
    /// A byte buffer is too short or malformed.
    InvalidArgument,
}

impl ElusivError {
    /// A short stable description, usable where `Display` would be.
    pub fn as_str(&self) -> String {
        match self {
            ElusivError::InvalidAccount => "invalid account".to_string(),
            ElusivError::InvalidAccountState => "invalid account state".to_string(),
            ElusivError::InvalidPublicInputs => "invalid public inputs".to_string(),
            ElusivError::InvalidMerkleRoot => "invalid merkle root".to_string(),
            ElusivError::InvalidAmount => "invalid amount".to_string(),
            ElusivError::InvalidInstructionData => "invalid instruction data".to_string(),
            ElusivError::InvalidFeeVersion => "invalid fee version".to_string(),
            ElusivError::ComputationIsAlreadyFinished => "computation is already finished".to_string(),
            ElusivError::ComputationIsNotYetFinished => "computation is not yet finished".to_string(),
            ElusivError::CouldNotInsertNullifier => "could not insert nullifier".to_string(),
            ElusivError::FeatureNotAvailable => "feature not available".to_string(),
            ElusivError::CouldNotProcessProof => "could not process proof".to_string(),
            ElusivError::CommitmentAlreadyExists => "commitment already exists".to_string(),
            ElusivError::NoRoomForCommitment => "no room for commitment".to_string(),
            ElusivError::InvalidMerkleTreeAccess => "invalid merkle tree access".to_string(),
            ElusivError::NullifierAccountDoesNotExist => "nullifier account does not exist".to_string(),
            ElusivError::AccountCannotBeReset => "account cannot be reset".to_string(),
            ElusivError::QueueIsFull => "queue is full".to_string(),
            ElusivError::InsufficientFunds => "insufficient funds".to_string(),
            ElusivError::InvalidArgument => "invalid argument".to_string(),
        }
    }
}

} // verus!
