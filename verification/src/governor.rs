//! The governor's fee configuration and the two program-owned
//! value-holding accounts: the pool (escrowed user funds) and the fee
//! collector (protocol revenue).

use vstd::prelude::*;
use crate::U256;
use crate::error::ElusivError;
use crate::token::{Lamports, SPL_TOKEN_COUNT};
use crate::program_account::PDAAccountData;

verus! {

/// A fee measured in basis points of an amount.
#[derive(Clone, Copy, PartialEq, Eq, Structural, Debug)]
pub struct BasisPointFee(pub u64);

impl BasisPointFee {
    /// The fee on `amount`.
    pub fn calc(&self, amount: u64) -> (r: u64)
        requires
            self.0 <= 10000,
        ensures
            r == (amount * self.0) / 10000,
    {
        proof {
            assert(amount as int * self.0 as int <= u64::MAX as int * 10000int)
                by (nonlinear_arith)
                requires
                    self.0 <= 10000,
                    amount <= u64::MAX,
            ;
            assert((amount as int * self.0 as int) / 10000int <= u64::MAX as int)
                by (nonlinear_arith)
                requires
                    amount as int * self.0 as int <= u64::MAX as int * 10000int,
            ;
        }
        let wide = (amount as u128) * (self.0 as u128);
        let fee = wide / 10000;
        fee as u64
    }
}

/// The per-transaction fee schedule of the protocol.
#[derive(Clone, Copy)]
pub struct ProgramFee {
    /// The network fee of one transaction.
    pub lamports_per_tx: Lamports,
    pub base_commitment_network_fee: BasisPointFee,
    pub proof_network_fee: BasisPointFee,
    pub base_commitment_subvention: Lamports,
    /// The protocol-funded discount on a proof verification.
    pub proof_subvention: Lamports,
    pub warden_hash_tx_reward: Lamports,
    pub warden_proof_reward: Lamports,
    /// The transactions a verification needs beyond input preparation.
    pub proof_base_tx_count: u64,
}

/// The number of transactions hashing one commitment batch into the tree.
pub const COMMITMENT_HASH_BASE_TX_COUNT: u64 = 24;

impl ProgramFee {
    /// The bounds under which the fee formulas cannot overflow.
    pub open spec fn wf(&self) -> bool {
        &&& self.lamports_per_tx.0 <= 0xffffffff
        &&& self.proof_base_tx_count <= 10000
        &&& self.proof_network_fee.0 <= 10000
        &&& self.base_commitment_network_fee.0 <= 10000
    }

    /// The reward for driving a verification: one transaction fee per
    /// preparation transaction and per base transaction.
    pub fn proof_verification_computation_fee(&self, input_preparation_tx_count: usize) -> (r:
        Lamports)
        requires
            self.wf(),
            input_preparation_tx_count <= 10000,
        ensures
            r.0 == self.lamports_per_tx.0 * (
                input_preparation_tx_count + self.proof_base_tx_count
            ),
    {
        let txs = (input_preparation_tx_count as u64) + self.proof_base_tx_count;
        proof {
            assert(self.lamports_per_tx.0 as int * txs as int <= 0xffffffffint * 20000int)
                by (nonlinear_arith)
                requires
                    self.lamports_per_tx.0 <= 0xffffffff,
                    txs <= 20000,
            ;
        }
        Lamports(self.lamports_per_tx.0 * txs)
    }

    /// The lamports reserved for hashing a commitment batch into the tree:
    /// one transaction fee per hashing transaction, one more per batching
    /// step.
    pub fn commitment_hash_computation_fee(&self, min_batching_rate: u32) -> (r: Lamports)
        requires
            self.wf(),
            min_batching_rate <= 10000,
        ensures
            r.0 == self.lamports_per_tx.0 * (
                COMMITMENT_HASH_BASE_TX_COUNT + min_batching_rate
            ),
    {
        let txs = COMMITMENT_HASH_BASE_TX_COUNT + (min_batching_rate as u64);
        proof {
            assert(self.lamports_per_tx.0 as int * txs as int <= 0xffffffffint * 10024int)
                by (nonlinear_arith)
                requires
                    self.lamports_per_tx.0 <= 0xffffffff,
                    txs <= 10024,
            ;
        }
        Lamports(self.lamports_per_tx.0 * txs)
    }
}

/// The governor: the current fee version, its fee schedule and the
/// commitment batching rate new requests must use.
pub struct GovernorAccount {
    pub pda_data: PDAAccountData,
    /// The current fee version; new requests are forced to use it.
    pub fee_version: u32,
    /// The fee schedule of the current version.
    pub program_fee: ProgramFee,
    /// The number of commitments in a root-hashing batch.
    pub commitment_batching_rate: u32,
    pub program_version: u32,
}

impl GovernorAccount {
    pub fn new(program_fee: ProgramFee) -> (r: Self)
        ensures
            r.fee_version == 0,
            r.program_fee == program_fee,
            r.commitment_batching_rate == 0,
    {
        GovernorAccount {
            pda_data: PDAAccountData { bump_seed: 0, version: 0, initialized: false },
            fee_version: 0,
            program_fee,
            commitment_batching_rate: 0,
            program_version: 0,
        }
    }

    pub fn get_fee_version(&self) -> (r: u32)
        ensures
            r == self.fee_version,
    {
        self.fee_version
    }

    pub fn set_fee_version(&mut self, v: &u32)
        ensures
            *final(self) == (GovernorAccount { fee_version: *v, ..*old(self) }),
    {
        self.fee_version = *v;
    }

    pub fn get_program_fee(&self) -> (r: ProgramFee)
        ensures
            r == self.program_fee,
    {
        self.program_fee
    }

    pub fn set_program_fee(&mut self, fee: &ProgramFee)
        ensures
            *final(self) == (GovernorAccount { program_fee: *fee, ..*old(self) }),
    {
        self.program_fee = *fee;
    }

    pub fn get_commitment_batching_rate(&self) -> (r: u32)
        ensures
            r == self.commitment_batching_rate,
    {
        self.commitment_batching_rate
    }
}

/// The pool: the escrow of user funds, with one registered token account
/// per supported token.
pub struct PoolAccount {
    pub pda_data: PDAAccountData,
    /// The registered token-account key per token id, starting at id 1.
    pub accounts: Vec<Option<U256>>,
}

/// The fee collector: the protocol's revenue account, with one registered
/// token account per supported token.
pub struct FeeCollectorAccount {
    pub pda_data: PDAAccountData,
    /// The registered token-account key per token id, starting at id 1.
    pub accounts: Vec<Option<U256>>,
}

/// Whether `token_account_key` is the registered token account of the
/// authority for `token_id`; the native token needs none.
pub open spec fn spec_token_authority_ok(
    accounts: Seq<Option<U256>>,
    token_account_key: Seq<u8>,
    token_id: u16,
) -> bool {
    if token_id == 0 {
        true
    } else {
        &&& 0 < token_id <= accounts.len()
        &&& accounts[token_id - 1] matches Some(k) && k@ == token_account_key
    }
}

fn check_token_authority(
    accounts: &Vec<Option<U256>>,
    token_account_key: &U256,
    token_id: u16,
) -> (r: bool)
    ensures
        r == spec_token_authority_ok(accounts@, token_account_key@, token_id),
{
    if token_id == 0 {
        return true;
    }
    if token_id as usize > accounts.len() {
        return false;
    }
    match &accounts[(token_id - 1) as usize] {
        Some(k) => crate::u256_eq(k, token_account_key),
        None => false,
    }
}

/// Checks that `pool_account_key` is the pool's registered token account
/// for `token_id` before any debit against it.
pub fn verify_pool(pool: &PoolAccount, pool_account_key: &U256, token_id: u16) -> (r: Result<
    (),
    ElusivError,
>)
    ensures
        match r {
            Ok(()) => spec_token_authority_ok(pool.accounts@, pool_account_key@, token_id),
            Err(e) => e == ElusivError::InvalidAccount && !spec_token_authority_ok(
                pool.accounts@,
                pool_account_key@,
                token_id,
            ),
        },
{
    if check_token_authority(&pool.accounts, pool_account_key, token_id) {
        Ok(())
    } else {
        Err(ElusivError::InvalidAccount)
    }
}

/// Checks that `fee_collector_account_key` is the fee collector's
/// registered token account for `token_id` before any debit against it.
pub fn verify_fee_collector(
    fee_collector: &FeeCollectorAccount,
    fee_collector_account_key: &U256,
    token_id: u16,
) -> (r: Result<(), ElusivError>)
    ensures
        match r {
            Ok(()) => spec_token_authority_ok(
                fee_collector.accounts@,
                fee_collector_account_key@,
                token_id,
            ),
            Err(e) => e == ElusivError::InvalidAccount && !spec_token_authority_ok(
                fee_collector.accounts@,
                fee_collector_account_key@,
                token_id,
            ),
        },
{
    if check_token_authority(&fee_collector.accounts, fee_collector_account_key, token_id) {
        Ok(())
    } else {
        Err(ElusivError::InvalidAccount)
    }
}

} // verus!
