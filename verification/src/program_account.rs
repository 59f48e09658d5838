//! The leading records shared by program-owned accounts.

use vstd::prelude::*;
use crate::U256;
use crate::error::ElusivError;

verus! {

/// An account type with a known serialized size.
pub trait SizedAccount {
    /// The serialized size in bytes.
    fn size() -> usize;
}

/// The identity record every program-derived account starts with.
#[derive(Clone, Copy)]
pub struct PDAAccountData {
    pub bump_seed: u8,
    /// Reserved for account migrations.
    pub version: u8,
    /// Only meaningful for account types that use it.
    pub initialized: bool,
}

/// The serialized size of a `PDAAccountData` record.
pub const PDA_ACCOUNT_DATA_SIZE: usize = 3;

impl SizedAccount for PDAAccountData {
    fn size() -> (r: usize) {
        PDA_ACCOUNT_DATA_SIZE
    }
}

impl PDAAccountData {
    /// Parses the record from the start of an account's bytes.
    pub fn new(data: &[u8]) -> (r: Result<Self, ElusivError>)
        ensures
            match r {
                Ok(d) => {
                    &&& data@.len() >= PDA_ACCOUNT_DATA_SIZE
                    &&& d.bump_seed == data@[0]
                    &&& d.version == data@[1]
                    &&& d.initialized == (data@[2] == 1)
                },
                Err(e) => data@.len() < PDA_ACCOUNT_DATA_SIZE && e == ElusivError::InvalidArgument,
            },
    {
        if data.len() < PDA_ACCOUNT_DATA_SIZE {
            return Err(ElusivError::InvalidArgument);
        }
        Ok(
            PDAAccountData {
                bump_seed: data[0],
                version: data[1],
                initialized: data[2] == 1,
            },
        )
    }
}

/// The record of an account whose data is spread over `COUNT` subsidiary
/// accounts: the keys of the subsidiaries, each optional while unassigned.
pub struct MultiAccountAccountData<const COUNT: usize> {
    pub pubkeys: Vec<Option<U256>>,
}

impl<const COUNT: usize> MultiAccountAccountData<COUNT> {
    pub open spec fn wf(&self) -> bool {
        self.pubkeys@.len() == COUNT
    }

    /// Parses the record from the bytes following the identity record: one
    /// tag byte and 32 key bytes per subsidiary.
    pub fn new(data: &[u8]) -> (r: Result<Self, ElusivError>)
        requires
            COUNT <= 1000,
        ensures
            match r {
                Ok(d) => data@.len() >= PDA_ACCOUNT_DATA_SIZE + 33 * COUNT && d.wf(),
                Err(e) => data@.len() < PDA_ACCOUNT_DATA_SIZE + 33 * COUNT && e
                    == ElusivError::InvalidArgument,
            },
    {
        if data.len() < PDA_ACCOUNT_DATA_SIZE + 33 * COUNT {
            return Err(ElusivError::InvalidArgument);
        }
        let mut pubkeys: Vec<Option<U256>> = Vec::new();
        let mut i: usize = 0;
        while i < COUNT
            invariant
                i <= COUNT,
                COUNT <= 1000,
                pubkeys@.len() == i,
                data@.len() >= PDA_ACCOUNT_DATA_SIZE + 33 * COUNT,
            decreases COUNT - i,
        {
            let start = PDA_ACCOUNT_DATA_SIZE + 33 * i;
            assert(start + 33 <= data@.len()) by (nonlinear_arith)
                requires
                    i < COUNT,
                    start == PDA_ACCOUNT_DATA_SIZE + 33 * i,
                    data@.len() >= PDA_ACCOUNT_DATA_SIZE + 33 * COUNT,
            ;
            if data[start] == 1 {
                let word = vstd::slice::slice_subrange(data, start + 1, start + 33);
                pubkeys.push(Some(crate::bytes::deserialize_u256(word)));
            } else {
                pubkeys.push(None);
            }
            i += 1;
        }
        Ok(MultiAccountAccountData { pubkeys })
    }
}

/// An account type that can exist in several instances, one per index
/// below its instance bound.
pub trait MultiInstancePDAAccount {
    /// The number of instances that may exist, as a spec-level constant.
    spec fn spec_max_instances() -> u64;

    /// The number of instances that may exist.
    fn max_instances() -> (r: u64)
        ensures
            r == Self::spec_max_instances(),
    ;

    /// Whether `index` addresses a valid instance.
    fn is_valid(&self, index: u64) -> (r: bool)
        ensures
            r == (index < Self::spec_max_instances()),
    ;
}

} // verus!
