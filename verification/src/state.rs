use crate::errors::CounterError;
use vstd::bytes::{
    lemma_auto_spec_u32_to_from_le_bytes, spec_u32_from_le_bytes, spec_u32_to_le_bytes,
    u32_from_le_bytes, u32_to_le_bytes,
};
use vstd::prelude::*;

verus! {

/// Length in bytes of a persisted counter record: a single little-endian
/// `u32`, no header, no versioning.
pub const STATE_LEN: usize = 4;

/// The entire persisted state: a single unsigned 32-bit counter.
#[derive(Debug, Clone, Copy, PartialEq, Eq, Structural)]
pub struct CounterAccount {
    pub counter: u32,
}

impl CounterAccount {
    /// What `try_from_slice` returns on every byte region: a record is
    /// exactly four little-endian bytes; any other length is corrupt.
    pub open spec fn spec_try_from_slice(data: Seq<u8>) -> Result<CounterAccount, CounterError> {
        if data.len() == STATE_LEN {
            Ok(CounterAccount { counter: spec_u32_from_le_bytes(data) })
        } else {
            Err(CounterError::CorruptState)
        }
    }

    /// The byte encoding of a counter record: the counter value as four
    /// little-endian bytes.
    pub open spec fn spec_serialize(self) -> Seq<u8> {
        spec_u32_to_le_bytes(self.counter)
    }

    /// Read a counter record out of a state region.
    ///
    /// Fails with `CorruptState` unless the region is exactly four bytes.
    pub fn try_from_slice(data: &[u8]) -> (r: Result<CounterAccount, CounterError>)
        ensures
            r == Self::spec_try_from_slice(data@),
    {
        if data.len() != STATE_LEN {
            return Err(CounterError::CorruptState);
        }
        let counter: u32 = u32_from_le_bytes(data);
        Ok(CounterAccount { counter })
    }

    /// Encode the counter record back into the binary layout it is read
    /// from: four little-endian bytes.
    pub fn serialize(&self) -> (r: Vec<u8>)
        ensures
            r@ == self.spec_serialize(),
            r@.len() == STATE_LEN,
    {
        u32_to_le_bytes(self.counter)
    }
}

/// Law: reading a record back from its own encoding recovers the record,
/// and encoding what was read from a well-formed region recovers the region.
pub proof fn lemma_state_round_trip(account: CounterAccount, data: Seq<u8>)
    ensures
        CounterAccount::spec_try_from_slice(account.spec_serialize()) == Ok::<
            CounterAccount,
            CounterError,
        >(account),
        data.len() == STATE_LEN ==> (CounterAccount::spec_try_from_slice(data) matches Ok(a)
            && a.spec_serialize() == data),
{
    lemma_auto_spec_u32_to_from_le_bytes();
}

} // verus!
