use vstd::prelude::*;
use super::IdSequenceError;

verus! {

/// Where the counters of the sequence are stored.
#[derive(Clone, Debug)]
pub struct SyncCounterConfig {
    pub storage_account: String,
    pub storage_account_key: String,
    pub table_name: String,
}

/// Counters kept in table storage; ranges of ids are reserved from them.
#[derive(Clone, Debug)]
pub struct SyncCounterStore {
    pub table_name: String,
}

impl SyncCounterStore {
    /// The first id of a reserved range `start..end`, or `SequenceEnded` when
    /// the range is empty.
    pub fn get(range_start: u64, range_end: u64) -> (r: Result<u64, IdSequenceError>)
        ensures
            range_start < range_end ==> r == Ok::<u64, IdSequenceError>(range_start),
            range_start >= range_end ==> r matches Err(IdSequenceError::SequenceEnded),
    {
        if range_start < range_end {
            Ok(range_start)
        } else {
            Err(IdSequenceError::SequenceEnded)
        }
    }
}

} // verus!
