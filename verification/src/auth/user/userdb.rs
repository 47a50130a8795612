//! The user tables of the first user service.
use vstd::prelude::*;
use crate::azure_utils::StorageError;

verus! {

/// The storage account of the user tables.
#[derive(Debug, Clone)]
pub struct IdentityConfig {
    pub storage_account: String,
    pub storage_account_key: String,
}

/// The outcome of creating a table: a conflict (409, the table exists
/// already) counts as success, any other failure stays.
pub fn ignore_409(err: StorageError) -> (r: Result<(), StorageError>)
    ensures
        err == StorageError::UnexpectedStatus(409) ==> r is Ok,
        err != StorageError::UnexpectedStatus(409) ==> r == Err::<(), StorageError>(err),
{
    match err {
        StorageError::UnexpectedStatus(code) => {
            if code == 409 {
                Ok(())
            } else {
                Err(StorageError::UnexpectedStatus(code))
            }
        },
        e => Err(e),
    }
}

} // verus!
