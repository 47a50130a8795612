use vstd::prelude::*;
use crate::azure_utils::StorageError;
use crate::text::{push_str, string_from_chars, str_chars};

verus! {

/// Failure of the id sequence.
#[derive(Debug, Clone)]
pub enum IdSequenceError {
    /// Database related error
    DB(String),
    /// Sequence is out of id
    SequenceEnded,
}

/// The text that describes an id sequence failure.
pub open spec fn spec_id_sequence_error_text(err: IdSequenceError) -> Seq<char> {
    match err {
        IdSequenceError::DB(e) => "DB, "@ + e@,
        IdSequenceError::SequenceEnded => "Sequence is out of id"@,
    }
}

impl IdSequenceError {
    /// The text that describes the failure.
    pub fn to_display_string(&self) -> (s: String)
        ensures
            s@ == spec_id_sequence_error_text(*self),
    {
        match self {
            IdSequenceError::DB(e) => {
                let mut v: Vec<char> = Vec::new();
                push_str(&mut v, "DB, ");
                let ev = str_chars(e.as_str());
                crate::text::push_chars(&mut v, &ev);
                string_from_chars(&v)
            },
            IdSequenceError::SequenceEnded => "Sequence is out of id".to_owned(),
        }
    }

    /// The failure reported for an error of the table storage.
    pub fn from_storage_error(err: &StorageError) -> (r: IdSequenceError)
        ensures
            r matches IdSequenceError::DB(m) && m@ == err.spec_describe(),
    {
        IdSequenceError::DB(err.describe())
    }
}

} // verus!
