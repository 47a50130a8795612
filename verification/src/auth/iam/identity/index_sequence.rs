use vstd::prelude::*;
use super::{CoreIdentityIndexedData, IdentityData, IdentityEntity, IndexIdentityData, IndexIdentityEntity};
use crate::azure_utils::TableEntity;
use crate::text::{decimal_string, push_str, push_decimal, spec_decimal, string_from_chars};

verus! {

/// Data associated to an identity index by the sequence id
#[derive(Debug, Clone)]
pub struct IndexSequenceData {
    pub indexed_id: CoreIdentityIndexedData,
}

impl IndexIdentityData for IndexSequenceData {
    open spec fn spec_id(&self) -> Seq<char> {
        self.indexed_id.identity_id@
    }

    fn id(&self) -> (r: &str) {
        self.indexed_id.identity_id.as_str()
    }
}

/// Index identity by the sequence id
pub type IndexSequence = IndexIdentityEntity<IndexSequenceData>;

/// Keys of the sequence index entry: the partition is chosen by the last two
/// decimal digits of the sequence id.
pub open spec fn spec_sequence_index_keys(sequence_id: u64) -> (Seq<char>, Seq<char>) {
    ("x_seq-"@ + spec_decimal((sequence_id % 100) as nat), spec_decimal(sequence_id as nat))
}

impl IndexIdentityEntity<IndexSequenceData> {
    pub fn entity_keys(sequence_id: u64) -> (r: (String, String))
        ensures
            (r.0@, r.1@) == spec_sequence_index_keys(sequence_id),
    {
        let mut p: Vec<char> = Vec::new();
        push_str(&mut p, "x_seq-");
        push_decimal(&mut p, sequence_id % 100);
        (string_from_chars(&p), decimal_string(sequence_id))
    }

    /// The sequence index entry of an identity.
    pub fn from_identity<D: IdentityData>(identity: &IdentityEntity<D>) -> (r: Self)
        ensures
            (r.0.partition_key@, r.0.row_key@) == spec_sequence_index_keys(identity.0.payload.spec_core().sequence_id),
            r.0.etag is None,
            r.0.timestamp is None,
            r.0.payload.indexed_id.identity_id@ == identity.0.payload.spec_core().id@,
    {
        let core = identity.core_data();
        let sequence_id = core.sequence_id;
        let (partition_key, row_key) = Self::entity_keys(sequence_id);
        Self(TableEntity {
            partition_key,
            row_key,
            etag: None,
            timestamp: None,
            payload: IndexSequenceData { indexed_id: CoreIdentityIndexedData { identity_id: core.id.clone() } },
        })
    }
}

} // verus!
