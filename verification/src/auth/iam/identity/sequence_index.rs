//! The sequence id index of identities, with the index data of the
//! identity store's entries.
use vstd::prelude::*;
use super::{IdentityData, IdentityEntity};
use super::index_sequence::spec_sequence_index_keys;
use crate::auth::identity::manager::identity::{IdentityIndexData, IdentityIndexedId};
use crate::azure_utils::TableEntity;
use crate::text::{decimal_string, push_decimal, push_str, string_from_chars};

verus! {

/// Data associated to an identity index by the sequence id
#[derive(Debug)]
pub struct SequenceIndexData {
    pub indexed_id: IdentityIndexedId,
}

impl IdentityIndexData for SequenceIndexData {
    open spec fn spec_id(&self) -> Seq<char> {
        self.indexed_id.identity_id@
    }

    fn id(&self) -> (r: &str) {
        self.indexed_id.identity_id.as_str()
    }
}

/// Index identity by the sequence id
#[derive(Debug)]
pub struct SequenceIndex(pub TableEntity<SequenceIndexData>);

impl SequenceIndex {
    /// Keys of the sequence index entry: the partition is chosen by the last
    /// two decimal digits of the sequence id.
    pub fn entity_keys(sequence_id: u64) -> (r: (String, String))
        ensures
            (r.0@, r.1@) == spec_sequence_index_keys(sequence_id),
    {
        let mut p: Vec<char> = Vec::new();
        push_str(&mut p, "x_seq-");
        push_decimal(&mut p, sequence_id % 100);
        (string_from_chars(&p), decimal_string(sequence_id))
    }

    /// The sequence index entry of an identity.
    pub fn from_identity<D: IdentityData>(identity: &IdentityEntity<D>) -> (r: Self)
        ensures
            (r.0.partition_key@, r.0.row_key@) == spec_sequence_index_keys(identity.0.payload.spec_core().sequence_id),
            r.0.etag is None,
            r.0.timestamp is None,
            r.0.payload.indexed_id.identity_id@ == identity.0.payload.spec_core().id@,
    {
        let core = identity.core_data();
        let (partition_key, row_key) = Self::entity_keys(core.sequence_id);
        SequenceIndex(TableEntity {
            partition_key,
            row_key,
            etag: None,
            timestamp: None,
            payload: SequenceIndexData { indexed_id: IdentityIndexedId { identity_id: core.id.clone() } },
        })
    }

    /// Create Self from the stored table entity
    pub fn from_entity(entity: TableEntity<SequenceIndexData>) -> (r: Self)
        ensures
            r.0 == entity,
    {
        SequenceIndex(entity)
    }

    /// Create a the table entity to store from Self
    pub fn into_entity(self) -> (r: TableEntity<SequenceIndexData>)
        ensures
            r == self.0,
    {
        self.0
    }

    /// Return the associated data
    pub fn into_data(self) -> (r: SequenceIndexData)
        ensures
            r == self.0.payload,
    {
        self.0.payload
    }

    /// Return the data associated to the index (and not to the identity)
    pub fn data(&self) -> (r: &SequenceIndexData)
        ensures
            *r == self.0.payload,
    {
        &self.0.payload
    }

    /// The unique key to index
    pub fn index_key(&self) -> (r: &str)
        ensures
            r@ == self.0.row_key@,
    {
        self.0.row_key.as_str()
    }
}

} // verus!
