//! The name index of identities, with the index data of the identity
//! store's entries.
use vstd::prelude::*;
use vstd::utf8::{encode_utf8, is_char_boundary};
use super::{IdentityData, IdentityEntity};
use crate::auth::identity::manager::identity::{IdentityIndexData, IdentityIndexedId};
use crate::azure_utils::TableEntity;
use crate::text::{byte_prefix, concat_str, spec_byte_prefix, to_owned_string};

verus! {

/// Data associated to an identity index by name
#[derive(Debug)]
pub struct NameIndexData {
    pub indexed_id: IdentityIndexedId,
}

impl IdentityIndexData for NameIndexData {
    open spec fn spec_id(&self) -> Seq<char> {
        self.indexed_id.identity_id@
    }

    fn id(&self) -> (r: &str) {
        self.indexed_id.identity_id.as_str()
    }
}

/// Keys of the name index entry of a name: the partition is named by the
/// first two bytes of the name.
pub open spec fn spec_name_keys(name: Seq<char>) -> (Seq<char>, Seq<char>) {
    ("x_name-"@ + spec_byte_prefix(name, 2), name)
}

/// Index identity by name
#[derive(Debug)]
pub struct NameIndex(pub TableEntity<NameIndexData>);

impl NameIndex {
    /// Keys of the name index entry of a name.
    pub fn entity_keys(name: &str) -> (r: (String, String))
        requires
            is_char_boundary(encode_utf8(name@), 2),
        ensures
            (r.0@, r.1@) == spec_name_keys(name@),
    {
        (concat_str("x_name-", byte_prefix(name, 2)), to_owned_string(name))
    }

    /// The name index entry of an identity.
    pub fn from_identity<D: IdentityData>(identity: &IdentityEntity<D>) -> (r: Self)
        requires
            is_char_boundary(encode_utf8(identity.0.payload.spec_core().name@), 2),
        ensures
            (r.0.partition_key@, r.0.row_key@) == spec_name_keys(identity.0.payload.spec_core().name@),
            r.0.etag is None,
            r.0.timestamp is None,
            r.0.payload.indexed_id.identity_id@ == identity.0.payload.spec_core().id@,
    {
        let core = identity.core_data();
        let (partition_key, row_key) = Self::entity_keys(core.name.as_str());
        NameIndex(TableEntity {
            partition_key,
            row_key,
            etag: None,
            timestamp: None,
            payload: NameIndexData { indexed_id: IdentityIndexedId { identity_id: core.id.clone() } },
        })
    }

    /// Create Self from the stored table entity
    pub fn from_entity(entity: TableEntity<NameIndexData>) -> (r: Self)
        ensures
            r.0 == entity,
    {
        NameIndex(entity)
    }

    /// Create a the table entity to store from Self
    pub fn into_entity(self) -> (r: TableEntity<NameIndexData>)
        ensures
            r == self.0,
    {
        self.0
    }

    /// Return the associated data
    pub fn into_data(self) -> (r: NameIndexData)
        ensures
            r == self.0.payload,
    {
        self.0.payload
    }

    /// Return the data associated to the index (and not to the identity)
    pub fn data(&self) -> (r: &NameIndexData)
        ensures
            *r == self.0.payload,
    {
        &self.0.payload
    }

    /// The unique key to index
    pub fn index_key(&self) -> (r: &str)
        ensures
            r@ == self.0.row_key@,
    {
        self.0.row_key.as_str()
    }
}

} // verus!
