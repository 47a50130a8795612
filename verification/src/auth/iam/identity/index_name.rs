use vstd::prelude::*;
use super::{CoreIdentityIndexedData, EncodedName, IdentityData, IdentityEntity, IndexIdentityData, IndexIdentityEntity};
use crate::azure_utils::TableEntity;
use crate::text::{concat_str, to_owned_string};

verus! {

/// Data associated to an identity index by name
#[derive(Debug, Clone)]
pub struct IndexNameData {
    pub indexed_id: CoreIdentityIndexedData,
}

impl IndexIdentityData for IndexNameData {
    open spec fn spec_id(&self) -> Seq<char> {
        self.indexed_id.identity_id@
    }

    fn id(&self) -> (r: &str) {
        self.indexed_id.identity_id.as_str()
    }
}

/// Index identity by name
pub type IndexName = IndexIdentityEntity<IndexNameData>;

/// Keys of the name index entry of an escaped name: the partition is named
/// after its first two characters.
pub open spec fn spec_name_index_keys(name: Seq<char>) -> (Seq<char>, Seq<char>) {
    ("x_name-"@ + name.take(2), name)
}

impl IndexIdentityEntity<IndexNameData> {
    pub fn entity_keys(name: &EncodedName) -> (r: (String, String))
        ensures
            (r.0@, r.1@) == spec_name_index_keys(name@),
    {
        proof {
            use_type_invariant(name);
            name.lemma_len();
        }
        (concat_str("x_name-", name.prefix(2)), to_owned_string(name.as_str()))
    }

    /// The name index entry of an identity.
    pub fn from_identity<D: IdentityData>(identity: &IdentityEntity<D>) -> (r: Self)
        ensures
            (r.0.partition_key@, r.0.row_key@) == spec_name_index_keys(identity.0.payload.spec_core().name@),
            r.0.etag is None,
            r.0.timestamp is None,
            r.0.payload.indexed_id.identity_id@ == identity.0.payload.spec_core().id@,
    {
        let core = identity.core_data();
        let (partition_key, row_key) = Self::entity_keys(&core.name);
        Self(TableEntity {
            partition_key,
            row_key,
            etag: None,
            timestamp: None,
            payload: IndexNameData { indexed_id: CoreIdentityIndexedData { identity_id: core.id.clone() } },
        })
    }
}

} // verus!
