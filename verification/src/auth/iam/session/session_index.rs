use vstd::prelude::*;
use vstd::utf8::{encode_utf8, is_char_boundary};
use crate::azure_utils::TableEntity;
use crate::text::{byte_prefix, concat_str, spec_byte_prefix, to_owned_string};

verus! {

/// Data associated to an session index by key
#[derive(Debug, Clone)]
pub struct SessionIndexData {
    pub identity_id: String,
}

/// Keys of the index entry of a session key: the partition is named after
/// the first two bytes of the key.
pub open spec fn spec_session_index_keys(key: Seq<char>) -> (Seq<char>, Seq<char>) {
    ("x_key-"@ + spec_byte_prefix(key, 2), key)
}

/// Index session by key
#[derive(Debug)]
pub struct SessionIndex(pub TableEntity<SessionIndexData>);

impl SessionIndex {
    pub fn entity_keys(key: &str) -> (r: (String, String))
        requires
            is_char_boundary(encode_utf8(key@), 2),
        ensures
            (r.0@, r.1@) == spec_session_index_keys(key@),
    {
        (concat_str("x_key-", byte_prefix(key, 2)), to_owned_string(key))
    }

    /// The index entry that names the identity of a session key.
    pub fn new(key: &str, id: &str) -> (r: Self)
        requires
            is_char_boundary(encode_utf8(key@), 2),
        ensures
            (r.0.partition_key@, r.0.row_key@) == spec_session_index_keys(key@),
            r.0.etag is None,
            r.0.timestamp is None,
            r.0.payload.identity_id@ == id@,
    {
        let (partition_key, row_key) = Self::entity_keys(key);
        Self(TableEntity {
            partition_key,
            row_key,
            etag: None,
            timestamp: None,
            payload: SessionIndexData { identity_id: id.to_owned() },
        })
    }

    pub fn from_entity(entity: TableEntity<SessionIndexData>) -> (r: Self)
        ensures
            r.0 == entity,
    {
        Self(entity)
    }

    pub fn into_entity(self) -> (r: TableEntity<SessionIndexData>)
        ensures
            r == self.0,
    {
        self.0
    }

    pub fn id(&self) -> (r: &str)
        ensures
            r@ == self.0.payload.identity_id@,
    {
        self.0.payload.identity_id.as_str()
    }

    pub fn key(&self) -> (r: &str)
        ensures
            r@ == self.0.row_key@,
    {
        self.0.row_key.as_str()
    }
}

} // verus!
