use vstd::prelude::*;
use vstd::utf8::{encode_utf8, is_char_boundary};
use super::{EncodedEmail, EncodedName};
use crate::azure_utils::TableEntity;
use crate::text::{byte_prefix, concat_str, spec_byte_prefix, to_owned_string};

verus! {

/// The kind of an identity.
#[derive(Clone, Copy, Debug, PartialEq, Eq, Structural)]
pub enum IdentityCategory {
    User,
}

/// Common data associated to each identity
#[derive(Debug)]
pub struct CoreIdentityData {
    pub id: String,
    pub sequence_id: u64,
    pub salt: String,
    pub category: IdentityCategory,
    pub name: EncodedName,
    pub email: Option<EncodedEmail>,
    pub email_validated: bool,
}

/// Identity data
pub trait IdentityData {
    /// The identity core of the data.
    spec fn spec_core(&self) -> CoreIdentityData;

    /// Return the identity core, the common properties for all type of identites
    fn core_data(&self) -> (r: &CoreIdentityData)
        ensures
            *r == self.spec_core(),
    ;
}

impl IdentityData for CoreIdentityData {
    open spec fn spec_core(&self) -> CoreIdentityData {
        *self
    }

    fn core_data(&self) -> (r: &CoreIdentityData) {
        self
    }
}

/// The partition and row key of the identity with the given id: the
/// partition is named after the first two bytes of the id.
pub open spec fn spec_identity_keys(id: Seq<char>) -> (Seq<char>, Seq<char>) {
    ("id-"@ + spec_byte_prefix(id, 2), id)
}

/// An identity as stored in the table: its keys and its data.
#[derive(Debug)]
pub struct IdentityEntity<D>(pub TableEntity<D>);

impl<D: IdentityData> IdentityEntity<D> {
    /// Generate partition and row keys from the id of an identity
    pub fn entity_keys(id: &str) -> (r: (String, String))
        requires
            is_char_boundary(encode_utf8(id@), 2),
        ensures
            (r.0@, r.1@) == spec_identity_keys(id@),
    {
        (concat_str("id-", byte_prefix(id, 2)), to_owned_string(id))
    }

    /// Create Self from the stored table entity
    pub fn from_entity(entity: TableEntity<D>) -> (r: Self)
        ensures
            r.0 == entity,
    {
        Self(entity)
    }

    /// Create a the table entity to store from Self
    pub fn into_entity(self) -> (r: TableEntity<D>)
        ensures
            r == self.0,
    {
        self.0
    }

    /// Return the associated data
    pub fn into_data(self) -> (r: D)
        ensures
            r == self.0.payload,
    {
        self.0.payload
    }

    /// Return the data associated to an identity
    pub fn data(&self) -> (r: &D)
        ensures
            *r == self.0.payload,
    {
        &self.0.payload
    }

    /// Return the mutable data associated to an identity
    pub fn data_mut(&mut self) -> (r: &mut D)
        ensures
            *r == old(self).0.payload,
            final(self).0.partition_key == old(self).0.partition_key,
            final(self).0.row_key == old(self).0.row_key,
            final(self).0.etag == old(self).0.etag,
            final(self).0.timestamp == old(self).0.timestamp,
            final(self).0.payload == *final(r),
    {
        &mut self.0.payload
    }

    /// Return the identity core, the common properties for all type of identites
    pub fn core_data(&self) -> (r: &CoreIdentityData)
        ensures
            *r == self.0.payload.spec_core(),
    {
        self.0.payload.core_data()
    }

    /// Return the (unique) id of the identity
    pub fn id(&self) -> (r: &str)
        ensures
            r@ == self.0.payload.spec_core().id@,
    {
        self.core_data().id.as_str()
    }
}

/// Identity when no category dependent data is required
pub type CoreIdentity = IdentityEntity<CoreIdentityData>;

} // verus!
