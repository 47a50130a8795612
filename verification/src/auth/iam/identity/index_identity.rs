use vstd::prelude::*;
use crate::azure_utils::TableEntity;

verus! {

/// Data associated to each identity
pub trait IndexIdentityData {
    /// The id that the data names.
    spec fn spec_id(&self) -> Seq<char>;

    /// Id of the associated identity
    fn id(&self) -> (r: &str)
        ensures
            r@ == self.spec_id(),
    ;
}

/// The index used to reference an identity during indexing
#[derive(Debug, Clone)]
pub struct CoreIdentityIndexedData {
    pub identity_id: String,
}

impl IndexIdentityData for CoreIdentityIndexedData {
    open spec fn spec_id(&self) -> Seq<char> {
        self.identity_id@
    }

    fn id(&self) -> (r: &str) {
        self.identity_id.as_str()
    }
}

/// An index entry as stored in the table.
#[derive(Debug)]
pub struct IndexIdentityEntity<D>(pub TableEntity<D>);

impl<D: IndexIdentityData> IndexIdentityEntity<D> {
    /// Create Self from the stored table entity
    pub fn from_entity(data: TableEntity<D>) -> (r: Self)
        ensures
            r.0 == data,
    {
        Self(data)
    }

    /// Create a the table entity to store from Self
    pub fn into_entity(self) -> (r: TableEntity<D>)
        ensures
            r == self.0,
    {
        self.0
    }

    /// Return the associated data
    pub fn into_data(self) -> (r: D)
        ensures
            r == self.0.payload,
    {
        self.0.payload
    }

    /// Return the data associated to the index (and not to the identity)
    pub fn data(&self) -> (r: &D)
        ensures
            *r == self.0.payload,
    {
        &self.0.payload
    }

    /// Return the mutable data associated to the index (and not to the identity)
    pub fn data_mut(&mut self) -> (r: &mut D)
        ensures
            *r == old(self).0.payload,
            final(self).0.partition_key == old(self).0.partition_key,
            final(self).0.row_key == old(self).0.row_key,
            final(self).0.etag == old(self).0.etag,
            final(self).0.timestamp == old(self).0.timestamp,
            final(self).0.payload == *final(r),
    {
        &mut self.0.payload
    }

    /// The unique key to index
    pub fn index_key(&self) -> (r: &str)
        ensures
            r@ == self.0.row_key@,
    {
        self.0.row_key.as_str()
    }

    /// Return the (unique) id of the identity
    pub fn id(&self) -> (r: &str)
        ensures
            r@ == self.0.payload.spec_id(),
    {
        self.0.payload.id()
    }
}

pub type CoreIdentityIndexed = IndexIdentityEntity<CoreIdentityIndexedData>;

} // verus!
