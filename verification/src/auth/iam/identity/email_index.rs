//! The email index of identities, with the index data of the identity
//! store's entries.
use vstd::prelude::*;
use super::{EncodedEmail, IdentityCategory, IdentityData, IdentityEntity};
use super::index_email::spec_email_index_keys;
use crate::auth::identity::manager::identity::{IdentityIndexData, IdentityIndexedId};
use crate::azure_utils::TableEntity;
use crate::text::{concat_str, to_owned_string};

verus! {

/// Storage type for index by email
#[derive(Debug)]
pub struct EmailIndexData {
    pub indexed_id: IdentityIndexedId,
}

impl IdentityIndexData for EmailIndexData {
    open spec fn spec_id(&self) -> Seq<char> {
        self.indexed_id.identity_id@
    }

    fn id(&self) -> (r: &str) {
        self.indexed_id.identity_id.as_str()
    }
}

/// Index identity by email
#[derive(Debug)]
pub struct EmailIndex(pub TableEntity<EmailIndexData>);

impl EmailIndex {
    /// Keys of the email index entry of an escaped email.
    pub fn entity_keys(cat: IdentityCategory, email: &EncodedEmail) -> (r: (String, String))
        ensures
            (r.0@, r.1@) == spec_email_index_keys(cat, email@),
    {
        proof {
            use_type_invariant(email);
            email.lemma_len();
        }
        match cat {
            IdentityCategory::User => (concat_str("x_user_email-", email.prefix(2)), to_owned_string(email.as_str())),
        }
    }

    /// The email index entry of an identity that has an email.
    pub fn from_identity<D: IdentityData>(identity: &IdentityEntity<D>) -> (r: Option<Self>)
        ensures
            match identity.0.payload.spec_core().email {
                Some(email) => r matches Some(index) && {
                    &&& (index.0.partition_key@, index.0.row_key@)
                        == spec_email_index_keys(identity.0.payload.spec_core().category, email@)
                    &&& index.0.etag is None
                    &&& index.0.timestamp is None
                    &&& index.0.payload.indexed_id.identity_id@ == identity.0.payload.spec_core().id@
                },
                None => r is None,
            },
    {
        let core = identity.core_data();
        match &core.email {
            Some(email) => {
                let (partition_key, row_key) = Self::entity_keys(core.category, email);
                Some(EmailIndex(TableEntity {
                    partition_key,
                    row_key,
                    etag: None,
                    timestamp: None,
                    payload: EmailIndexData { indexed_id: IdentityIndexedId { identity_id: core.id.clone() } },
                }))
            },
            None => None,
        }
    }

    /// Create Self from the stored table entity
    pub fn from_entity(entity: TableEntity<EmailIndexData>) -> (r: Self)
        ensures
            r.0 == entity,
    {
        EmailIndex(entity)
    }

    /// Create a the table entity to store from Self
    pub fn into_entity(self) -> (r: TableEntity<EmailIndexData>)
        ensures
            r == self.0,
    {
        self.0
    }

    /// Return the associated data
    pub fn into_data(self) -> (r: EmailIndexData)
        ensures
            r == self.0.payload,
    {
        self.0.payload
    }

    /// Return the data associated to the index (and not to the identity)
    pub fn data(&self) -> (r: &EmailIndexData)
        ensures
            *r == self.0.payload,
    {
        &self.0.payload
    }

    /// The unique key to index
    pub fn index_key(&self) -> (r: &str)
        ensures
            r@ == self.0.row_key@,
    {
        self.0.row_key.as_str()
    }
}

} // verus!
