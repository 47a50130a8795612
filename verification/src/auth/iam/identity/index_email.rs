use vstd::prelude::*;
use super::{CoreIdentityIndexedData, EncodedEmail, IdentityCategory, IdentityData, IdentityEntity, IndexIdentityData, IndexIdentityEntity};
use crate::azure_utils::TableEntity;
use crate::text::{concat_str, to_owned_string};

verus! {

/// Storage type for index by email
#[derive(Debug, Clone)]
pub struct IndexEmailData {
    pub indexed_id: CoreIdentityIndexedData,
}

impl IndexIdentityData for IndexEmailData {
    open spec fn spec_id(&self) -> Seq<char> {
        self.indexed_id.identity_id@
    }

    fn id(&self) -> (r: &str) {
        self.indexed_id.identity_id.as_str()
    }
}

pub type IndexEmail = IndexIdentityEntity<IndexEmailData>;

/// Keys of the email index entry of an escaped email: the partition is
/// named after its first two characters.
pub open spec fn spec_email_index_keys(cat: IdentityCategory, email: Seq<char>) -> (Seq<char>, Seq<char>) {
    match cat {
        IdentityCategory::User => ("x_user_email-"@ + email.take(2), email),
    }
}

impl IndexIdentityEntity<IndexEmailData> {
    pub fn entity_keys(cat: IdentityCategory, email: &EncodedEmail) -> (r: (String, String))
        ensures
            (r.0@, r.1@) == spec_email_index_keys(cat, email@),
    {
        proof {
            use_type_invariant(email);
            email.lemma_len();
        }
        match cat {
            IdentityCategory::User => (concat_str("x_user_email-", email.prefix(2)), to_owned_string(email.as_str())),
        }
    }

    /// The email index entry of an identity that has an email.
    pub fn from_identity<D: IdentityData>(identity: &IdentityEntity<D>) -> (r: Option<Self>)
        ensures
            match identity.0.payload.spec_core().email {
                Some(email) => r matches Some(index) && {
                    &&& (index.0.partition_key@, index.0.row_key@)
                        == spec_email_index_keys(identity.0.payload.spec_core().category, email@)
                    &&& index.0.etag is None
                    &&& index.0.timestamp is None
                    &&& index.0.payload.indexed_id.identity_id@ == identity.0.payload.spec_core().id@
                },
                None => r is None,
            },
    {
        let core = identity.core_data();
        match &core.email {
            Some(email) => {
                let (partition_key, row_key) = Self::entity_keys(core.category, email);
                Some(Self(TableEntity {
                    partition_key,
                    row_key,
                    etag: None,
                    timestamp: None,
                    payload: IndexEmailData { indexed_id: CoreIdentityIndexedData { identity_id: core.id.clone() } },
                }))
            },
            None => None,
        }
    }
}

} // verus!
