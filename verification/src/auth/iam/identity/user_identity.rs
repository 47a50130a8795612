use vstd::prelude::*;
use vstd::utf8::{encode_utf8, is_char_boundary};
use super::{CoreIdentityData, EncodedEmail, EncodedName, IdentityCategory, IdentityData, IdentityEntity};
use super::identity_data::spec_identity_keys;
use crate::azure_utils::TableEntity;

verus! {

/// Data associated to a user identity
#[derive(Debug)]
pub struct UserIdentityData {
    pub core: CoreIdentityData,
    pub password_hash: String,
}

impl IdentityData for UserIdentityData {
    open spec fn spec_core(&self) -> CoreIdentityData {
        self.core
    }

    fn core_data(&self) -> (r: &CoreIdentityData) {
        &self.core
    }
}

/// Identity assigned to a user
pub type UserIdentity = IdentityEntity<UserIdentityData>;

impl IdentityEntity<UserIdentityData> {
    /// A new user identity, keyed by its id; its email is not validated yet.
    pub fn new(
        id: String,
        sequence_id: u64,
        salt: String,
        name: EncodedName,
        email: Option<EncodedEmail>,
        password_hash: String,
    ) -> (r: Self)
        requires
            is_char_boundary(encode_utf8(id@), 2),
        ensures
            (r.0.partition_key@, r.0.row_key@) == spec_identity_keys(id@),
            r.0.etag is None,
            r.0.timestamp is None,
            r.0.payload.core.id == id,
            r.0.payload.core.sequence_id == sequence_id,
            r.0.payload.core.salt == salt,
            r.0.payload.core.category == IdentityCategory::User,
            r.0.payload.core.name == name,
            r.0.payload.core.email == email,
            !r.0.payload.core.email_validated,
            r.0.payload.password_hash == password_hash,
    {
        let (partition_key, row_key) = Self::entity_keys(id.as_str());
        Self(TableEntity {
            partition_key,
            row_key,
            etag: None,
            timestamp: None,
            payload: UserIdentityData {
                core: CoreIdentityData {
                    id,
                    sequence_id,
                    salt,
                    name,
                    category: IdentityCategory::User,
                    email,
                    email_validated: false,
                },
                password_hash,
            },
        })
    }
}

} // verus!
