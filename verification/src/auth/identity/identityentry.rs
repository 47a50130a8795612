//! The stored entities of users and of the indices that find them.
use vstd::prelude::*;
use vstd::utf8::{encode_utf8, is_char_boundary};
use crate::azure_utils::TableEntity;
use crate::text::{byte_prefix, concat_str, spec_byte_prefix, to_owned_string};

verus! {

/// An entity without data, to test whether an entity exists.
#[derive(Debug, Clone)]
pub struct EmptyEntry {}

/// The data of a user.
#[derive(Debug, Clone)]
pub struct Identity {
    pub sequence_id: String,
    pub salt: String,
    pub name: String,
    pub email: Option<String>,
    pub email_validated: bool,
    pub password_hash: String,
}

/// A stored user.
#[derive(Debug)]
pub struct IdentityEntry(pub TableEntity<Identity>);

/// The partition of a user id: its first two bytes.
pub open spec fn spec_user_partition(id: Seq<char>) -> Seq<char> {
    spec_byte_prefix(id, 2)
}

impl IdentityEntry {
    pub fn generate_partion_key(id: &str) -> (r: String)
        requires
            is_char_boundary(encode_utf8(id@), 2),
        ensures
            r@ == spec_user_partition(id@),
    {
        to_owned_string(byte_prefix(id, 2))
    }

    /// A new user; its email is not validated yet.
    pub fn new(
        id: String,
        sequence_id: String,
        salt: String,
        name: String,
        email: Option<String>,
        password_hash: String,
    ) -> (r: IdentityEntry)
        requires
            is_char_boundary(encode_utf8(id@), 2),
        ensures
            r.0.partition_key@ == spec_user_partition(id@),
            r.0.row_key@ == id@,
            r.0.etag is None,
            r.0.timestamp is None,
            r.0.payload == (Identity { sequence_id, salt, name, email, email_validated: false, password_hash }),
    {
        let partition_key = Self::generate_partion_key(id.as_str());
        IdentityEntry(TableEntity {
            partition_key,
            row_key: id,
            etag: None,
            timestamp: None,
            payload: Identity { sequence_id, salt, name, email, email_validated: false, password_hash },
        })
    }

    pub fn from_entry(entry: TableEntity<Identity>) -> (r: Self)
        ensures
            r.0 == entry,
    {
        Self(entry)
    }

    pub fn into_entry(self) -> (r: TableEntity<Identity>)
        ensures
            r == self.0,
    {
        self.0
    }

    pub fn entry(&self) -> (r: &TableEntity<Identity>)
        ensures
            *r == self.0,
    {
        &self.0
    }

    /// The id of the user.
    pub fn user_id(&self) -> (r: &str)
        ensures
            r@ == self.0.row_key@,
    {
        self.0.row_key.as_str()
    }

    pub fn data(&self) -> (r: &Identity)
        ensures
            *r == self.0.payload,
    {
        &self.0.payload
    }
}

/// The id of the user an index entry names.
#[derive(Debug, Clone)]
pub struct IdentityIndex {
    pub user_id: String,
}

/// A stored index entry.
#[derive(Debug)]
pub struct IdentityIndexEntry(pub TableEntity<IdentityIndex>);

impl IdentityIndexEntry {
    pub fn from_entry(entry: TableEntity<IdentityIndex>) -> (r: Self)
        ensures
            r.0 == entry,
    {
        Self(entry)
    }

    pub fn into_entry(self) -> (r: TableEntity<IdentityIndex>)
        ensures
            r == self.0,
    {
        self.0
    }

    pub fn entry(&self) -> (r: &TableEntity<IdentityIndex>)
        ensures
            *r == self.0,
    {
        &self.0
    }

    pub fn user_id(&self) -> (r: &str)
        ensures
            r@ == self.0.payload.user_id@,
    {
        self.0.payload.user_id.as_str()
    }
}

/// Index of a user by name.
#[derive(Debug, Clone)]
pub struct NameIndex {
    pub identity_id: IdentityIndex,
}

/// A stored name index entry.
#[derive(Debug)]
pub struct NameIndexEntry(pub TableEntity<NameIndex>);

/// The partition of the name index entry of a name.
pub open spec fn spec_name_partition(name: Seq<char>) -> Seq<char> {
    "name_"@ + spec_byte_prefix(name, 2)
}

/// The name index entry of a user.
pub open spec fn is_name_index_entry(e: TableEntity<NameIndex>, identity: TableEntity<Identity>) -> bool {
    &&& e.partition_key@ == spec_name_partition(identity.payload.name@)
    &&& e.row_key@ == identity.payload.name@
    &&& e.etag is None
    &&& e.timestamp is None
    &&& e.payload.identity_id.user_id@ == identity.row_key@
}

impl NameIndexEntry {
    pub fn generate_partion_key(name: &str) -> (r: String)
        requires
            is_char_boundary(encode_utf8(name@), 2),
        ensures
            r@ == spec_name_partition(name@),
    {
        concat_str("name_", byte_prefix(name, 2))
    }

    pub fn from_identity(entry: &IdentityEntry) -> (r: Self)
        requires
            is_char_boundary(encode_utf8(entry.0.payload.name@), 2),
        ensures
            is_name_index_entry(r.0, entry.0),
    {
        let name = entry.data().name.as_str();
        Self(TableEntity {
            partition_key: Self::generate_partion_key(name),
            row_key: name.to_owned(),
            etag: None,
            timestamp: None,
            payload: NameIndex { identity_id: IdentityIndex { user_id: entry.user_id().to_owned() } },
        })
    }

    pub fn from_entry(entry: TableEntity<NameIndex>) -> (r: Self)
        ensures
            r.0 == entry,
    {
        Self(entry)
    }

    pub fn into_entry(self) -> (r: TableEntity<NameIndex>)
        ensures
            r == self.0,
    {
        self.0
    }

    pub fn entry(&self) -> (r: &TableEntity<NameIndex>)
        ensures
            *r == self.0,
    {
        &self.0
    }

    pub fn user_id(&self) -> (r: &str)
        ensures
            r@ == self.0.payload.identity_id.user_id@,
    {
        self.0.payload.identity_id.user_id.as_str()
    }

    pub fn name(&self) -> (r: &str)
        ensures
            r@ == self.0.row_key@,
    {
        self.0.row_key.as_str()
    }
}

/// Index of a user by email.
#[derive(Debug, Clone)]
pub struct EmailIndex {
    pub identity_id: IdentityIndex,
}

/// A stored email index entry.
#[derive(Debug)]
pub struct EmailIndexEntry(pub TableEntity<EmailIndex>);

/// The partition of the email index entry of an email.
pub open spec fn spec_email_partition(email: Seq<char>) -> Seq<char> {
    "email_"@ + spec_byte_prefix(email, 2)
}

/// The email index entry of a user with the given email.
pub open spec fn is_email_index_entry(e: TableEntity<EmailIndex>, identity: TableEntity<Identity>, email: Seq<char>) -> bool {
    &&& e.partition_key@ == spec_email_partition(email)
    &&& e.row_key@ == email
    &&& e.etag is None
    &&& e.timestamp is None
    &&& e.payload.identity_id.user_id@ == identity.row_key@
}

impl EmailIndexEntry {
    pub fn generate_partion_key(email: &str) -> (r: String)
        requires
            is_char_boundary(encode_utf8(email@), 2),
        ensures
            r@ == spec_email_partition(email@),
    {
        concat_str("email_", byte_prefix(email, 2))
    }

    /// The email index entry of a user that has an email.
    pub fn from_identity(entry: &IdentityEntry) -> (r: Option<Self>)
        requires
            entry.0.payload.email matches Some(e) ==> is_char_boundary(encode_utf8(e@), 2),
        ensures
            match entry.0.payload.email {
                Some(email) => r matches Some(x) && is_email_index_entry(x.0, entry.0, email@),
                None => r is None,
            },
    {
        match &entry.data().email {
            Some(email) => Some(Self(TableEntity {
                partition_key: Self::generate_partion_key(email.as_str()),
                row_key: email.clone(),
                etag: None,
                timestamp: None,
                payload: EmailIndex { identity_id: IdentityIndex { user_id: entry.user_id().to_owned() } },
            })),
            None => None,
        }
    }

    pub fn from_entry(entry: TableEntity<EmailIndex>) -> (r: Self)
        ensures
            r.0 == entry,
    {
        Self(entry)
    }

    pub fn into_entry(self) -> (r: TableEntity<EmailIndex>)
        ensures
            r == self.0,
    {
        self.0
    }

    pub fn entry(&self) -> (r: &TableEntity<EmailIndex>)
        ensures
            *r == self.0,
    {
        &self.0
    }

    pub fn user_id(&self) -> (r: &str)
        ensures
            r@ == self.0.payload.identity_id.user_id@,
    {
        self.0.payload.identity_id.user_id.as_str()
    }

    pub fn email(&self) -> (r: &str)
        ensures
            r@ == self.0.row_key@,
    {
        self.0.row_key.as_str()
    }
}

/// Index of a user by login key.
#[derive(Debug, Clone)]
pub struct LoginKeyIndex {
    pub identity_id: IdentityIndex,
}

} // verus!
