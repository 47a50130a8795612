//! The first stored form of users: keyed by the user id in both keys, with
//! name and email index entries that name the user.
use vstd::prelude::*;
use crate::auth::utils::UserId;
use crate::azure_utils::TableEntity;

verus! {

/// The data of a user.
#[derive(Debug, Clone)]
pub struct IdentityData {
    pub name: String,
    pub email: Option<String>,
    pub email_validate: bool,
    pub password_hash: String,
}

/// A stored user.
#[derive(Debug)]
pub struct IdentityEntry(pub TableEntity<IdentityData>);

impl IdentityEntry {
    /// A new user, keyed by its id; its email is not validated yet.
    pub fn new(id: String, name: String, email: Option<String>, password_hash: String) -> (r: IdentityEntry)
        ensures
            r.0.partition_key@ == id@,
            r.0.row_key@ == id@,
            r.0.etag is None,
            r.0.timestamp is None,
            r.0.payload == (IdentityData { name, email, email_validate: false, password_hash }),
    {
        IdentityEntry(TableEntity {
            partition_key: id.clone(),
            row_key: id,
            etag: None,
            timestamp: None,
            payload: IdentityData { name, email, email_validate: false, password_hash },
        })
    }

    pub fn from_entry(entry: TableEntity<IdentityData>) -> (r: Self)
        ensures
            r.0 == entry,
    {
        Self(entry)
    }

    pub fn into_entry(self) -> (r: TableEntity<IdentityData>)
        ensures
            r == self.0,
    {
        self.0
    }

    pub fn entry(&self) -> (r: &TableEntity<IdentityData>)
        ensures
            *r == self.0,
    {
        &self.0
    }

    /// The id of the user.
    pub fn id(&self) -> (r: &str)
        ensures
            r@ == self.0.row_key@,
    {
        self.0.row_key.as_str()
    }

    pub fn identity(&self) -> (r: &IdentityData)
        ensures
            *r == self.0.payload,
    {
        &self.0.payload
    }

    /// The logged in user of this identity: its id and name, without roles.
    pub fn into_user_id(self) -> (r: UserId)
        ensures
            r.user_id@ == self.0.row_key@,
            r.name@ == self.0.payload.name@,
            r.roles@.len() == 0,
    {
        let user = self.into_entry();
        UserId { user_id: user.row_key, name: user.payload.name, roles: Vec::new() }
    }
}

/// Index of a user by name.
#[derive(Debug, Clone)]
pub struct NameIndex {
    pub user_id: String,
}

/// A name index entry: keyed by the name in both keys.
#[derive(Debug)]
pub struct NameIndexEntry(pub TableEntity<NameIndex>);

impl NameIndexEntry {
    /// The name index entry of a user.
    pub fn from_identity(entry: &IdentityEntry) -> (r: Self)
        ensures
            r.0.partition_key@ == entry.0.payload.name@,
            r.0.row_key@ == entry.0.payload.name@,
            r.0.etag is None,
            r.0.timestamp is None,
            r.0.payload.user_id@ == entry.0.row_key@,
    {
        Self(TableEntity {
            partition_key: entry.identity().name.clone(),
            row_key: entry.identity().name.clone(),
            etag: None,
            timestamp: None,
            payload: NameIndex { user_id: entry.id().to_owned() },
        })
    }

    /// The id of the user the entry names.
    pub fn id(&self) -> (r: &str)
        ensures
            r@ == self.0.payload.user_id@,
    {
        self.0.payload.user_id.as_str()
    }
}

/// Index of a user by email.
#[derive(Debug, Clone)]
pub struct EmailIndex {
    pub user_id: String,
}

/// An email index entry. It is keyed by the user's name in both keys, as
/// the name index entry is.
#[derive(Debug)]
pub struct EmailIndexEntry(pub TableEntity<EmailIndex>);

impl EmailIndexEntry {
    /// The email index entry of a user.
    pub fn from_identity(entry: &IdentityEntry) -> (r: Self)
        ensures
            r.0.partition_key@ == entry.0.payload.name@,
            r.0.row_key@ == entry.0.payload.name@,
            r.0.etag is None,
            r.0.timestamp is None,
            r.0.payload.user_id@ == entry.0.row_key@,
    {
        Self(TableEntity {
            partition_key: entry.identity().name.clone(),
            row_key: entry.identity().name.clone(),
            etag: None,
            timestamp: None,
            payload: EmailIndex { user_id: entry.id().to_owned() },
        })
    }

    /// The id of the user the entry names.
    pub fn id(&self) -> (r: &str)
        ensures
            r@ == self.0.payload.user_id@,
    {
        self.0.payload.user_id.as_str()
    }
}

} // verus!
