//! Logins of users (a login key per logged in remote) and the index that
//! finds a login by its key.
use vstd::prelude::*;
use vstd::utf8::{encode_utf8, is_char_boundary};
use super::identityentry::IdentityIndex;
use super::siteinfo::SiteInfo;
use crate::azure_utils::TableEntity;
use crate::text::{byte_prefix, concat_str, spec_byte_prefix};

verus! {

/// The data of a login: the remote that logged in.
#[derive(Debug, Clone)]
pub struct Login {
    pub site: SiteInfo,
}

/// A stored login, keyed by user id and login key.
#[derive(Debug)]
pub struct LoginEntry(pub TableEntity<Login>);

impl LoginEntry {
    pub fn new(user_id: String, key: String, site: SiteInfo) -> (r: LoginEntry)
        ensures
            r.0.partition_key == user_id,
            r.0.row_key == key,
            r.0.etag is None,
            r.0.timestamp is None,
            r.0.payload == (Login { site }),
    {
        LoginEntry(TableEntity { partition_key: user_id, row_key: key, etag: None, timestamp: None, payload: Login { site } })
    }

    pub fn from_entry(entry: TableEntity<Login>) -> (r: Self)
        ensures
            r.0 == entry,
    {
        Self(entry)
    }

    pub fn into_entry(self) -> (r: TableEntity<Login>)
        ensures
            r == self.0,
    {
        self.0
    }

    pub fn entry(&self) -> (r: &TableEntity<Login>)
        ensures
            *r == self.0,
    {
        &self.0
    }

    pub fn user_id(&self) -> (r: &str)
        ensures
            r@ == self.0.partition_key@,
    {
        self.0.partition_key.as_str()
    }

    pub fn key(&self) -> (r: &str)
        ensures
            r@ == self.0.row_key@,
    {
        self.0.row_key.as_str()
    }

    pub fn data(&self) -> (r: &Login)
        ensures
            *r == self.0.payload,
    {
        &self.0.payload
    }
}

/// Index of a user by login key.
#[derive(Debug, Clone)]
pub struct LoginIndex {
    pub identity_id: IdentityIndex,
}

/// A stored login index entry.
#[derive(Debug)]
pub struct LoginIndexEntry(pub TableEntity<LoginIndex>);

/// The partition of the index entry of a login key.
pub open spec fn spec_login_partition(key: Seq<char>) -> Seq<char> {
    "login_"@ + spec_byte_prefix(key, 2)
}

/// The index entry of a login.
pub open spec fn is_login_index_entry(e: TableEntity<LoginIndex>, login: TableEntity<Login>) -> bool {
    &&& e.partition_key@ == spec_login_partition(login.row_key@)
    &&& e.row_key@ == login.row_key@
    &&& e.etag is None
    &&& e.timestamp is None
    &&& e.payload.identity_id.user_id@ == login.partition_key@
}

impl LoginIndexEntry {
    pub fn generate_partion_key(key: &str) -> (r: String)
        requires
            is_char_boundary(encode_utf8(key@), 2),
        ensures
            r@ == spec_login_partition(key@),
    {
        concat_str("login_", byte_prefix(key, 2))
    }

    pub fn from_identity(entry: &LoginEntry) -> (r: Self)
        requires
            is_char_boundary(encode_utf8(entry.0.row_key@), 2),
        ensures
            is_login_index_entry(r.0, entry.0),
    {
        let key = entry.key();
        let user_id = entry.user_id();
        Self(TableEntity {
            partition_key: Self::generate_partion_key(key),
            row_key: key.to_owned(),
            etag: None,
            timestamp: None,
            payload: LoginIndex { identity_id: IdentityIndex { user_id: user_id.to_owned() } },
        })
    }

    pub fn from_entry(entry: TableEntity<LoginIndex>) -> (r: Self)
        ensures
            r.0 == entry,
    {
        Self(entry)
    }

    pub fn into_entry(self) -> (r: TableEntity<LoginIndex>)
        ensures
            r == self.0,
    {
        self.0
    }

    pub fn entry(&self) -> (r: &TableEntity<LoginIndex>)
        ensures
            *r == self.0,
    {
        &self.0
    }

    pub fn user_id(&self) -> (r: &str)
        ensures
            r@ == self.0.payload.identity_id.user_id@,
    {
        self.0.payload.identity_id.user_id.as_str()
    }

    pub fn key(&self) -> (r: &str)
        ensures
            r@ == self.0.row_key@,
    {
        self.0.row_key.as_str()
    }
}

} // verus!
