//! The stored sessions of users, and the index that finds the user of a
//! session key.
use vstd::prelude::*;
use vstd::utf8::{encode_utf8, is_char_boundary};
use super::identityentry::IdentityIndex;
use super::siteinfo::SiteInfo;
use crate::auth::iam::session::session::{after_first_dash, lemma_first_dash_index, spec_after_first_dash};
use crate::azure_utils::TableEntity;
use crate::clock::utc_now_millis;
use crate::text::{byte_prefix, concat_str, spec_byte_prefix, to_owned_string};

verus! {

/// The data of a session: where it was opened from and when, in
/// milliseconds since the Unix epoch.
#[derive(Debug, Clone)]
pub struct Session {
    pub remote: String,
    pub agent: String,
    pub issued: i64,
}

/// The keys of the session of a user: the partition is the user's id, the
/// row names the session key.
pub open spec fn spec_session_entry_keys(user_id: Seq<char>, key: Seq<char>) -> (Seq<char>, Seq<char>) {
    (user_id, "session-"@ + key)
}

/// A row key that names a session key: a `-` comes before the key, whose
/// first two bytes end a character.
pub open spec fn names_session_key(row_key: Seq<char>) -> bool {
    &&& row_key.contains('-')
    &&& is_char_boundary(encode_utf8(spec_after_first_dash(row_key)), 2)
}

/// A stored session.
#[derive(Debug)]
pub struct SessionEntry(pub TableEntity<Session>);

impl SessionEntry {
    /// The keys of the session of a user.
    pub fn entity_keys(user_id: &str, key: &str) -> (r: (String, String))
        ensures
            (r.0@, r.1@) == spec_session_entry_keys(user_id@, key@),
    {
        (to_owned_string(user_id), concat_str("session-", key))
    }

    /// A new session of a user, opened at `now` from the given site.
    pub fn new_at(user_id: String, key: String, site: &SiteInfo, now: i64) -> (r: SessionEntry)
        ensures
            (r.0.partition_key@, r.0.row_key@) == spec_session_entry_keys(user_id@, key@),
            r.0.etag is None,
            r.0.timestamp is None,
            r.0.payload.remote@ == site.remote@,
            r.0.payload.agent@ == site.agent@,
            r.0.payload.issued == now,
    {
        let (partition_key, row_key) = Self::entity_keys(user_id.as_str(), key.as_str());
        SessionEntry(TableEntity {
            partition_key,
            row_key,
            etag: None,
            timestamp: None,
            payload: Session {
                remote: to_owned_string(site.remote()),
                agent: to_owned_string(site.agent()),
                issued: now,
            },
        })
    }

    /// A new session of a user, opened now from the given site: the issue
    /// date is read from the clock, so nothing is known of it but that it is
    /// not before the epoch.
    pub fn new(user_id: String, key: String, site: &SiteInfo) -> (r: SessionEntry)
        ensures
            (r.0.partition_key@, r.0.row_key@) == spec_session_entry_keys(user_id@, key@),
            r.0.etag is None,
            r.0.timestamp is None,
            r.0.payload.remote@ == site.remote@,
            r.0.payload.agent@ == site.agent@,
            r.0.payload.issued >= 0,
    {
        let now = utc_now_millis();
        Self::new_at(user_id, key, site, now)
    }

    pub fn from_entry(entry: TableEntity<Session>) -> (r: Self)
        ensures
            r.0 == entry,
    {
        Self(entry)
    }

    pub fn into_entry(self) -> (r: TableEntity<Session>)
        ensures
            r == self.0,
    {
        self.0
    }

    pub fn entry(&self) -> (r: &TableEntity<Session>)
        ensures
            *r == self.0,
    {
        &self.0
    }

    /// The id of the user of the session.
    pub fn user_id(&self) -> (r: &str)
        ensures
            r@ == self.0.partition_key@,
    {
        self.0.partition_key.as_str()
    }

    /// The session key: the row key after its first `-`.
    pub fn key(&self) -> (r: &str)
        requires
            self.0.row_key@.contains('-'),
        ensures
            r@ == spec_after_first_dash(self.0.row_key@),
    {
        after_first_dash(self.0.row_key.as_str())
    }

    pub fn data(&self) -> (r: &Session)
        ensures
            *r == self.0.payload,
    {
        &self.0.payload
    }
}

/// The key read back from the row key of a session is the key the session
/// was created with, and it names a session key when its first two bytes
/// end a character.
pub proof fn lemma_session_entry_key_roundtrip(user_id: Seq<char>, key: Seq<char>)
    ensures
        spec_after_first_dash(spec_session_entry_keys(user_id, key).1) == key,
        is_char_boundary(encode_utf8(key), 2) ==> names_session_key(spec_session_entry_keys(user_id, key).1),
{
    reveal_strlit("session-");
    let r = "session-"@ + key;
    assert(r[7] == '-');
    assert forall|k: int| 0 <= k < 7 implies r[k] != '-' by {
        assert(r[k] == "session-"@[k]);
    }
    lemma_first_dash_index(r, 7);
    assert(r.skip(8) =~= key);
    assert(r.contains('-')) by {
        assert(r[7] == '-');
    }
}

/// Index of a user by session key.
#[derive(Debug, Clone)]
pub struct SessionIndex {
    pub identity_id: IdentityIndex,
}

/// The keys of the index entry of a session key: the partition is named by
/// the first two bytes of the key.
pub open spec fn spec_session_index_entry_keys(key: Seq<char>) -> (Seq<char>, Seq<char>) {
    ("session_"@ + spec_byte_prefix(key, 2), key)
}

/// The index entry of a stored session.
pub open spec fn is_session_index_entry(x: TableEntity<SessionIndex>, session: TableEntity<Session>) -> bool {
    &&& (x.partition_key@, x.row_key@) == spec_session_index_entry_keys(spec_after_first_dash(session.row_key@))
    &&& x.etag is None
    &&& x.timestamp is None
    &&& x.payload.identity_id.user_id@ == session.partition_key@
}

/// A stored session index entry.
#[derive(Debug)]
pub struct SessionIndexEntry(pub TableEntity<SessionIndex>);

impl SessionIndexEntry {
    /// The keys of the index entry of a session key.
    pub fn entity_keys(key: &str) -> (r: (String, String))
        requires
            is_char_boundary(encode_utf8(key@), 2),
        ensures
            (r.0@, r.1@) == spec_session_index_entry_keys(key@),
    {
        (concat_str("session_", byte_prefix(key, 2)), to_owned_string(key))
    }

    /// The index entry of a session.
    pub fn from_identity(entry: &SessionEntry) -> (r: Self)
        requires
            names_session_key(entry.0.row_key@),
        ensures
            is_session_index_entry(r.0, entry.0),
    {
        let key = entry.key();
        let user_id = entry.user_id();
        let (partition_key, row_key) = Self::entity_keys(key);
        Self(TableEntity {
            partition_key,
            row_key,
            etag: None,
            timestamp: None,
            payload: SessionIndex { identity_id: IdentityIndex { user_id: to_owned_string(user_id) } },
        })
    }

    pub fn from_entry(entry: TableEntity<SessionIndex>) -> (r: Self)
        ensures
            r.0 == entry,
    {
        Self(entry)
    }

    pub fn into_entry(self) -> (r: TableEntity<SessionIndex>)
        ensures
            r == self.0,
    {
        self.0
    }

    pub fn entry(&self) -> (r: &TableEntity<SessionIndex>)
        ensures
            *r == self.0,
    {
        &self.0
    }

    /// The id of the user the entry names.
    pub fn user_id(&self) -> (r: &str)
        ensures
            r@ == self.0.payload.identity_id.user_id@,
    {
        self.0.payload.identity_id.user_id.as_str()
    }

    /// The session key of the entry.
    pub fn key(&self) -> (r: &str)
        ensures
            r@ == self.0.row_key@,
    {
        self.0.row_key.as_str()
    }
}

} // verus!
