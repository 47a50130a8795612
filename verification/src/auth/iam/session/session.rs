use vstd::prelude::*;
use crate::auth::iam::fingerprint::Fingerprint;
use crate::azure_utils::TableEntity;
use crate::clock::utc_now_millis;
use crate::text::{concat_str, str_chars, str_equal, to_owned_string};

verus! {

/// Data associated to a session; the dates are in milliseconds since the
/// Unix epoch.
#[derive(Debug, Clone)]
pub struct SessionData {
    pub agent: String,
    pub remote_ip: String,
    pub remote_continent: String,
    pub remote_country: String,
    pub issued: i64,
    pub refresh_count: u64,
    pub refreshed: i64,
    pub disabled: Option<i64>,
}

/// The remote address recorded for a fingerprint.
pub open spec fn spec_remote_text(fingerprint: Fingerprint) -> Seq<char> {
    match fingerprint.spec_remote() {
        Some(ip) => ip,
        None => "unknown"@,
    }
}

/// The country recorded for a fingerprint.
pub open spec fn spec_country_text(fingerprint: Fingerprint) -> Seq<char> {
    match fingerprint.spec_location() {
        Some(l) => l.1,
        None => "unknown"@,
    }
}

/// The continent recorded for a fingerprint.
pub open spec fn spec_continent_text(fingerprint: Fingerprint) -> Seq<char> {
    match fingerprint.spec_location() {
        Some(l) => l.0,
        None => "unknown"@,
    }
}

/// The session was opened from a remote with the same agent, address and
/// country as the fingerprint.
pub open spec fn spec_matches_fingerprint(data: SessionData, fingerprint: Fingerprint) -> bool {
    &&& data.agent@ == fingerprint.spec_agent()
    &&& data.remote_ip@ == spec_remote_text(fingerprint)
    &&& data.remote_country@ == spec_country_text(fingerprint)
}

fn remote_text(fingerprint: &Fingerprint) -> (r: String)
    ensures
        r@ == spec_remote_text(*fingerprint),
{
    match fingerprint.remote() {
        Some(ip) => ip.clone(),
        None => "unknown".to_owned(),
    }
}

fn country_text(fingerprint: &Fingerprint) -> (r: String)
    ensures
        r@ == spec_country_text(*fingerprint),
{
    match fingerprint.location() {
        Some(l) => l.country.clone(),
        None => "unknown".to_owned(),
    }
}

fn continent_text(fingerprint: &Fingerprint) -> (r: String)
    ensures
        r@ == spec_continent_text(*fingerprint),
{
    match fingerprint.location() {
        Some(l) => l.continent.clone(),
        None => "unknown".to_owned(),
    }
}

impl SessionData {
    /// Whether the fingerprint is that of the remote that opened the session.
    pub fn check(&self, fingerprint: &Fingerprint) -> (r: bool)
        ensures
            r == spec_matches_fingerprint(*self, *fingerprint),
    {
        // check agent
        if !str_equal(self.agent.as_str(), fingerprint.agent()) {
            return false;
        }
        // check ip
        let ip = remote_text(fingerprint);
        let country = country_text(fingerprint);
        if !str_equal(self.remote_ip.as_str(), ip.as_str()) {
            return false;
        }
        // check location
        if !str_equal(self.remote_country.as_str(), country.as_str()) {
            return false;
        }
        true
    }

    pub fn issue_date(&self) -> (r: i64)
        ensures
            r == self.issued,
    {
        self.issued
    }

    pub fn refresh_count(&self) -> (r: u64)
        ensures
            r == self.refresh_count,
    {
        self.refresh_count
    }

    pub fn refresh_date(&self) -> (r: i64)
        ensures
            r == self.refreshed,
    {
        self.refreshed
    }

    pub fn disable_date(&self) -> (r: Option<i64>)
        ensures
            r == self.disabled,
    {
        self.disabled
    }
}

/// The partition and row key of a session: the partition holds the
/// sessions of one identity.
pub open spec fn spec_session_keys(id: Seq<char>, key: Seq<char>) -> (Seq<char>, Seq<char>) {
    ("id-"@ + id, key)
}

/// Index of the first `-` in `s` (its length if there is none).
pub open spec fn spec_first_dash(s: Seq<char>) -> nat
    decreases s.len(),
{
    if s.len() == 0 {
        0
    } else if s[0] == '-' {
        0
    } else {
        1 + spec_first_dash(s.drop_first())
    }
}

/// The text after the first `-` of `s`.
pub open spec fn spec_after_first_dash(s: Seq<char>) -> Seq<char> {
    s.skip(spec_first_dash(s) as int + 1)
}

proof fn lemma_first_dash(s: Seq<char>)
    ensures
        spec_first_dash(s) <= s.len(),
        spec_first_dash(s) < s.len() ==> s[spec_first_dash(s) as int] == '-',
        forall|k: int| 0 <= k < spec_first_dash(s) ==> s[k] != '-',
    decreases s.len(),
{
    if s.len() > 0 && s[0] != '-' {
        lemma_first_dash(s.drop_first());
        assert forall|k: int| 0 <= k < spec_first_dash(s) implies s[k] != '-' by {
            if k > 0 {
                assert(s[k] == s.drop_first()[k - 1]);
            }
        }
    }
}

pub proof fn lemma_first_dash_index(s: Seq<char>, i: int)
    requires
        0 <= i <= s.len(),
        i < s.len() ==> s[i] == '-',
        forall|k: int| 0 <= k < i ==> s[k] != '-',
    ensures
        spec_first_dash(s) == i,
    decreases s.len(),
{
    if s.len() > 0 && s[0] != '-' {
        assert forall|k: int| 0 <= k < i - 1 implies s.drop_first()[k] != '-' by {
            assert(s.drop_first()[k] == s[k + 1]);
        }
        if i - 1 < s.drop_first().len() {
            assert(s.drop_first()[i - 1] == s[i]);
        }
        lemma_first_dash_index(s.drop_first(), i - 1);
    }
}

/// The identity id read back from the partition key of a session is the id
/// the session was created for.
pub proof fn lemma_session_id_roundtrip(id: Seq<char>)
    ensures
        spec_after_first_dash(spec_session_keys(id, Seq::empty()).0) == id,
{
    reveal_strlit("id-");
    let p = "id-"@ + id;
    assert(p[0] == 'i');
    assert(p[1] == 'd');
    assert(p[2] == '-');
    lemma_first_dash_index(p, 2);
    assert(p.skip(3) =~= id);
}

/// The part of `p` after its first `-`.
pub fn after_first_dash(p: &str) -> (r: &str)
    requires
        p@.contains('-'),
    ensures
        r@ == spec_after_first_dash(p@),
{
    let chars = str_chars(p);
    let mut i: usize = 0;
    while i < chars.len() && chars[i] != '-'
        invariant
            chars@ == p@,
            i <= chars@.len(),
            forall|k: int| 0 <= k < i ==> chars@[k] != '-',
        decreases chars@.len() - i,
    {
        i = i + 1;
    }
    proof {
        if i == chars@.len() {
            let k = choose|k: int| 0 <= k < p@.len() && p@[k] == '-';
            assert(chars@[k] != '-');
        }
        lemma_first_dash_index(p@, i as int);
    }
    p.substring_char(i + 1, chars.len())
}

/// The session of a user. Only users may have a session, other type of identites cannot log in and thus cannot
/// have session.
#[derive(Debug)]
pub struct Session(pub TableEntity<SessionData>);

impl Session {
    pub fn entity_keys(id: &str, key: &str) -> (r: (String, String))
        ensures
            (r.0@, r.1@) == spec_session_keys(id@, key@),
    {
        (concat_str("id-", id), to_owned_string(key))
    }

    /// A fresh session of the identity, recording the remote's fingerprint,
    /// issued and refreshed at `now`.
    pub fn new_at(id: String, key: String, fingerprint: &Fingerprint, now: i64) -> (r: Session)
        ensures
            (r.0.partition_key@, r.0.row_key@) == spec_session_keys(id@, key@),
            r.0.etag is None,
            r.0.timestamp is None,
            r.0.payload.agent@ == fingerprint.spec_agent(),
            r.0.payload.remote_ip@ == spec_remote_text(*fingerprint),
            r.0.payload.remote_continent@ == spec_continent_text(*fingerprint),
            r.0.payload.remote_country@ == spec_country_text(*fingerprint),
            r.0.payload.issued == now,
            r.0.payload.refresh_count == 0,
            r.0.payload.refreshed == now,
            r.0.payload.disabled is None,
    {
        let (partition_key, row_key) = Self::entity_keys(id.as_str(), key.as_str());
        let agent = fingerprint.agent().to_owned();
        let remote_ip = remote_text(fingerprint);
        let remote_continent = continent_text(fingerprint);
        let remote_country = country_text(fingerprint);
        Session(TableEntity {
            partition_key,
            row_key,
            etag: None,
            timestamp: None,
            payload: SessionData {
                agent,
                remote_ip,
                remote_continent,
                remote_country,
                issued: now,
                refresh_count: 0,
                refreshed: now,
                disabled: None,
            },
        })
    }

    /// A fresh session of the identity, recording the remote's fingerprint;
    /// the issue and the refresh date are each read from the clock, so
    /// nothing is known of them but that they are not before the epoch.
    pub fn new(id: String, key: String, fingerprint: &Fingerprint) -> (r: Session)
        ensures
            (r.0.partition_key@, r.0.row_key@) == spec_session_keys(id@, key@),
            r.0.etag is None,
            r.0.timestamp is None,
            r.0.payload.agent@ == fingerprint.spec_agent(),
            r.0.payload.remote_ip@ == spec_remote_text(*fingerprint),
            r.0.payload.remote_continent@ == spec_continent_text(*fingerprint),
            r.0.payload.remote_country@ == spec_country_text(*fingerprint),
            r.0.payload.issued >= 0,
            r.0.payload.refresh_count == 0,
            r.0.payload.refreshed >= 0,
            r.0.payload.disabled is None,
    {
        let issued = utc_now_millis();
        let mut session = Self::new_at(id, key, fingerprint, issued);
        session.0.payload.refreshed = utc_now_millis();
        session
    }

    pub fn from_entity(entity: TableEntity<SessionData>) -> (r: Self)
        ensures
            r.0 == entity,
    {
        Self(entity)
    }

    pub fn into_entity(self) -> (r: TableEntity<SessionData>)
        ensures
            r == self.0,
    {
        self.0
    }

    pub fn data(&self) -> (r: &SessionData)
        ensures
            *r == self.0.payload,
    {
        &self.0.payload
    }

    /// The identity id: the part of the partition key after its first `-`.
    pub fn id(&self) -> (r: &str)
        requires
            self.0.partition_key@.contains('-'),
        ensures
            r@ == spec_after_first_dash(self.0.partition_key@),
    {
        after_first_dash(self.0.partition_key.as_str())
    }

    pub fn key(&self) -> (r: &str)
        ensures
            r@ == self.0.row_key@,
    {
        self.0.row_key.as_str()
    }

    /// The session is still usable: not disabled, refreshed not before the
    /// given date, and used from the remote that opened it.
    pub fn check(&mut self, fingerprint: &Fingerprint, minimum_refresh_date: i64) -> (r: bool)
        ensures
            *final(self) == *old(self),
            r == (old(self).0.payload.disabled is None && old(self).0.payload.refreshed >= minimum_refresh_date
                && spec_matches_fingerprint(old(self).0.payload, *fingerprint)),
    {
        let data = &self.0.payload;
        data.disabled.is_none() && data.refreshed >= minimum_refresh_date && data.check(fingerprint)
    }

    pub fn is_disabled(&self) -> (r: bool)
        ensures
            r == self.0.payload.disabled is Some,
    {
        self.0.payload.disabled.is_some()
    }

    /// Disables the session at `now`; a session that is already disabled
    /// keeps the date of its first disabling.
    pub fn disable_at(&mut self, now: i64)
        ensures
            final(self).0.partition_key == old(self).0.partition_key,
            final(self).0.row_key == old(self).0.row_key,
            final(self).0.etag == old(self).0.etag,
            final(self).0.timestamp == old(self).0.timestamp,
            final(self).0.payload.agent == old(self).0.payload.agent,
            final(self).0.payload.remote_ip == old(self).0.payload.remote_ip,
            final(self).0.payload.remote_continent == old(self).0.payload.remote_continent,
            final(self).0.payload.remote_country == old(self).0.payload.remote_country,
            final(self).0.payload.issued == old(self).0.payload.issued,
            final(self).0.payload.refresh_count == old(self).0.payload.refresh_count,
            final(self).0.payload.refreshed == old(self).0.payload.refreshed,
            final(self).0.payload.disabled == (if old(self).0.payload.disabled is Some {
                old(self).0.payload.disabled
            } else {
                Some(now)
            }),
    {
        if self.0.payload.disabled.is_none() {
            self.0.payload.disabled = Some(now);
        }
    }

    /// Disables the session, recording the time of the first disabling as
    /// read from the clock.
    pub fn disable(&mut self)
        ensures
            final(self).0.partition_key == old(self).0.partition_key,
            final(self).0.row_key == old(self).0.row_key,
            final(self).0.etag == old(self).0.etag,
            final(self).0.timestamp == old(self).0.timestamp,
            final(self).0.payload.agent == old(self).0.payload.agent,
            final(self).0.payload.remote_ip == old(self).0.payload.remote_ip,
            final(self).0.payload.remote_continent == old(self).0.payload.remote_continent,
            final(self).0.payload.remote_country == old(self).0.payload.remote_country,
            final(self).0.payload.issued == old(self).0.payload.issued,
            final(self).0.payload.refresh_count == old(self).0.payload.refresh_count,
            final(self).0.payload.refreshed == old(self).0.payload.refreshed,
            old(self).0.payload.disabled is Some ==> final(self).0.payload.disabled == old(self).0.payload.disabled,
            old(self).0.payload.disabled is None ==> (final(self).0.payload.disabled matches Some(t) && t >= 0),
    {
        let now = utc_now_millis();
        self.disable_at(now);
    }

    /// Records a refresh at `now`: one more refresh (the count wraps at
    /// `u64::MAX`), refreshed at `now`.
    pub fn refresh_at(&mut self, now: i64)
        ensures
            final(self).0.partition_key == old(self).0.partition_key,
            final(self).0.row_key == old(self).0.row_key,
            final(self).0.etag == old(self).0.etag,
            final(self).0.timestamp == old(self).0.timestamp,
            final(self).0.payload.agent == old(self).0.payload.agent,
            final(self).0.payload.remote_ip == old(self).0.payload.remote_ip,
            final(self).0.payload.remote_continent == old(self).0.payload.remote_continent,
            final(self).0.payload.remote_country == old(self).0.payload.remote_country,
            final(self).0.payload.issued == old(self).0.payload.issued,
            final(self).0.payload.refresh_count == (if old(self).0.payload.refresh_count < u64::MAX {
                old(self).0.payload.refresh_count + 1
            } else {
                0
            }),
            final(self).0.payload.refreshed == now,
            final(self).0.payload.disabled == old(self).0.payload.disabled,
    {
        self.0.payload.refresh_count = self.0.payload.refresh_count.wrapping_add(1);
        self.0.payload.refreshed = now;
    }

    /// Records a refresh: one more refresh (the count wraps at `u64::MAX`),
    /// refreshed at the time read from the clock.
    pub fn refresh(&mut self)
        ensures
            final(self).0.partition_key == old(self).0.partition_key,
            final(self).0.row_key == old(self).0.row_key,
            final(self).0.etag == old(self).0.etag,
            final(self).0.timestamp == old(self).0.timestamp,
            final(self).0.payload.agent == old(self).0.payload.agent,
            final(self).0.payload.remote_ip == old(self).0.payload.remote_ip,
            final(self).0.payload.remote_continent == old(self).0.payload.remote_continent,
            final(self).0.payload.remote_country == old(self).0.payload.remote_country,
            final(self).0.payload.issued == old(self).0.payload.issued,
            final(self).0.payload.refresh_count == (if old(self).0.payload.refresh_count < u64::MAX {
                old(self).0.payload.refresh_count + 1
            } else {
                0
            }),
            final(self).0.payload.refreshed >= 0,
            final(self).0.payload.disabled == old(self).0.payload.disabled,
    {
        let now = utc_now_millis();
        self.refresh_at(now);
    }
}

} // verus!
