//! The sessions of the users: a session entity under the user, and an index
//! entry that finds the user by the session key.
use vstd::prelude::*;
use vstd::utf8::{encode_utf8, is_char_boundary};
use super::identity::{IdentityIndexData, IdentityIndexedId};
use crate::auth::identity::SiteInfo;
use crate::auth::iam::session::session::{after_first_dash, lemma_first_dash_index, spec_after_first_dash};
use crate::azure_utils::TableEntity;
use crate::clock::utc_now_millis;
use crate::text::{byte_prefix, concat_str, spec_byte_prefix, to_owned_string};
use super::IdentityManager;
use super::identity::{UserIdentity, UserIdentityData, spec_identity_keys};
use crate::auth::identity::IdentityError;
use crate::auth::identity::error::spec_is_transient_identity_error;
use crate::auth::iam::identity::manager::{push_key_condition, spec_key_condition};
use crate::auth::iam::session::manager::{is_session_key, random_key_bytes};
use crate::azure_utils::{StorageError, filter_query, is_precodition_error, spec_filter_query, spec_is_precondition_error};
use crate::backoff::{BackoffStep, Exponential, spec_exponential_delay};
use crate::encoding::base64url_nopad_encode;
use crate::text::{push_str, string_from_chars, str_equal};

verus! {

/// Data associated to a session; the dates are in milliseconds since the
/// Unix epoch.
#[derive(Debug, Clone)]
pub struct SessionData {
    pub remote: String,
    pub agent: String,
    pub issued: i64,
    pub refresh_count: u64,
    pub refreshed: i64,
    pub disabled: Option<i64>,
}

/// The keys of the session of a user: the partition is the user's id, the
/// row names the session key.
pub open spec fn spec_session_keys(user_id: Seq<char>, key: Seq<char>) -> (Seq<char>, Seq<char>) {
    (user_id, "session-"@ + key)
}

/// A row key that names a session key: a `-` comes before the key, whose
/// first two bytes end a character.
pub open spec fn has_session_key(row_key: Seq<char>) -> bool {
    &&& row_key.contains('-')
    &&& is_char_boundary(encode_utf8(spec_after_first_dash(row_key)), 2)
}

/// The session of a user. Only users may have a session, other type of identites cannot log in and thus cannot
/// have session.
#[derive(Debug)]
pub struct Session(pub TableEntity<SessionData>);

impl Session {
    /// The keys of the session of a user.
    pub fn entity_keys(user_id: &str, key: &str) -> (r: (String, String))
        ensures
            (r.0@, r.1@) == spec_session_keys(user_id@, key@),
    {
        (to_owned_string(user_id), concat_str("session-", key))
    }

    /// A new session of a user, opened at `now` from the given site.
    pub fn new_at(user_id: String, key: String, site: &SiteInfo, now: i64) -> (r: Session)
        ensures
            (r.0.partition_key@, r.0.row_key@) == spec_session_keys(user_id@, key@),
            r.0.etag is None,
            r.0.timestamp is None,
            r.0.payload.remote@ == site.remote@,
            r.0.payload.agent@ == site.agent@,
            r.0.payload.issued == now,
            r.0.payload.refresh_count == 0,
            r.0.payload.refreshed == now,
            r.0.payload.disabled is None,
    {
        let (partition_key, row_key) = Self::entity_keys(user_id.as_str(), key.as_str());
        Session(TableEntity {
            partition_key,
            row_key,
            etag: None,
            timestamp: None,
            payload: SessionData {
                remote: to_owned_string(site.remote()),
                agent: to_owned_string(site.agent()),
                issued: now,
                refresh_count: 0,
                refreshed: now,
                disabled: None,
            },
        })
    }

    /// A new session of a user, opened now from the given site: the issue
    /// and the refresh date are each read from the clock, so nothing is
    /// known of them but that they are not before the epoch.
    pub fn new(user_id: String, key: String, site: &SiteInfo) -> (r: Session)
        ensures
            (r.0.partition_key@, r.0.row_key@) == spec_session_keys(user_id@, key@),
            r.0.etag is None,
            r.0.timestamp is None,
            r.0.payload.remote@ == site.remote@,
            r.0.payload.agent@ == site.agent@,
            r.0.payload.issued >= 0,
            r.0.payload.refresh_count == 0,
            r.0.payload.refreshed >= 0,
            r.0.payload.disabled is None,
    {
        let issued = utc_now_millis();
        let mut session = Self::new_at(user_id, key, site, issued);
        session.0.payload.refreshed = utc_now_millis();
        session
    }

    /// Create Self from the stored table entity
    pub fn from_entity(entity: TableEntity<SessionData>) -> (r: Self)
        ensures
            r.0 == entity,
    {
        Session(entity)
    }

    /// Create a the table entity to store from Self
    pub fn into_entity(self) -> (r: TableEntity<SessionData>)
        ensures
            r == self.0,
    {
        self.0
    }

    /// Return the data of the session
    pub fn data(&self) -> (r: &SessionData)
        ensures
            *r == self.0.payload,
    {
        &self.0.payload
    }

    /// Return the mutable data of the session
    pub fn data_mut(&mut self) -> (r: &mut SessionData)
        ensures
            *r == old(self).0.payload,
            final(self).0.partition_key == old(self).0.partition_key,
            final(self).0.row_key == old(self).0.row_key,
            final(self).0.etag == old(self).0.etag,
            final(self).0.timestamp == old(self).0.timestamp,
            final(self).0.payload == *final(r),
    {
        &mut self.0.payload
    }

    /// The id of the user of the session
    pub fn id(&self) -> (r: &str)
        ensures
            r@ == self.0.partition_key@,
    {
        self.0.partition_key.as_str()
    }

    /// The session key: the row key after its first `-`.
    pub fn key(&self) -> (r: &str)
        requires
            self.0.row_key@.contains('-'),
        ensures
            r@ == spec_after_first_dash(self.0.row_key@),
    {
        after_first_dash(self.0.row_key.as_str())
    }
}

/// The key read back from the row key of a session is the key the session
/// was created with, and it names a session key when its first two bytes
/// end a character.
pub proof fn lemma_session_key_roundtrip(user_id: Seq<char>, key: Seq<char>)
    ensures
        spec_after_first_dash(spec_session_keys(user_id, key).1) == key,
        is_char_boundary(encode_utf8(key), 2) ==> has_session_key(spec_session_keys(user_id, key).1),
{
    reveal_strlit("session-");
    let r = "session-"@ + key;
    assert(r[7] == '-');
    assert forall|k: int| 0 <= k < 7 implies r[k] != '-' by {
        assert(r[k] == "session-"@[k]);
    }
    lemma_first_dash_index(r, 7);
    assert(r.skip(8) =~= key);
    assert(r.contains('-')) by {
        assert(r[7] == '-');
    }
}

/// Data associated to an identity index by session
#[derive(Debug)]
pub struct SessionIndexData {
    pub indexed_id: IdentityIndexedId,
}

impl IdentityIndexData for SessionIndexData {
    open spec fn spec_id(&self) -> Seq<char> {
        self.indexed_id.identity_id@
    }

    fn id(&self) -> (r: &str) {
        self.indexed_id.identity_id.as_str()
    }
}

/// The keys of the index entry of a session key: the partition is named by
/// the first two bytes of the key.
pub open spec fn spec_session_index_keys(key: Seq<char>) -> (Seq<char>, Seq<char>) {
    ("session-"@ + spec_byte_prefix(key, 2), key)
}

/// The index entry of a session.
pub open spec fn is_session_index_of(x: TableEntity<SessionIndexData>, session: TableEntity<SessionData>) -> bool {
    &&& (x.partition_key@, x.row_key@) == spec_session_index_keys(spec_after_first_dash(session.row_key@))
    &&& x.etag is None
    &&& x.timestamp is None
    &&& x.payload.indexed_id.identity_id@ == session.partition_key@
}

/// Index (user)identity by session
#[derive(Debug)]
pub struct SessionIndex(pub TableEntity<SessionIndexData>);

impl SessionIndex {
    /// Generate partition and row keys from the session key
    pub fn entity_keys(key: &str) -> (r: (String, String))
        requires
            is_char_boundary(encode_utf8(key@), 2),
        ensures
            (r.0@, r.1@) == spec_session_index_keys(key@),
    {
        (concat_str("session-", byte_prefix(key, 2)), to_owned_string(key))
    }

    /// The index entry of a session.
    pub fn from_identity(session: &Session) -> (r: SessionIndex)
        requires
            has_session_key(session.0.row_key@),
        ensures
            is_session_index_of(r.0, session.0),
    {
        let key = session.key();
        let (partition_key, row_key) = Self::entity_keys(key);
        SessionIndex(TableEntity {
            partition_key,
            row_key,
            etag: None,
            timestamp: None,
            payload: SessionIndexData { indexed_id: IdentityIndexedId { identity_id: to_owned_string(session.id()) } },
        })
    }

    /// Create Self from the stored table entity
    pub fn from_entity(entity: TableEntity<SessionIndexData>) -> (r: Self)
        ensures
            r.0 == entity,
    {
        SessionIndex(entity)
    }

    /// Create a the table entity to store from Self
    pub fn into_entity(self) -> (r: TableEntity<SessionIndexData>)
        ensures
            r == self.0,
    {
        self.0
    }

    /// Return the associated data
    pub fn into_data(self) -> (r: SessionIndexData)
        ensures
            r == self.0.payload,
    {
        self.0.payload
    }

    /// Return the data associated to the index (and not to the identity)
    pub fn data(&self) -> (r: &SessionIndexData)
        ensures
            *r == self.0.payload,
    {
        &self.0.payload
    }

    /// The unique key to index
    pub fn index_key(&self) -> (r: &str)
        ensures
            r@ == self.0.row_key@,
    {
        self.0.row_key.as_str()
    }

    /// Return the (unique) id of the identity
    pub fn id(&self) -> (r: &str)
        ensures
            r@ == self.0.payload.indexed_id.identity_id@,
    {
        self.0.payload.id()
    }
}

/// A new session entity of a user for a session key, opened from the site
/// at `now`.
pub open spec fn is_new_session_entity(
    e: TableEntity<SessionData>,
    id: Seq<char>,
    key: Seq<char>,
    site: SiteInfo,
    now: i64,
) -> bool {
    &&& (e.partition_key@, e.row_key@) == spec_session_keys(id, key)
    &&& e.etag is None
    &&& e.timestamp is None
    &&& e.payload.remote@ == site.remote@
    &&& e.payload.agent@ == site.agent@
    &&& e.payload.issued == now
    &&& e.payload.refresh_count == 0
    &&& e.payload.refreshed == now
    &&& e.payload.disabled is None
}

/// The error of a failed session or session index write: a conflict with
/// the stored state is a session key conflict, else the storage failure.
pub open spec fn is_session_write_error(e: IdentityError, err: StorageError) -> bool {
    if spec_is_precondition_error(err) {
        e is SessionKeyConflict
    } else {
        e matches IdentityError::DB(m) && m@ == err.spec_describe()
    }
}

fn session_write_error(err: &StorageError) -> (e: IdentityError)
    ensures
        is_session_write_error(e, *err),
{
    if is_precodition_error(err) {
        IdentityError::SessionKeyConflict
    } else {
        IdentityError::from_storage_error(err)
    }
}

/// A session that `create_session` stores is found again by its key: its
/// index entry has the keys that `find_user_by_session` queries for the key
/// and names the user, and the session has the keys that the lookup then
/// reads in the user's partition.
pub proof fn lemma_created_session_is_found(
    e: TableEntity<SessionData>,
    x: TableEntity<SessionIndexData>,
    user_id: Seq<char>,
    key: Seq<char>,
    site: SiteInfo,
    now: i64,
)
    requires
        is_new_session_entity(e, user_id, key, site, now),
        is_session_index_of(x, e),
    ensures
        (x.partition_key@, x.row_key@) == spec_session_index_keys(key),
        x.payload.indexed_id.identity_id@ == user_id,
        (e.partition_key@, e.row_key@) == spec_session_keys(user_id, key),
{
    lemma_session_key_roundtrip(user_id, key);
}

impl IdentityManager {
    /// A new random session key.
    pub fn genrate_session_key(&self) -> (key: String)
        ensures
            is_session_key(key@),
    {
        let key_sequence = random_key_bytes();
        let key = base64url_nopad_encode(key_sequence.as_slice());
        proof {
            assert(key@.len() == (8 * 32 + 5) / 6);
        }
        key
    }
}

/// The stages of creating a session.
#[derive(Debug)]
pub enum CreateSessionStage {
    /// A new session with this key was sent for insertion.
    AwaitSession { key: String },
    /// The session is stored; its index entry was sent for insertion.
    AwaitIndex { session: Session },
    /// Storing the index entry failed; the stored session was sent for removal.
    AwaitSessionRemoval { error: IdentityError },
    /// Waiting before the next attempt.
    AwaitRetry,
    Finished,
}

/// What the storage reports back to the session creation.
#[derive(Debug)]
pub enum CreateSessionEvent {
    SessionInserted(Result<TableEntity<SessionData>, StorageError>),
    IndexInserted(Result<TableEntity<SessionIndexData>, StorageError>),
    /// The session was removed (a failure to remove it is only logged).
    SessionRemoved,
    /// The wait is over; the clock reading then is the time the next
    /// attempt's session is opened at.
    Waited(i64),
}

/// What the session creation asks the caller to do next.
#[derive(Debug)]
pub enum CreateSessionAction {
    InsertSession(TableEntity<SessionData>),
    InsertIndex(TableEntity<SessionIndexData>),
    RemoveSession(TableEntity<SessionData>),
    Wait(u64),
    Finish(Result<Session, IdentityError>),
}

/// Creation of a session for an authenticated user: a session with a fresh
/// key is stored, then its index entry; if the index entry cannot be stored
/// the session is removed. A key collision is retried with a new key.
#[derive(Debug)]
pub struct CreateSessionFlow {
    pub identity_id: String,
    pub site: SiteInfo,
    pub policy: Exponential,
    pub attempt: u32,
    pub stage: CreateSessionStage,
}

impl CreateSessionFlow {
    /// The flow's constant part is unchanged.
    pub open spec fn same_request(&self, other: CreateSessionFlow) -> bool {
        &&& self.identity_id@ == other.identity_id@
        &&& self.site.remote@ == other.site.remote@
        &&& self.site.agent@ == other.site.agent@
        &&& self.policy == other.policy
    }

    /// A stored session being indexed has a session key in its row key.
    pub open spec fn wf(&self) -> bool {
        self.stage matches CreateSessionStage::AwaitIndex { session } ==> has_session_key(session.0.row_key@)
    }

    /// Which event the flow waits for in its stage.
    pub open spec fn spec_accepts(&self, event: CreateSessionEvent) -> bool {
        match self.stage {
            CreateSessionStage::AwaitSession { .. } => event is SessionInserted,
            CreateSessionStage::AwaitIndex { .. } => event is IndexInserted,
            CreateSessionStage::AwaitSessionRemoval { .. } => event is SessionRemoved,
            CreateSessionStage::AwaitRetry => event is Waited,
            CreateSessionStage::Finished => false,
        }
    }

    /// Whether the flow waits for this event.
    pub fn accepts(&self, event: &CreateSessionEvent) -> (r: bool)
        ensures
            r == self.spec_accepts(*event),
    {
        match (&self.stage, event) {
            (CreateSessionStage::AwaitSession { .. }, CreateSessionEvent::SessionInserted(_)) => true,
            (CreateSessionStage::AwaitIndex { .. }, CreateSessionEvent::IndexInserted(_)) => true,
            (CreateSessionStage::AwaitSessionRemoval { .. }, CreateSessionEvent::SessionRemoved) => true,
            (CreateSessionStage::AwaitRetry, CreateSessionEvent::Waited(_)) => true,
            _ => false,
        }
    }

    /// An attempt with a fresh key: the new session, opened at `now`, is
    /// sent for insertion.
    pub open spec fn spec_attempt_started(&self, action: CreateSessionAction, now: i64) -> bool {
        &&& self.stage matches CreateSessionStage::AwaitSession { key } && is_session_key(key@)
            && (action matches CreateSessionAction::InsertSession(e)
            && is_new_session_entity(e, self.identity_id@, key@, self.site, now))
    }

    fn start_attempt(&mut self, manager: &IdentityManager, now: i64) -> (action: CreateSessionAction)
        ensures
            final(self).wf(),
            final(self).same_request(*old(self)),
            final(self).attempt == old(self).attempt,
            final(self).spec_attempt_started(action, now),
    {
        let key = manager.genrate_session_key();
        let session = Session::new_at(self.identity_id.clone(), key.clone(), &self.site, now);
        self.stage = CreateSessionStage::AwaitSession { key };
        CreateSessionAction::InsertSession(session.into_entity())
    }

    fn fail_attempt(&mut self, err: IdentityError) -> (action: CreateSessionAction)
        ensures
            final(self).wf(),
            final(self).same_request(*old(self)),
            if spec_is_transient_identity_error(err) && old(self).attempt < old(self).policy.max_retry {
                &&& final(self).attempt == old(self).attempt + 1
                &&& final(self).stage is AwaitRetry
                &&& action == CreateSessionAction::Wait(
                    spec_exponential_delay(old(self).policy.base_delay_micros as nat, old(self).attempt as nat) as u64)
            } else {
                &&& final(self).attempt == old(self).attempt
                &&& final(self).stage is Finished
                &&& action == CreateSessionAction::Finish(Err(err))
            },
    {
        match self.policy.step::<Session, IdentityError>(self.attempt, Err(err.into_backoff())) {
            BackoffStep::Retry { attempt, delay_micros } => {
                self.attempt = attempt;
                self.stage = CreateSessionStage::AwaitRetry;
                CreateSessionAction::Wait(delay_micros)
            },
            BackoffStep::Done(r) => {
                self.stage = CreateSessionStage::Finished;
                CreateSessionAction::Finish(r)
            },
        }
    }

    /// Advances the flow with what the storage reported.
    pub fn step(&mut self, manager: &IdentityManager, event: CreateSessionEvent) -> (action: CreateSessionAction)
        requires
            old(self).wf(),
            old(self).spec_accepts(event),
            event matches CreateSessionEvent::SessionInserted(Ok(e)) ==> has_session_key(e.row_key@),
        ensures
            final(self).wf(),
            final(self).same_request(*old(self)),
            match (old(self).stage, event) {
                (CreateSessionStage::AwaitSession { .. }, CreateSessionEvent::SessionInserted(Ok(e))) => {
                    &&& final(self).stage matches CreateSessionStage::AwaitIndex { session } && session.0 == e
                    &&& action matches CreateSessionAction::InsertIndex(x) && is_session_index_of(x, e)
                },
                (CreateSessionStage::AwaitSession { .. }, CreateSessionEvent::SessionInserted(Err(err))) => {
                    if spec_is_precondition_error(err) && old(self).attempt < old(self).policy.max_retry {
                        &&& final(self).stage is AwaitRetry
                        &&& final(self).attempt == old(self).attempt + 1
                        &&& action == CreateSessionAction::Wait(
                            spec_exponential_delay(old(self).policy.base_delay_micros as nat, old(self).attempt as nat) as u64)
                    } else {
                        final(self).stage is Finished
                            && (action matches CreateSessionAction::Finish(Err(e)) && is_session_write_error(e, err))
                    }
                },
                (CreateSessionStage::AwaitIndex { session }, CreateSessionEvent::IndexInserted(Ok(_))) => {
                    final(self).stage is Finished && action == CreateSessionAction::Finish(Ok(session))
                },
                (CreateSessionStage::AwaitIndex { session }, CreateSessionEvent::IndexInserted(Err(err))) => {
                    &&& final(self).stage matches CreateSessionStage::AwaitSessionRemoval { error }
                        && is_session_write_error(error, err)
                    &&& action == CreateSessionAction::RemoveSession(session.0)
                },
                (CreateSessionStage::AwaitSessionRemoval { error }, CreateSessionEvent::SessionRemoved) => {
                    if spec_is_transient_identity_error(error) && old(self).attempt < old(self).policy.max_retry {
                        &&& final(self).stage is AwaitRetry
                        &&& final(self).attempt == old(self).attempt + 1
                        &&& action == CreateSessionAction::Wait(
                            spec_exponential_delay(old(self).policy.base_delay_micros as nat, old(self).attempt as nat) as u64)
                    } else {
                        final(self).stage is Finished && action == CreateSessionAction::Finish(Err(error))
                    }
                },
                (CreateSessionStage::AwaitRetry, CreateSessionEvent::Waited(now)) => {
                    final(self).attempt == old(self).attempt && final(self).spec_attempt_started(action, now)
                },
                _ => false,
            },
    {
        let mut stage = CreateSessionStage::Finished;
        std::mem::swap(&mut stage, &mut self.stage);
        match (stage, event) {
            (CreateSessionStage::AwaitSession { .. }, CreateSessionEvent::SessionInserted(Ok(e))) => {
                let session = Session::from_entity(e);
                let index = SessionIndex::from_identity(&session);
                self.stage = CreateSessionStage::AwaitIndex { session };
                CreateSessionAction::InsertIndex(index.into_entity())
            },
            (CreateSessionStage::AwaitSession { .. }, CreateSessionEvent::SessionInserted(Err(err))) => {
                self.fail_attempt(session_write_error(&err))
            },
            (CreateSessionStage::AwaitIndex { session }, CreateSessionEvent::IndexInserted(Ok(_))) => {
                CreateSessionAction::Finish(Ok(session))
            },
            (CreateSessionStage::AwaitIndex { session }, CreateSessionEvent::IndexInserted(Err(err))) => {
                let error = session_write_error(&err);
                self.stage = CreateSessionStage::AwaitSessionRemoval { error };
                CreateSessionAction::RemoveSession(session.into_entity())
            },
            (CreateSessionStage::AwaitSessionRemoval { error }, CreateSessionEvent::SessionRemoved) => {
                self.fail_attempt(error)
            },
            (CreateSessionStage::AwaitRetry, CreateSessionEvent::Waited(now)) => {
                self.start_attempt(manager, now)
            },
            (stage, _) => {
                proof {
                    assert(false);
                }
                self.stage = stage;
                CreateSessionAction::Finish(Err(IdentityError::SessionRequired))
            },
        }
    }
}

impl IdentityManager {
    /// Creates a new user session for the given identity, retrying a key
    /// collision with the given policy. It is assumed that the identity has
    /// been already authenticated. The first session is opened at `now`.
    pub fn create_session(&self, identity: &UserIdentity, site: SiteInfo, policy: Exponential, now: i64) -> (r: (
        CreateSessionFlow,
        CreateSessionAction,
    ))
        ensures
            r.0.wf(),
            r.0.identity_id@ == identity.0.payload.core.id@,
            r.0.site.remote@ == site.remote@,
            r.0.site.agent@ == site.agent@,
            r.0.policy == policy,
            r.0.attempt == 0,
            r.0.spec_attempt_started(r.1, now),
    {
        let mut flow = CreateSessionFlow {
            identity_id: to_owned_string(identity.id()),
            site,
            policy,
            attempt: 0,
            stage: CreateSessionStage::Finished,
        };
        let action = flow.start_attempt(self, now);
        (flow, action)
    }
}

/// The stages of finding a user by a session key.
#[derive(Debug)]
pub enum FindSessionStage {
    /// The session index entries of the key were queried.
    AwaitIndices,
    /// The identity that the index names was asked for.
    AwaitIdentity,
    /// The session of the identity was asked for.
    AwaitSession { identity: UserIdentity },
    Finished,
}

/// What the storage reports back to the lookup.
#[derive(Debug)]
pub enum FindSessionEvent {
    IndicesLoaded(Result<Vec<TableEntity<IdentityIndexedId>>, StorageError>),
    IdentityLoaded(Result<Option<TableEntity<UserIdentityData>>, StorageError>),
    SessionLoaded(Result<Option<TableEntity<SessionData>>, StorageError>),
}

/// What the lookup asks the caller to do next.
#[derive(Debug)]
pub enum FindSessionAction {
    QueryIndices(String),
    GetIdentity { partition_key: String, row_key: String },
    GetSession { partition_key: String, row_key: String },
    Finish(Result<(UserIdentity, Session), IdentityError>),
}

/// Lookup of a user and its session by a session key: the session index
/// names the user, the user's partition holds the session.
#[derive(Debug)]
pub struct FindSessionFlow {
    pub session_key: String,
    pub stage: FindSessionStage,
}

impl FindSessionFlow {
    /// Which event the flow waits for in its stage.
    pub open spec fn spec_accepts(&self, event: FindSessionEvent) -> bool {
        match self.stage {
            FindSessionStage::AwaitIndices => event is IndicesLoaded,
            FindSessionStage::AwaitIdentity => event is IdentityLoaded,
            FindSessionStage::AwaitSession { .. } => event is SessionLoaded,
            FindSessionStage::Finished => false,
        }
    }

    /// Whether the flow waits for this event.
    pub fn accepts(&self, event: &FindSessionEvent) -> (r: bool)
        ensures
            r == self.spec_accepts(*event),
    {
        match (&self.stage, event) {
            (FindSessionStage::AwaitIndices, FindSessionEvent::IndicesLoaded(_)) => true,
            (FindSessionStage::AwaitIdentity, FindSessionEvent::IdentityLoaded(_)) => true,
            (FindSessionStage::AwaitSession { .. }, FindSessionEvent::SessionLoaded(_)) => true,
            _ => false,
        }
    }

    /// Advances the lookup with what the storage reported. A query selects
    /// at most one index entry.
    pub fn step(&mut self, event: FindSessionEvent) -> (action: FindSessionAction)
        requires
            old(self).spec_accepts(event),
            event matches FindSessionEvent::IndicesLoaded(Ok(v)) ==> v@.len() <= 1
                && (v@.len() == 1 ==> is_char_boundary(encode_utf8(v@[0].payload.identity_id@), 2)),
        ensures
            final(self).session_key == old(self).session_key,
            match (old(self).stage, event) {
                (FindSessionStage::AwaitIndices, FindSessionEvent::IndicesLoaded(Ok(v))) => {
                    if v@.len() == 1 {
                        &&& final(self).stage is AwaitIdentity
                        &&& action matches FindSessionAction::GetIdentity { partition_key, row_key }
                            && (partition_key@, row_key@) == spec_identity_keys(v@[0].payload.identity_id@)
                    } else {
                        final(self).stage is Finished
                            && action matches FindSessionAction::Finish(Err(IdentityError::IdentityNotFound))
                    }
                },
                (FindSessionStage::AwaitIndices, FindSessionEvent::IndicesLoaded(Err(err))) => {
                    final(self).stage is Finished && (action matches FindSessionAction::Finish(Err(IdentityError::DB(m)))
                        && m@ == err.spec_describe())
                },
                (FindSessionStage::AwaitIdentity, FindSessionEvent::IdentityLoaded(Ok(Some(e)))) => {
                    &&& final(self).stage matches FindSessionStage::AwaitSession { identity } && identity.0 == e
                    &&& action matches FindSessionAction::GetSession { partition_key, row_key }
                        && (partition_key@, row_key@) == spec_session_keys(e.payload.core.id@, old(self).session_key@)
                },
                (FindSessionStage::AwaitIdentity, FindSessionEvent::IdentityLoaded(Ok(None))) => {
                    final(self).stage is Finished
                        && action matches FindSessionAction::Finish(Err(IdentityError::IdentityNotFound))
                },
                (FindSessionStage::AwaitIdentity, FindSessionEvent::IdentityLoaded(Err(err))) => {
                    final(self).stage is Finished && (action matches FindSessionAction::Finish(Err(IdentityError::DB(m)))
                        && m@ == err.spec_describe())
                },
                (FindSessionStage::AwaitSession { identity }, FindSessionEvent::SessionLoaded(Ok(Some(s)))) => {
                    final(self).stage is Finished && action == FindSessionAction::Finish(Ok((identity, Session(s))))
                },
                (FindSessionStage::AwaitSession { .. }, FindSessionEvent::SessionLoaded(Ok(None))) => {
                    final(self).stage is Finished
                        && action matches FindSessionAction::Finish(Err(IdentityError::IdentityNotFound))
                },
                (FindSessionStage::AwaitSession { .. }, FindSessionEvent::SessionLoaded(Err(err))) => {
                    final(self).stage is Finished && (action matches FindSessionAction::Finish(Err(IdentityError::DB(m)))
                        && m@ == err.spec_describe())
                },
                _ => false,
            },
    {
        let mut stage = FindSessionStage::Finished;
        std::mem::swap(&mut stage, &mut self.stage);
        match (stage, event) {
            (FindSessionStage::AwaitIndices, FindSessionEvent::IndicesLoaded(Ok(mut indices))) => {
                match indices.pop() {
                    Some(index) => {
                        let (partition_key, row_key) = UserIdentity::entity_keys(index.payload.identity_id.as_str());
                        self.stage = FindSessionStage::AwaitIdentity;
                        FindSessionAction::GetIdentity { partition_key, row_key }
                    },
                    None => FindSessionAction::Finish(Err(IdentityError::IdentityNotFound)),
                }
            },
            (FindSessionStage::AwaitIndices, FindSessionEvent::IndicesLoaded(Err(err))) => {
                FindSessionAction::Finish(Err(IdentityError::from_storage_error(&err)))
            },
            (FindSessionStage::AwaitIdentity, FindSessionEvent::IdentityLoaded(Ok(Some(e)))) => {
                let identity = UserIdentity::from_entity(e);
                let (partition_key, row_key) = Session::entity_keys(identity.id(), self.session_key.as_str());
                self.stage = FindSessionStage::AwaitSession { identity };
                FindSessionAction::GetSession { partition_key, row_key }
            },
            (FindSessionStage::AwaitIdentity, FindSessionEvent::IdentityLoaded(Ok(None))) => {
                FindSessionAction::Finish(Err(IdentityError::IdentityNotFound))
            },
            (FindSessionStage::AwaitIdentity, FindSessionEvent::IdentityLoaded(Err(err))) => {
                FindSessionAction::Finish(Err(IdentityError::from_storage_error(&err)))
            },
            (FindSessionStage::AwaitSession { identity }, FindSessionEvent::SessionLoaded(Ok(Some(s)))) => {
                FindSessionAction::Finish(Ok((identity, Session::from_entity(s))))
            },
            (FindSessionStage::AwaitSession { .. }, FindSessionEvent::SessionLoaded(Ok(None))) => {
                FindSessionAction::Finish(Err(IdentityError::IdentityNotFound))
            },
            (FindSessionStage::AwaitSession { .. }, FindSessionEvent::SessionLoaded(Err(err))) => {
                FindSessionAction::Finish(Err(IdentityError::from_storage_error(&err)))
            },
            (stage, _) => {
                proof {
                    assert(false);
                }
                self.stage = stage;
                FindSessionAction::Finish(Err(IdentityError::SessionRequired))
            },
        }
    }
}

impl IdentityManager {
    /// Find a user and the session by the given session key: the lookup
    /// starts with the query of the session index entry of the key.
    pub fn find_user_by_session(&self, session_key: &str) -> (r: (FindSessionFlow, FindSessionAction))
        requires
            is_char_boundary(encode_utf8(session_key@), 2),
        ensures
            r.0.session_key@ == session_key@,
            r.0.stage is AwaitIndices,
            r.1 matches FindSessionAction::QueryIndices(q) && q@ == spec_filter_query({
                let (p, k) = spec_session_index_keys(session_key@);
                spec_key_condition(p, k)
            }),
    {
        let (p, k) = SessionIndex::entity_keys(session_key);
        let mut c: Vec<char> = Vec::new();
        push_key_condition(&mut c, p.as_str(), k.as_str());
        let condition = string_from_chars(&c);
        proof {
            assert(condition@ =~= spec_key_condition(p@, k@));
        }
        let query = filter_query(condition.as_str());
        let flow = FindSessionFlow { session_key: to_owned_string(session_key), stage: FindSessionStage::AwaitIndices };
        (flow, FindSessionAction::QueryIndices(query))
    }
}

/// The session refreshed: counted once more and refreshed at a time after
/// the epoch; the rest is kept.
pub open spec fn is_refreshed(new: TableEntity<SessionData>, old: TableEntity<SessionData>, now: i64) -> bool {
    &&& new.partition_key == old.partition_key
    &&& new.row_key == old.row_key
    &&& new.etag == old.etag
    &&& new.timestamp == old.timestamp
    &&& new.payload.remote == old.payload.remote
    &&& new.payload.agent == old.payload.agent
    &&& new.payload.issued == old.payload.issued
    &&& new.payload.refresh_count == old.payload.refresh_count + 1
    &&& new.payload.refreshed == now
    &&& new.payload.disabled == old.payload.disabled
}

/// The session disabled at `now`; the rest is kept.
pub open spec fn is_disabled_at(new: TableEntity<SessionData>, old: TableEntity<SessionData>, now: i64) -> bool {
    &&& new.partition_key == old.partition_key
    &&& new.row_key == old.row_key
    &&& new.etag == old.etag
    &&& new.timestamp == old.timestamp
    &&& new.payload.remote == old.payload.remote
    &&& new.payload.agent == old.payload.agent
    &&& new.payload.issued == old.payload.issued
    &&& new.payload.refresh_count == old.payload.refresh_count
    &&& new.payload.refreshed == old.payload.refreshed
    &&& new.payload.disabled == Some(now)
}

/// The session is used from the site that opened it.
pub open spec fn spec_same_site(data: SessionData, site: SiteInfo) -> bool {
    data.remote@ == site.remote@ && data.agent@ == site.agent@
}

/// A stored session disabled at `now`.
fn disable_at(session: &mut TableEntity<SessionData>, now: i64)
    ensures
        is_disabled_at(*final(session), *old(session), now),
{
    session.payload.disabled = Some(now);
}

/// The stages of refreshing a session.
#[derive(Debug)]
pub enum RefreshSessionStage {
    /// The user and the session of the key were looked up.
    AwaitFound,
    /// The refreshed session was sent for update.
    AwaitUpdate { identity: UserIdentity },
    /// The session, used from another site, was sent for update disabled.
    AwaitDisable,
    /// Waiting before the next attempt.
    AwaitRetry,
    Finished,
}

/// What the storage, or the lookup of the session, reports back.
#[derive(Debug)]
pub enum RefreshSessionEvent {
    /// The outcome of `find_user_by_session` for the key, with the clock
    /// reading taken when it came: the session is refreshed, or disabled, at
    /// that time.
    Found(Result<(UserIdentity, Session), IdentityError>, i64),
    Updated(Result<TableEntity<SessionData>, StorageError>),
    Waited,
}

/// What the refresh asks the caller to do next.
#[derive(Debug)]
pub enum RefreshSessionAction {
    /// Run `find_user_by_session` for the key and report what it found.
    FindSession(String),
    UpdateSession(TableEntity<SessionData>),
    Wait(u64),
    Finish(Result<(UserIdentity, Session), IdentityError>),
}

/// Refresh of a session: a disabled session is expired; a session used from
/// another site than the one that opened it is disabled and expired (it may
/// be compromised); else it is counted as refreshed now. A conflict on the
/// update is retried from the lookup.
#[derive(Debug)]
pub struct RefreshSessionFlow {
    pub session_key: String,
    pub site: SiteInfo,
    pub policy: Exponential,
    pub attempt: u32,
    pub stage: RefreshSessionStage,
}

impl RefreshSessionFlow {
    /// The flow's constant part is unchanged.
    pub open spec fn same_request(&self, other: RefreshSessionFlow) -> bool {
        &&& self.session_key@ == other.session_key@
        &&& self.site.remote@ == other.site.remote@
        &&& self.site.agent@ == other.site.agent@
        &&& self.policy == other.policy
    }

    /// Which event the flow waits for in its stage.
    pub open spec fn spec_accepts(&self, event: RefreshSessionEvent) -> bool {
        match self.stage {
            RefreshSessionStage::AwaitFound => event is Found,
            RefreshSessionStage::AwaitUpdate { .. } => event is Updated,
            RefreshSessionStage::AwaitDisable => event is Updated,
            RefreshSessionStage::AwaitRetry => event is Waited,
            RefreshSessionStage::Finished => false,
        }
    }

    /// Whether the flow waits for this event.
    pub fn accepts(&self, event: &RefreshSessionEvent) -> (r: bool)
        ensures
            r == self.spec_accepts(*event),
    {
        match (&self.stage, event) {
            (RefreshSessionStage::AwaitFound, RefreshSessionEvent::Found(..)) => true,
            (RefreshSessionStage::AwaitUpdate { .. }, RefreshSessionEvent::Updated(_)) => true,
            (RefreshSessionStage::AwaitDisable, RefreshSessionEvent::Updated(_)) => true,
            (RefreshSessionStage::AwaitRetry, RefreshSessionEvent::Waited) => true,
            _ => false,
        }
    }

    /// The answer to a failed attempt: a transient failure is retried after
    /// a wait while attempts are left.
    pub open spec fn spec_failed(&self, old: RefreshSessionFlow, err: IdentityError, action: RefreshSessionAction) -> bool {
        if spec_is_transient_identity_error(err) && old.attempt < old.policy.max_retry {
            &&& self.attempt == old.attempt + 1
            &&& self.stage is AwaitRetry
            &&& action == RefreshSessionAction::Wait(
                spec_exponential_delay(old.policy.base_delay_micros as nat, old.attempt as nat) as u64)
        } else {
            &&& self.attempt == old.attempt
            &&& self.stage is Finished
            &&& action == RefreshSessionAction::Finish(Err(err))
        }
    }

    /// What the refresh does with a found session at time `now`, going from
    /// `self` to `new`.
    pub open spec fn spec_on_found(
        &self,
        new: RefreshSessionFlow,
        identity: UserIdentity,
        session: Session,
        now: i64,
        action: RefreshSessionAction,
    ) -> bool {
        if session.0.payload.disabled is Some {
            new.spec_failed(*self, IdentityError::SessionExpired, action)
        } else if !spec_same_site(session.0.payload, self.site) {
            &&& new.stage is AwaitDisable
            &&& action matches RefreshSessionAction::UpdateSession(e) && is_disabled_at(e, session.0, now)
        } else {
            &&& new.stage matches RefreshSessionStage::AwaitUpdate { identity: i } && i == identity
            &&& action matches RefreshSessionAction::UpdateSession(e) && is_refreshed(e, session.0, now)
        }
    }

    fn fail_attempt(&mut self, err: IdentityError) -> (action: RefreshSessionAction)
        ensures
            final(self).same_request(*old(self)),
            final(self).spec_failed(*old(self), err, action),
    {
        match self.policy.step::<(UserIdentity, Session), IdentityError>(self.attempt, Err(err.into_backoff())) {
            BackoffStep::Retry { attempt, delay_micros } => {
                self.attempt = attempt;
                self.stage = RefreshSessionStage::AwaitRetry;
                RefreshSessionAction::Wait(delay_micros)
            },
            BackoffStep::Done(r) => {
                self.stage = RefreshSessionStage::Finished;
                RefreshSessionAction::Finish(r)
            },
        }
    }

    /// Advances the refresh with what was reported.
    pub fn step(&mut self, event: RefreshSessionEvent) -> (action: RefreshSessionAction)
        requires
            old(self).spec_accepts(event),
            event matches RefreshSessionEvent::Found(Ok((_, s)), _) ==> s.0.payload.refresh_count < u64::MAX,
        ensures
            final(self).same_request(*old(self)),
            match (old(self).stage, event) {
                (RefreshSessionStage::AwaitFound, RefreshSessionEvent::Found(Ok((identity, session)), now)) => {
                    old(self).spec_on_found(*final(self), identity, session, now, action)
                },
                (RefreshSessionStage::AwaitFound, RefreshSessionEvent::Found(Err(err), _)) => {
                    final(self).spec_failed(*old(self), err, action)
                },
                (RefreshSessionStage::AwaitUpdate { identity }, RefreshSessionEvent::Updated(Ok(e))) => {
                    final(self).stage is Finished && action == RefreshSessionAction::Finish(Ok((identity, Session(e))))
                },
                (RefreshSessionStage::AwaitUpdate { .. }, RefreshSessionEvent::Updated(Err(err))) => {
                    exists|e: IdentityError| is_session_write_error(e, err) && final(self).spec_failed(*old(self), e, action)
                },
                (RefreshSessionStage::AwaitDisable, RefreshSessionEvent::Updated(Ok(_))) => {
                    final(self).spec_failed(*old(self), IdentityError::SessionExpired, action)
                },
                (RefreshSessionStage::AwaitDisable, RefreshSessionEvent::Updated(Err(err))) => {
                    exists|e: IdentityError| is_session_write_error(e, err) && final(self).spec_failed(*old(self), e, action)
                },
                (RefreshSessionStage::AwaitRetry, RefreshSessionEvent::Waited) => {
                    &&& final(self).attempt == old(self).attempt
                    &&& final(self).stage is AwaitFound
                    &&& action matches RefreshSessionAction::FindSession(k) && k@ == old(self).session_key@
                },
                _ => false,
            },
    {
        let mut stage = RefreshSessionStage::Finished;
        std::mem::swap(&mut stage, &mut self.stage);
        match (stage, event) {
            (RefreshSessionStage::AwaitFound, RefreshSessionEvent::Found(Ok((identity, session)), now)) => {
                let mut entity = session.into_entity();
                if entity.payload.disabled.is_some() {
                    self.fail_attempt(IdentityError::SessionExpired)
                } else if !str_equal(entity.payload.remote.as_str(), self.site.remote())
                    || !str_equal(entity.payload.agent.as_str(), self.site.agent()) {
                    disable_at(&mut entity, now);
                    self.stage = RefreshSessionStage::AwaitDisable;
                    RefreshSessionAction::UpdateSession(entity)
                } else {
                    entity.payload.refresh_count = entity.payload.refresh_count + 1;
                    entity.payload.refreshed = now;
                    self.stage = RefreshSessionStage::AwaitUpdate { identity };
                    RefreshSessionAction::UpdateSession(entity)
                }
            },
            (RefreshSessionStage::AwaitFound, RefreshSessionEvent::Found(Err(err), _)) => {
                self.fail_attempt(err)
            },
            (RefreshSessionStage::AwaitUpdate { identity }, RefreshSessionEvent::Updated(Ok(e))) => {
                RefreshSessionAction::Finish(Ok((identity, Session::from_entity(e))))
            },
            (RefreshSessionStage::AwaitUpdate { .. }, RefreshSessionEvent::Updated(Err(err))) => {
                self.fail_attempt(session_write_error(&err))
            },
            (RefreshSessionStage::AwaitDisable, RefreshSessionEvent::Updated(Ok(_))) => {
                self.fail_attempt(IdentityError::SessionExpired)
            },
            (RefreshSessionStage::AwaitDisable, RefreshSessionEvent::Updated(Err(err))) => {
                self.fail_attempt(session_write_error(&err))
            },
            (RefreshSessionStage::AwaitRetry, RefreshSessionEvent::Waited) => {
                self.stage = RefreshSessionStage::AwaitFound;
                RefreshSessionAction::FindSession(self.session_key.clone())
            },
            (stage, _) => {
                proof {
                    assert(false);
                }
                self.stage = stage;
                RefreshSessionAction::Finish(Err(IdentityError::SessionRequired))
            },
        }
    }
}

/// A refresh only renews a session used from the site that opened it. A
/// found, enabled session whose recorded remote address or agent differs
/// from the requesting site is written back disabled at `now` (its refresh
/// date and count kept), and once that is stored the refresh fails with
/// `SessionExpired`; one used from the same remote and agent is counted as
/// refreshed at `now`.
pub proof fn lemma_refresh_from_another_site_expires(
    flow: RefreshSessionFlow,
    new: RefreshSessionFlow,
    identity: UserIdentity,
    session: Session,
    now: i64,
    action: RefreshSessionAction,
)
    requires
        flow.spec_on_found(new, identity, session, now, action),
        session.0.payload.disabled is None,
    ensures
        session.0.payload.remote@ != flow.site.remote@ || session.0.payload.agent@ != flow.site.agent@ ==> {
            &&& new.stage is AwaitDisable
            &&& action matches RefreshSessionAction::UpdateSession(e)
                && e.payload.disabled == Some(now)
                && e.payload.refreshed == session.0.payload.refreshed
                && e.payload.refresh_count == session.0.payload.refresh_count
        },
        session.0.payload.remote@ == flow.site.remote@ && session.0.payload.agent@ == flow.site.agent@ ==> {
            &&& new.stage matches RefreshSessionStage::AwaitUpdate { identity: i } && i == identity
            &&& action matches RefreshSessionAction::UpdateSession(e)
                && e.payload.disabled is None
                && e.payload.refreshed == now
                && e.payload.refresh_count == session.0.payload.refresh_count + 1
        },
{
}

/// A disabled session that has been written back ends the refresh with
/// `SessionExpired`; it is never given back as refreshed.
pub proof fn lemma_disabled_write_ends_in_expiry(flow: RefreshSessionFlow, new: RefreshSessionFlow, action: RefreshSessionAction)
    requires
        new.spec_failed(flow, IdentityError::SessionExpired, action),
    ensures
        new.stage is Finished,
        action == RefreshSessionAction::Finish(Err(IdentityError::SessionExpired)),
{
}

impl IdentityManager {
    /// Try to update the session and return a refreshed key. In case of a
    /// compromised session key the session is also disabled. The flow
    /// starts with the lookup of the session.
    pub fn refresh_session(&self, session_key: &str, site: SiteInfo, policy: Exponential) -> (r: (
        RefreshSessionFlow,
        RefreshSessionAction,
    ))
        ensures
            r.0.session_key@ == session_key@,
            r.0.site.remote@ == site.remote@,
            r.0.site.agent@ == site.agent@,
            r.0.policy == policy,
            r.0.attempt == 0,
            r.0.stage is AwaitFound,
            r.1 matches RefreshSessionAction::FindSession(k) && k@ == session_key@,
    {
        let flow = RefreshSessionFlow {
            session_key: to_owned_string(session_key),
            site,
            policy,
            attempt: 0,
            stage: RefreshSessionStage::AwaitFound,
        };
        (flow, RefreshSessionAction::FindSession(to_owned_string(session_key)))
    }
}

/// The stages of invalidating a session by its key.
#[derive(Debug)]
pub enum InvalidateSessionStage {
    AwaitFound,
    AwaitUpdate,
    AwaitRetry,
    Finished,
}

/// What the storage, or the lookup of the session, reports back.
#[derive(Debug)]
pub enum InvalidateSessionEvent {
    /// The outcome of `find_user_by_session` for the key, with the clock
    /// reading taken when it came: the session is disabled at that time.
    Found(Result<(UserIdentity, Session), IdentityError>, i64),
    Updated(Result<TableEntity<SessionData>, StorageError>),
    Waited,
}

/// What the invalidation asks the caller to do next.
#[derive(Debug)]
pub enum InvalidateSessionAction {
    /// Run `find_user_by_session` for the key and report what it found.
    FindSession(String),
    UpdateSession(TableEntity<SessionData>),
    Wait(u64),
    Finish(Result<(), IdentityError>),
}

/// Invalidation of a session by its key: the session is disabled now; a
/// conflict on the update is retried from the lookup.
#[derive(Debug)]
pub struct InvalidateSessionFlow {
    pub session_key: String,
    pub policy: Exponential,
    pub attempt: u32,
    pub stage: InvalidateSessionStage,
}

impl InvalidateSessionFlow {
    /// Which event the flow waits for in its stage.
    pub open spec fn spec_accepts(&self, event: InvalidateSessionEvent) -> bool {
        match self.stage {
            InvalidateSessionStage::AwaitFound => event is Found,
            InvalidateSessionStage::AwaitUpdate => event is Updated,
            InvalidateSessionStage::AwaitRetry => event is Waited,
            InvalidateSessionStage::Finished => false,
        }
    }

    /// The answer to a failed attempt: a transient failure is retried after
    /// a wait while attempts are left.
    pub open spec fn spec_failed(&self, old: InvalidateSessionFlow, err: IdentityError, action: InvalidateSessionAction) -> bool {
        if spec_is_transient_identity_error(err) && old.attempt < old.policy.max_retry {
            &&& self.attempt == old.attempt + 1
            &&& self.stage is AwaitRetry
            &&& action == InvalidateSessionAction::Wait(
                spec_exponential_delay(old.policy.base_delay_micros as nat, old.attempt as nat) as u64)
        } else {
            &&& self.attempt == old.attempt
            &&& self.stage is Finished
            &&& action == InvalidateSessionAction::Finish(Err(err))
        }
    }

    fn fail_attempt(&mut self, err: IdentityError) -> (action: InvalidateSessionAction)
        ensures
            final(self).session_key == old(self).session_key,
            final(self).policy == old(self).policy,
            final(self).spec_failed(*old(self), err, action),
    {
        match self.policy.step::<(), IdentityError>(self.attempt, Err(err.into_backoff())) {
            BackoffStep::Retry { attempt, delay_micros } => {
                self.attempt = attempt;
                self.stage = InvalidateSessionStage::AwaitRetry;
                InvalidateSessionAction::Wait(delay_micros)
            },
            BackoffStep::Done(r) => {
                self.stage = InvalidateSessionStage::Finished;
                InvalidateSessionAction::Finish(r)
            },
        }
    }

    /// Advances the invalidation with what was reported.
    pub fn step(&mut self, event: InvalidateSessionEvent) -> (action: InvalidateSessionAction)
        requires
            old(self).spec_accepts(event),
        ensures
            final(self).session_key == old(self).session_key,
            final(self).policy == old(self).policy,
            match (old(self).stage, event) {
                (InvalidateSessionStage::AwaitFound, InvalidateSessionEvent::Found(Ok((_, session)), now)) => {
                    &&& final(self).stage is AwaitUpdate
                    &&& action matches InvalidateSessionAction::UpdateSession(e) && is_disabled_at(e, session.0, now)
                },
                (InvalidateSessionStage::AwaitFound, InvalidateSessionEvent::Found(Err(err), _)) => {
                    final(self).spec_failed(*old(self), err, action)
                },
                (InvalidateSessionStage::AwaitUpdate, InvalidateSessionEvent::Updated(Ok(_))) => {
                    final(self).stage is Finished && action == InvalidateSessionAction::Finish(Ok(()))
                },
                (InvalidateSessionStage::AwaitUpdate, InvalidateSessionEvent::Updated(Err(err))) => {
                    exists|e: IdentityError| is_session_write_error(e, err) && final(self).spec_failed(*old(self), e, action)
                },
                (InvalidateSessionStage::AwaitRetry, InvalidateSessionEvent::Waited) => {
                    &&& final(self).attempt == old(self).attempt
                    &&& final(self).stage is AwaitFound
                    &&& action matches InvalidateSessionAction::FindSession(k) && k@ == old(self).session_key@
                },
                _ => false,
            },
    {
        let mut stage = InvalidateSessionStage::Finished;
        std::mem::swap(&mut stage, &mut self.stage);
        match (stage, event) {
            (InvalidateSessionStage::AwaitFound, InvalidateSessionEvent::Found(Ok((_, session)), now)) => {
                let mut entity = session.into_entity();
                disable_at(&mut entity, now);
                self.stage = InvalidateSessionStage::AwaitUpdate;
                InvalidateSessionAction::UpdateSession(entity)
            },
            (InvalidateSessionStage::AwaitFound, InvalidateSessionEvent::Found(Err(err), _)) => {
                self.fail_attempt(err)
            },
            (InvalidateSessionStage::AwaitUpdate, InvalidateSessionEvent::Updated(Ok(_))) => {
                InvalidateSessionAction::Finish(Ok(()))
            },
            (InvalidateSessionStage::AwaitUpdate, InvalidateSessionEvent::Updated(Err(err))) => {
                self.fail_attempt(session_write_error(&err))
            },
            (InvalidateSessionStage::AwaitRetry, InvalidateSessionEvent::Waited) => {
                self.stage = InvalidateSessionStage::AwaitFound;
                InvalidateSessionAction::FindSession(self.session_key.clone())
            },
            (stage, _) => {
                proof {
                    assert(false);
                }
                self.stage = stage;
                InvalidateSessionAction::Finish(Err(IdentityError::SessionRequired))
            },
        }
    }
}

impl IdentityManager {
    /// Invalidate the session by a key; the flow starts with the lookup of
    /// the session.
    pub fn invalidate_session(&self, session_key: &str, policy: Exponential) -> (r: (
        InvalidateSessionFlow,
        InvalidateSessionAction,
    ))
        ensures
            r.0.session_key@ == session_key@,
            r.0.policy == policy,
            r.0.attempt == 0,
            r.0.stage is AwaitFound,
            r.1 matches InvalidateSessionAction::FindSession(k) && k@ == session_key@,
    {
        let flow = InvalidateSessionFlow {
            session_key: to_owned_string(session_key),
            policy,
            attempt: 0,
            stage: InvalidateSessionStage::AwaitFound,
        };
        (flow, InvalidateSessionAction::FindSession(to_owned_string(session_key)))
    }
}

/// The session invalidated: disabled at `now` unless it was disabled
/// already; the rest is kept.
pub open spec fn is_invalidated(new: TableEntity<SessionData>, old: TableEntity<SessionData>, now: i64) -> bool {
    if old.payload.disabled is None {
        is_disabled_at(new, old, now)
    } else {
        new == old
    }
}

/// The stages of invalidating the session stored under given keys.
#[derive(Debug)]
pub enum InvalidateByKeyStage {
    AwaitSession,
    AwaitUpdate,
    AwaitRetry,
    Finished,
}

/// What the storage reports back.
#[derive(Debug)]
pub enum InvalidateByKeyEvent {
    /// The answer to the read, with the clock reading taken when it came: an
    /// enabled session is disabled at that time.
    SessionLoaded(Result<Option<TableEntity<SessionData>>, StorageError>, i64),
    Updated(Result<TableEntity<SessionData>, StorageError>),
    Waited,
}

/// What the invalidation asks the caller to do next.
#[derive(Debug)]
pub enum InvalidateByKeyAction {
    GetSession { partition_key: String, row_key: String },
    UpdateSession(TableEntity<SessionData>),
    Wait(u64),
    Finish(Result<(), IdentityError>),
}

/// Invalidation of the session stored under given keys: a missing session
/// needs nothing; else it is disabled now (unless it was disabled) and
/// written back. A conflict on the update is retried from the read.
#[derive(Debug)]
pub struct InvalidateByKeyFlow {
    pub partition_key: String,
    pub row_key: String,
    pub policy: Exponential,
    pub attempt: u32,
    pub stage: InvalidateByKeyStage,
}

impl InvalidateByKeyFlow {
    /// Which event the flow waits for in its stage.
    pub open spec fn spec_accepts(&self, event: InvalidateByKeyEvent) -> bool {
        match self.stage {
            InvalidateByKeyStage::AwaitSession => event is SessionLoaded,
            InvalidateByKeyStage::AwaitUpdate => event is Updated,
            InvalidateByKeyStage::AwaitRetry => event is Waited,
            InvalidateByKeyStage::Finished => false,
        }
    }

    /// The keys of the flow are unchanged.
    pub open spec fn same_keys(&self, other: InvalidateByKeyFlow) -> bool {
        &&& self.partition_key == other.partition_key
        &&& self.row_key == other.row_key
        &&& self.policy == other.policy
    }

    /// The answer to a failed attempt: a transient failure is retried after
    /// a wait while attempts are left.
    pub open spec fn spec_failed(&self, old: InvalidateByKeyFlow, err: IdentityError, action: InvalidateByKeyAction) -> bool {
        if spec_is_transient_identity_error(err) && old.attempt < old.policy.max_retry {
            &&& self.attempt == old.attempt + 1
            &&& self.stage is AwaitRetry
            &&& action == InvalidateByKeyAction::Wait(
                spec_exponential_delay(old.policy.base_delay_micros as nat, old.attempt as nat) as u64)
        } else {
            &&& self.attempt == old.attempt
            &&& self.stage is Finished
            &&& action == InvalidateByKeyAction::Finish(Err(err))
        }
    }

    fn fail_attempt(&mut self, err: IdentityError) -> (action: InvalidateByKeyAction)
        ensures
            final(self).same_keys(*old(self)),
            final(self).spec_failed(*old(self), err, action),
    {
        match self.policy.step::<(), IdentityError>(self.attempt, Err(err.into_backoff())) {
            BackoffStep::Retry { attempt, delay_micros } => {
                self.attempt = attempt;
                self.stage = InvalidateByKeyStage::AwaitRetry;
                InvalidateByKeyAction::Wait(delay_micros)
            },
            BackoffStep::Done(r) => {
                self.stage = InvalidateByKeyStage::Finished;
                InvalidateByKeyAction::Finish(r)
            },
        }
    }

    /// Advances the invalidation with what the storage reported.
    pub fn step(&mut self, event: InvalidateByKeyEvent) -> (action: InvalidateByKeyAction)
        requires
            old(self).spec_accepts(event),
        ensures
            final(self).same_keys(*old(self)),
            match (old(self).stage, event) {
                (InvalidateByKeyStage::AwaitSession, InvalidateByKeyEvent::SessionLoaded(Ok(Some(s)), now)) => {
                    &&& final(self).stage is AwaitUpdate
                    &&& action matches InvalidateByKeyAction::UpdateSession(e) && is_invalidated(e, s, now)
                },
                (InvalidateByKeyStage::AwaitSession, InvalidateByKeyEvent::SessionLoaded(Ok(None), _)) => {
                    final(self).stage is Finished && action == InvalidateByKeyAction::Finish(Ok(()))
                },
                (InvalidateByKeyStage::AwaitSession, InvalidateByKeyEvent::SessionLoaded(Err(err), _)) => {
                    final(self).stage is Finished && (action matches InvalidateByKeyAction::Finish(Err(IdentityError::DB(m)))
                        && m@ == err.spec_describe())
                },
                (InvalidateByKeyStage::AwaitUpdate, InvalidateByKeyEvent::Updated(Ok(_))) => {
                    final(self).stage is Finished && action == InvalidateByKeyAction::Finish(Ok(()))
                },
                (InvalidateByKeyStage::AwaitUpdate, InvalidateByKeyEvent::Updated(Err(err))) => {
                    exists|e: IdentityError| is_session_write_error(e, err) && final(self).spec_failed(*old(self), e, action)
                },
                (InvalidateByKeyStage::AwaitRetry, InvalidateByKeyEvent::Waited) => {
                    &&& final(self).attempt == old(self).attempt
                    &&& final(self).stage is AwaitSession
                    &&& action matches InvalidateByKeyAction::GetSession { partition_key, row_key }
                        && partition_key@ == old(self).partition_key@ && row_key@ == old(self).row_key@
                },
                _ => false,
            },
    {
        let mut stage = InvalidateByKeyStage::Finished;
        std::mem::swap(&mut stage, &mut self.stage);
        match (stage, event) {
            (InvalidateByKeyStage::AwaitSession, InvalidateByKeyEvent::SessionLoaded(Ok(Some(mut s)), now)) => {
                if s.payload.disabled.is_none() {
                    disable_at(&mut s, now);
                }
                self.stage = InvalidateByKeyStage::AwaitUpdate;
                InvalidateByKeyAction::UpdateSession(s)
            },
            (InvalidateByKeyStage::AwaitSession, InvalidateByKeyEvent::SessionLoaded(Ok(None), _)) => {
                InvalidateByKeyAction::Finish(Ok(()))
            },
            (InvalidateByKeyStage::AwaitSession, InvalidateByKeyEvent::SessionLoaded(Err(err), _)) => {
                InvalidateByKeyAction::Finish(Err(IdentityError::from_storage_error(&err)))
            },
            (InvalidateByKeyStage::AwaitUpdate, InvalidateByKeyEvent::Updated(Ok(_))) => {
                InvalidateByKeyAction::Finish(Ok(()))
            },
            (InvalidateByKeyStage::AwaitUpdate, InvalidateByKeyEvent::Updated(Err(err))) => {
                self.fail_attempt(session_write_error(&err))
            },
            (InvalidateByKeyStage::AwaitRetry, InvalidateByKeyEvent::Waited) => {
                self.stage = InvalidateByKeyStage::AwaitSession;
                InvalidateByKeyAction::GetSession { partition_key: self.partition_key.clone(), row_key: self.row_key.clone() }
            },
            (stage, _) => {
                proof {
                    assert(false);
                }
                self.stage = stage;
                InvalidateByKeyAction::Finish(Err(IdentityError::SessionRequired))
            },
        }
    }
}

impl IdentityManager {
    /// Invalidates the session stored under the given keys; the flow starts
    /// with reading it.
    pub fn invalidate_session_by_pr_key(&self, partition: &str, row: &str, policy: Exponential) -> (r: (
        InvalidateByKeyFlow,
        InvalidateByKeyAction,
    ))
        ensures
            r.0.partition_key@ == partition@,
            r.0.row_key@ == row@,
            r.0.policy == policy,
            r.0.attempt == 0,
            r.0.stage is AwaitSession,
            r.1 matches InvalidateByKeyAction::GetSession { partition_key, row_key }
                && partition_key@ == partition@ && row_key@ == row@,
    {
        let flow = InvalidateByKeyFlow {
            partition_key: to_owned_string(partition),
            row_key: to_owned_string(row),
            policy,
            attempt: 0,
            stage: InvalidateByKeyStage::AwaitSession,
        };
        (flow, InvalidateByKeyAction::GetSession { partition_key: to_owned_string(partition), row_key: to_owned_string(row) })
    }
}

/// The storage condition that selects the sessions of a user: its
/// partition, row keys between `session-` and `session_`.
pub open spec fn spec_sessions_condition(id: Seq<char>) -> Seq<char> {
    "PartitionKey eq '"@ + id + "' and RowKey gt 'session-' and RowKey lt 'session_'"@
}

/// The stages of invalidating all sessions of a user.
#[derive(Debug)]
pub enum InvalidateAllStage {
    /// The user of the key was looked up.
    AwaitFound,
    /// The sessions of the user were queried.
    AwaitSessions,
    /// The session at `next` of the keys is being invalidated.
    Invalidating { sessions: Vec<(String, String)>, next: usize },
    Finished,
}

/// What the storage, or the lookup and the invalidations, report back.
#[derive(Debug)]
pub enum InvalidateAllEvent {
    /// The outcome of `find_user_by_session` for the key.
    Found(Result<(UserIdentity, Session), IdentityError>),
    /// The keys (partition and row) of the sessions the query found.
    SessionsLoaded(Result<Vec<(String, String)>, StorageError>),
    /// The outcome of invalidating the current session (a failure is only
    /// logged).
    Invalidated(Result<(), IdentityError>),
}

/// What the invalidation asks the caller to do next.
#[derive(Debug)]
pub enum InvalidateAllAction {
    /// Run `find_user_by_session` for the key and report what it found.
    FindSession(String),
    QuerySessions(String),
    /// Run `invalidate_session_by_pr_key` for these keys and report how it ended.
    InvalidateSession { partition_key: String, row_key: String },
    Finish(Result<(), IdentityError>),
}

/// Invalidation of all the sessions of the user of a session key: the
/// sessions of the user are listed, then each is invalidated in turn.
#[derive(Debug)]
pub struct InvalidateAllFlow {
    pub session_key: String,
    pub stage: InvalidateAllStage,
}

/// The views of a list of keys.
pub open spec fn spec_key_views(v: Seq<(String, String)>) -> Seq<(Seq<char>, Seq<char>)> {
    v.map_values(|k: (String, String)| (k.0@, k.1@))
}

impl InvalidateAllFlow {
    /// Which event the flow waits for in its stage.
    pub open spec fn spec_accepts(&self, event: InvalidateAllEvent) -> bool {
        match self.stage {
            InvalidateAllStage::AwaitFound => event is Found,
            InvalidateAllStage::AwaitSessions => event is SessionsLoaded,
            InvalidateAllStage::Invalidating { .. } => event is Invalidated,
            InvalidateAllStage::Finished => false,
        }
    }

    /// The position of the session being invalidated is within the list.
    pub open spec fn wf(&self) -> bool {
        self.stage matches InvalidateAllStage::Invalidating { sessions, next } ==> next < sessions@.len()
    }

    /// The invalidation of the session at `next`, or the end when none is left.
    pub open spec fn spec_next(&self, sessions: Seq<(Seq<char>, Seq<char>)>, next: int, action: InvalidateAllAction) -> bool {
        if next < sessions.len() {
            &&& self.stage matches InvalidateAllStage::Invalidating { sessions: s, next: n }
                && spec_key_views(s@) == sessions && n == next
            &&& action matches InvalidateAllAction::InvalidateSession { partition_key, row_key }
                && (partition_key@, row_key@) == sessions[next]
        } else {
            self.stage is Finished && action == InvalidateAllAction::Finish(Ok(()))
        }
    }

    fn invalidate_next(&mut self, sessions: Vec<(String, String)>, next: usize) -> (action: InvalidateAllAction)
        requires
            next <= sessions@.len(),
        ensures
            final(self).wf(),
            final(self).session_key == old(self).session_key,
            final(self).spec_next(spec_key_views(sessions@), next as int, action),
    {
        if next < sessions.len() {
            let partition_key = sessions[next].0.clone();
            let row_key = sessions[next].1.clone();
            self.stage = InvalidateAllStage::Invalidating { sessions, next };
            InvalidateAllAction::InvalidateSession { partition_key, row_key }
        } else {
            self.stage = InvalidateAllStage::Finished;
            InvalidateAllAction::Finish(Ok(()))
        }
    }

    /// Advances the invalidation with what was reported.
    pub fn step(&mut self, event: InvalidateAllEvent) -> (action: InvalidateAllAction)
        requires
            old(self).wf(),
            old(self).spec_accepts(event),
        ensures
            final(self).wf(),
            final(self).session_key == old(self).session_key,
            match (old(self).stage, event) {
                (InvalidateAllStage::AwaitFound, InvalidateAllEvent::Found(Ok((identity, _)))) => {
                    &&& final(self).stage is AwaitSessions
                    &&& action matches InvalidateAllAction::QuerySessions(q)
                        && q@ == spec_filter_query(spec_sessions_condition(identity.0.payload.core.id@))
                },
                (InvalidateAllStage::AwaitFound, InvalidateAllEvent::Found(Err(err))) => {
                    final(self).stage is Finished && action == InvalidateAllAction::Finish(Err(err))
                },
                (InvalidateAllStage::AwaitSessions, InvalidateAllEvent::SessionsLoaded(Ok(v))) => {
                    final(self).spec_next(spec_key_views(v@), 0, action)
                },
                (InvalidateAllStage::AwaitSessions, InvalidateAllEvent::SessionsLoaded(Err(err))) => {
                    final(self).stage is Finished && (action matches InvalidateAllAction::Finish(Err(IdentityError::DB(m)))
                        && m@ == err.spec_describe())
                },
                (InvalidateAllStage::Invalidating { sessions, next }, InvalidateAllEvent::Invalidated(_)) => {
                    final(self).spec_next(spec_key_views(sessions@), next + 1, action)
                },
                _ => false,
            },
    {
        let mut stage = InvalidateAllStage::Finished;
        std::mem::swap(&mut stage, &mut self.stage);
        match (stage, event) {
            (InvalidateAllStage::AwaitFound, InvalidateAllEvent::Found(Ok((identity, _)))) => {
                let mut c: Vec<char> = Vec::new();
                push_str(&mut c, "PartitionKey eq '");
                push_str(&mut c, identity.id());
                push_str(&mut c, "' and RowKey gt 'session-' and RowKey lt 'session_'");
                let condition = string_from_chars(&c);
                proof {
                    assert(condition@ =~= spec_sessions_condition(identity.0.payload.core.id@));
                }
                self.stage = InvalidateAllStage::AwaitSessions;
                InvalidateAllAction::QuerySessions(filter_query(condition.as_str()))
            },
            (InvalidateAllStage::AwaitFound, InvalidateAllEvent::Found(Err(err))) => {
                InvalidateAllAction::Finish(Err(err))
            },
            (InvalidateAllStage::AwaitSessions, InvalidateAllEvent::SessionsLoaded(Ok(v))) => {
                self.invalidate_next(v, 0)
            },
            (InvalidateAllStage::AwaitSessions, InvalidateAllEvent::SessionsLoaded(Err(err))) => {
                InvalidateAllAction::Finish(Err(IdentityError::from_storage_error(&err)))
            },
            (InvalidateAllStage::Invalidating { sessions, next }, InvalidateAllEvent::Invalidated(_)) => {
                let n = sessions.len();
                assert(next < n);
                self.invalidate_next(sessions, next + 1)
            },
            (stage, _) => {
                proof {
                    assert(false);
                }
                self.stage = stage;
                InvalidateAllAction::Finish(Err(IdentityError::SessionRequired))
            },
        }
    }
}

impl IdentityManager {
    /// Invalidate all the sessions corresponding to the same user as the
    /// key; the flow starts with the lookup of the session.
    pub fn invalidate_all_sessions(&self, session_key: &str) -> (r: (InvalidateAllFlow, InvalidateAllAction))
        ensures
            r.0.wf(),
            r.0.session_key@ == session_key@,
            r.0.stage is AwaitFound,
            r.1 matches InvalidateAllAction::FindSession(k) && k@ == session_key@,
    {
        let flow = InvalidateAllFlow { session_key: to_owned_string(session_key), stage: InvalidateAllStage::AwaitFound };
        (flow, InvalidateAllAction::FindSession(to_owned_string(session_key)))
    }
}

} // verus!
