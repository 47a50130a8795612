use vstd::prelude::*;
use vstd::utf8::is_ascii_chars;
use crate::auth::iam::{Fingerprint, IAMConfig, IAMError};
use crate::auth::iam::identity::UserIdentity;
use crate::auth::iam::session::session::{
    Session, SessionData, spec_session_keys, spec_remote_text, spec_continent_text, spec_country_text,
    spec_after_first_dash, after_first_dash,
};
use crate::auth::iam::session::session_index::{SessionIndex, SessionIndexData, spec_session_index_keys};
use crate::azure_utils::{
    StorageError, TableEntity, is_precodition_error, spec_is_precondition_error, filter_query, spec_filter_query,
};
use crate::text::{concat3, str_equal};
use crate::backoff::{BackoffStep, Exponential, spec_exponential_delay};
use crate::clock::utc_now_millis;
use crate::encoding::{base64url_nopad_encode, spec_base64url_nopad};
use crate::text::lemma_ascii_char_boundary;
use vstd::utf8::{encode_utf8, is_char_boundary};
use rand::Rng;

verus! {

/// Length of the random part of a session key, in bytes.
pub const SESSION_KEY_LEN: usize = 32;

/// `Rng::fill` of `rand` on a 32 byte buffer from `thread_rng`: random
/// bytes; nothing is said of their values.
#[verifier::external_body]
pub(crate) fn random_key_bytes() -> (r: Vec<u8>)
    ensures
        r@.len() == SESSION_KEY_LEN,
{
    let mut key_sequence = [0u8; SESSION_KEY_LEN];
    rand::thread_rng().fill(&mut key_sequence[..]);
    key_sequence.to_vec()
}

/// A session key as `genrate_session_key` makes them: the base64url text of
/// 32 random bytes.
pub open spec fn is_session_key(key: Seq<char>) -> bool {
    &&& exists|b: Seq<u8>| b.len() == SESSION_KEY_LEN && key == spec_base64url_nopad(b)
    &&& is_ascii_chars(key)
    &&& key.len() == 43
}

/// The decisions of the session store: keys, expiry and the steps of the
/// session operations. The storage itself is driven by the caller.
#[derive(Clone, Debug)]
pub struct SessionManager {
    /// How long a session stays valid after its last refresh, in milliseconds.
    pub time_to_live_ms: i64,
}

/// A session that may still be used: enabled, refreshed not before the
/// limit, from the remote that opened it.
pub open spec fn spec_session_valid(data: SessionData, fingerprint: Fingerprint, minimum_refresh_date: int) -> bool {
    &&& data.disabled is None
    &&& data.refreshed >= minimum_refresh_date
    &&& crate::auth::iam::session::session::spec_matches_fingerprint(data, fingerprint)
}

impl SessionManager {
    /// The session manager of the configuration.
    pub fn new(config: &IAMConfig) -> (r: SessionManager)
        ensures
            r.time_to_live_ms == config.session_time_to_live_h as int * 3_600_000,
    {
        SessionManager { time_to_live_ms: (config.session_time_to_live_h as i64) * 3_600_000 }
    }

    /// A new random session key.
    pub fn genrate_session_key(&self) -> (key: String)
        ensures
            is_session_key(key@),
    {
        let key_sequence = random_key_bytes();
        let key = base64url_nopad_encode(key_sequence.as_slice());
        proof {
            assert(key@.len() == (8 * 32 + 5) / 6);
        }
        key
    }

    /// The oldest refresh date that a usable session may have at `now`:
    /// `time_to_live_ms` before it.
    pub open spec fn spec_minimum_refresh_date(&self, now: int) -> int {
        now - self.time_to_live_ms
    }

    /// The oldest refresh date that a usable session may have at `now`: the
    /// sessions refreshed before it have expired.
    pub fn minimum_refresh_date(&self, now: i64) -> (d: i64)
        requires
            self.wf(),
            0 <= now,
        ensures
            d == self.spec_minimum_refresh_date(now as int),
    {
        now - self.time_to_live_ms
    }

    /// The oldest refresh date that a usable session may have, now. The
    /// clock reading is not known to the contract: it is some time not
    /// before the epoch, and the result lies `time_to_live_ms` before it.
    pub fn get_minimum_refresh_date(&self) -> (d: i64)
        requires
            self.wf(),
        ensures
            exists|now: int| 0 <= now && d == #[trigger] self.spec_minimum_refresh_date(now),
    {
        let now = utc_now_millis();
        self.minimum_refresh_date(now)
    }
}

/// The stages of creating a session.
#[derive(Debug)]
pub enum CreateSessionStage {
    /// The index entry of `key` was sent for insertion.
    AwaitIndex { key: String },
    /// The index entry is stored; the session was sent for insertion.
    AwaitSession { key: String, index: TableEntity<SessionIndexData> },
    /// Storing the session failed; the stored index entry was sent for removal.
    AwaitIndexRemoval { error: StorageError },
    /// Waiting before the next attempt.
    AwaitRetry,
    Finished,
}

/// What the storage reports back to the session creation.
#[derive(Debug)]
pub enum CreateSessionEvent {
    /// The answer to the index insertion, with the clock reading taken when
    /// it came (the new session is issued at that time).
    IndexInserted(Result<TableEntity<SessionIndexData>, StorageError>, i64),
    SessionInserted(Result<TableEntity<SessionData>, StorageError>),
    /// The index entry was removed (a failure to remove it is only logged).
    IndexRemoved,
    Waited,
}

/// What the session creation asks the caller to do next.
#[derive(Debug)]
pub enum CreateSessionAction {
    InsertIndex(TableEntity<SessionIndexData>),
    InsertSession(TableEntity<SessionData>),
    RemoveIndex(TableEntity<SessionIndexData>),
    Wait(u64),
    Finish(Result<Session, IAMError>),
}

/// Creation of a session for an authenticated user: the index entry of a
/// fresh key is stored first (it makes the key unique), then the session; a
/// key collision is retried with a new key.
#[derive(Debug)]
pub struct CreateSessionFlow {
    pub identity_id: String,
    pub fingerprint: Fingerprint,
    pub policy: Exponential,
    pub attempt: u32,
    pub stage: CreateSessionStage,
}

/// The index entry stored for a session key of an identity.
pub open spec fn is_session_index_entity(e: TableEntity<SessionIndexData>, key: Seq<char>, id: Seq<char>) -> bool {
    &&& (e.partition_key@, e.row_key@) == spec_session_index_keys(key)
    &&& e.etag is None
    &&& e.timestamp is None
    &&& e.payload.identity_id@ == id
}

/// A new session entity for a session key of an identity, opened from the
/// fingerprinted remote at time `now`.
pub open spec fn is_new_session_entity(
    e: TableEntity<SessionData>,
    key: Seq<char>,
    id: Seq<char>,
    fingerprint: Fingerprint,
    now: i64,
) -> bool {
    &&& (e.partition_key@, e.row_key@) == spec_session_keys(id, key)
    &&& e.etag is None
    &&& e.payload.agent@ == fingerprint.spec_agent()
    &&& e.payload.remote_ip@ == spec_remote_text(fingerprint)
    &&& e.payload.remote_continent@ == spec_continent_text(fingerprint)
    &&& e.payload.remote_country@ == spec_country_text(fingerprint)
    &&& e.payload.issued == now
    &&& e.payload.refresh_count == 0
    &&& e.payload.refreshed == now
    &&& e.payload.disabled is None
}

/// A session that `create_session` stores is found again by its key alone:
/// its index entry has the keys that `refresh_session_with_key` asks for, and
/// the session keys that the lookup then reads from that entry are those of
/// the stored session.
pub proof fn lemma_created_session_found_by_key(
    x: TableEntity<SessionIndexData>,
    s: TableEntity<SessionData>,
    key: Seq<char>,
    id: Seq<char>,
    fingerprint: Fingerprint,
    now: i64,
)
    requires
        is_session_index_entity(x, key, id),
        is_new_session_entity(s, key, id, fingerprint, now),
    ensures
        (x.partition_key@, x.row_key@) == spec_session_index_keys(key),
        spec_session_keys(x.payload.identity_id@, x.row_key@) == (s.partition_key@, s.row_key@),
{
}

/// A session that `create_session` stores passes the session check from a
/// fingerprint that is the same as the one it was created from, at any time
/// up to `time_to_live_ms` after its creation; from then on it has expired.
pub proof fn lemma_new_session_is_valid(
    manager: SessionManager,
    s: TableEntity<SessionData>,
    key: Seq<char>,
    id: Seq<char>,
    created_from: Fingerprint,
    created_at: i64,
    checked_with: Fingerprint,
    checked_at: i64,
)
    requires
        is_new_session_entity(s, key, id, created_from, created_at),
        checked_with.same_as(created_from),
    ensures
        spec_session_valid(s.payload, checked_with, checked_at - manager.time_to_live_ms)
            <==> checked_at - manager.time_to_live_ms <= created_at,
{
}

impl CreateSessionFlow {
    /// Which event the flow waits for in its stage.
    pub open spec fn spec_accepts(&self, event: CreateSessionEvent) -> bool {
        match self.stage {
            CreateSessionStage::AwaitIndex { .. } => event is IndexInserted,
            CreateSessionStage::AwaitSession { .. } => event is SessionInserted,
            CreateSessionStage::AwaitIndexRemoval { .. } => event is IndexRemoved,
            CreateSessionStage::AwaitRetry => event is Waited,
            CreateSessionStage::Finished => false,
        }
    }

    /// Whether the flow waits for this event.
    pub fn accepts(&self, event: &CreateSessionEvent) -> (r: bool)
        ensures
            r == self.spec_accepts(*event),
    {
        match (&self.stage, event) {
            (CreateSessionStage::AwaitIndex { .. }, CreateSessionEvent::IndexInserted(..)) => true,
            (CreateSessionStage::AwaitSession { .. }, CreateSessionEvent::SessionInserted(_)) => true,
            (CreateSessionStage::AwaitIndexRemoval { .. }, CreateSessionEvent::IndexRemoved) => true,
            (CreateSessionStage::AwaitRetry, CreateSessionEvent::Waited) => true,
            _ => false,
        }
    }

    /// Starts an attempt with a fresh key: its index entry is to be stored.
    fn start_attempt(&mut self, manager: &SessionManager) -> (action: CreateSessionAction)
        ensures
            final(self).identity_id == old(self).identity_id,
            final(self).fingerprint == old(self).fingerprint,
            final(self).policy == old(self).policy,
            final(self).attempt == old(self).attempt,
            final(self).stage matches CreateSessionStage::AwaitIndex { key } && is_session_key(key@)
                && (action matches CreateSessionAction::InsertIndex(e)
                && is_session_index_entity(e, key@, final(self).identity_id@)),
    {
        let key = manager.genrate_session_key();
        proof {
            lemma_ascii_char_boundary(key@, 2);
        }
        let index = SessionIndex::new(key.as_str(), self.identity_id.as_str());
        self.stage = CreateSessionStage::AwaitIndex { key };
        CreateSessionAction::InsertIndex(index.into_entity())
    }

    /// A failed attempt: retried after a wait if the failure is transient and
    /// attempts are left, else the flow ends with the error.
    fn fail_attempt(&mut self, err: IAMError) -> (action: CreateSessionAction)
        ensures
            final(self).identity_id == old(self).identity_id,
            final(self).fingerprint == old(self).fingerprint,
            final(self).policy == old(self).policy,
            if crate::auth::iam::error::spec_is_transient(err) && old(self).attempt < old(self).policy.max_retry {
                &&& final(self).attempt == old(self).attempt + 1
                &&& final(self).stage is AwaitRetry
                &&& action == CreateSessionAction::Wait(
                    spec_exponential_delay(old(self).policy.base_delay_micros as nat, old(self).attempt as nat) as u64)
            } else {
                &&& final(self).attempt == old(self).attempt
                &&& final(self).stage is Finished
                &&& action == CreateSessionAction::Finish(Err(err))
            },
    {
        match self.policy.step::<Session, IAMError>(self.attempt, Err(err.into_backoff())) {
            BackoffStep::Retry { attempt, delay_micros } => {
                self.attempt = attempt;
                self.stage = CreateSessionStage::AwaitRetry;
                CreateSessionAction::Wait(delay_micros)
            },
            BackoffStep::Done(r) => {
                self.stage = CreateSessionStage::Finished;
                CreateSessionAction::Finish(r)
            },
        }
    }

    /// Advances the flow with what the storage reported.
    pub fn step(&mut self, manager: &SessionManager, event: CreateSessionEvent) -> (action: CreateSessionAction)
        requires
            old(self).spec_accepts(event),
        ensures
            final(self).identity_id == old(self).identity_id,
            final(self).fingerprint == old(self).fingerprint,
            final(self).policy == old(self).policy,
            match (old(self).stage, event) {
                (CreateSessionStage::AwaitIndex { key }, CreateSessionEvent::IndexInserted(Ok(x), now)) => {
                    &&& final(self).stage matches CreateSessionStage::AwaitSession { key: k, index } && k@ == key@ && index == x
                    &&& action matches CreateSessionAction::InsertSession(e)
                        && is_new_session_entity(e, key@, old(self).identity_id@, old(self).fingerprint, now)
                },
                (CreateSessionStage::AwaitIndex { .. }, CreateSessionEvent::IndexInserted(Err(e), _)) => {
                    if spec_is_precondition_error(e) {
                        if old(self).attempt < old(self).policy.max_retry {
                            final(self).stage is AwaitRetry && action is Wait
                                && final(self).attempt == old(self).attempt + 1
                        } else {
                            final(self).stage is Finished
                                && action matches CreateSessionAction::Finish(Err(IAMError::SessionKeyConflict))
                        }
                    } else {
                        final(self).stage is Finished
                            && (action matches CreateSessionAction::Finish(Err(IAMError::Internal(m)))
                            && m@ == e.spec_describe())
                    }
                },
                (CreateSessionStage::AwaitSession { index, .. }, CreateSessionEvent::SessionInserted(Ok(e))) => {
                    final(self).stage is Finished && action == CreateSessionAction::Finish(Ok(Session(e)))
                },
                (CreateSessionStage::AwaitSession { index, .. }, CreateSessionEvent::SessionInserted(Err(e))) => {
                    final(self).stage == CreateSessionStage::AwaitIndexRemoval { error: e }
                        && action == CreateSessionAction::RemoveIndex(index)
                },
                (CreateSessionStage::AwaitIndexRemoval { error }, CreateSessionEvent::IndexRemoved) => {
                    final(self).stage is Finished
                        && (action matches CreateSessionAction::Finish(Err(IAMError::Internal(m)))
                        && m@ == error.spec_describe())
                },
                (CreateSessionStage::AwaitRetry, CreateSessionEvent::Waited) => {
                    &&& final(self).attempt == old(self).attempt
                    &&& final(self).stage matches CreateSessionStage::AwaitIndex { key } && is_session_key(key@)
                        && (action matches CreateSessionAction::InsertIndex(e)
                        && is_session_index_entity(e, key@, old(self).identity_id@))
                },
                _ => false,
            },
    {
        let mut stage = CreateSessionStage::Finished;
        std::mem::swap(&mut stage, &mut self.stage);
        match (stage, event) {
            (CreateSessionStage::AwaitIndex { key }, CreateSessionEvent::IndexInserted(Ok(index), now)) => {
                let session = Session::new_at(self.identity_id.clone(), key.clone(), &self.fingerprint, now);
                self.stage = CreateSessionStage::AwaitSession { key, index };
                CreateSessionAction::InsertSession(session.into_entity())
            },
            (CreateSessionStage::AwaitIndex { .. }, CreateSessionEvent::IndexInserted(Err(err), _)) => {
                if is_precodition_error(&err) {
                    self.fail_attempt(IAMError::SessionKeyConflict)
                } else {
                    self.fail_attempt(IAMError::from_storage_error(&err))
                }
            },
            (CreateSessionStage::AwaitSession { .. }, CreateSessionEvent::SessionInserted(Ok(session))) => {
                CreateSessionAction::Finish(Ok(Session::from_entity(session)))
            },
            (CreateSessionStage::AwaitSession { index, .. }, CreateSessionEvent::SessionInserted(Err(err))) => {
                self.stage = CreateSessionStage::AwaitIndexRemoval { error: err };
                CreateSessionAction::RemoveIndex(index)
            },
            (CreateSessionStage::AwaitIndexRemoval { error }, CreateSessionEvent::IndexRemoved) => {
                CreateSessionAction::Finish(Err(IAMError::from_storage_error(&error)))
            },
            (CreateSessionStage::AwaitRetry, CreateSessionEvent::Waited) => {
                self.start_attempt(manager)
            },
            (stage, _) => {
                proof {
                    assert(false);
                }
                self.stage = stage;
                CreateSessionAction::Finish(Err(IAMError::SessionRequired))
            },
        }
    }
}

impl SessionManager {
    /// Creates a new user session for the given identity.
    /// It is assumed that, the identity has been already authenticated.
    /// The flow is driven by the caller: it starts by asking to store the
    /// index entry of a fresh key.
    pub fn create_session(&self, identity: &UserIdentity, fingerprint: &Fingerprint) -> (r: (CreateSessionFlow, CreateSessionAction))
        ensures
            r.0.identity_id@ == identity.0.payload.core.id@,
            r.0.fingerprint.same_as(*fingerprint),
            r.0.attempt == 0,
            r.0.policy.max_retry == 3,
            r.0.stage matches CreateSessionStage::AwaitIndex { key } && is_session_key(key@)
                && (r.1 matches CreateSessionAction::InsertIndex(e)
                && is_session_index_entity(e, key@, r.0.identity_id@)),
    {
        let mut flow = CreateSessionFlow {
            identity_id: identity.id().to_owned(),
            fingerprint: fingerprint.clone(),
            policy: Exponential::new(3, 10),
            attempt: 0,
            stage: CreateSessionStage::Finished,
        };
        let action = flow.start_attempt(self);
        (flow, action)
    }
}

/// The session operations that find a session, check it and update it.
#[derive(Clone, Copy, Debug, PartialEq, Eq, Structural)]
pub enum SessionOperation {
    /// Refresh the session when both the id and the key is known.
    Refresh,
    /// Check the session when both the id and the key is known.
    Validate,
    /// Refresh the session when only the key is known.
    RefreshByKey,
    /// Invalidate a single session when both the id and the key is known.
    Invalidate,
}

/// What a session operation gives back.
#[derive(Debug)]
pub enum SessionCheckOutcome {
    /// The (possibly refreshed) session.
    Session(Session),
    /// The identity id found through the key index, and the refreshed session.
    KeyedSession(String, Session),
    /// The session was disabled.
    Invalidated,
}

/// The stages of a session operation.
#[derive(Debug)]
pub enum SessionCheckStage {
    /// The index entry of the key was asked for.
    AwaitIndex,
    /// The session of identity `id` and key `key` was asked for.
    AwaitSession { id: String, key: String },
    /// The updated session was sent; `expire` when it was disabled because it
    /// failed the check, which ends the operation with `SessionExpired`.
    AwaitUpdate { id: String, expire: bool },
    /// Waiting before the next attempt.
    AwaitRetry,
    Finished,
}

/// What the storage reports back to a session operation.
#[derive(Debug)]
pub enum SessionCheckEvent {
    IndexLoaded(Result<Option<TableEntity<SessionIndexData>>, StorageError>),
    /// The answer to the session lookup, with the clock reading taken when it
    /// came: the session is checked for expiry, and refreshed or disabled, at
    /// that time.
    SessionLoaded(Result<Option<TableEntity<SessionData>>, StorageError>, i64),
    SessionUpdated(Result<TableEntity<SessionData>, StorageError>),
    Waited,
}

/// What a session operation asks the caller to do next.
#[derive(Debug)]
pub enum SessionCheckAction {
    GetIndex { partition_key: String, row_key: String },
    GetSession { partition_key: String, row_key: String },
    UpdateSession(TableEntity<SessionData>),
    Wait(u64),
    Finish(Result<SessionCheckOutcome, IAMError>),
}

/// A session operation: the session is looked up (through the key index
/// when only the key is known), checked against the fingerprint and the
/// expiry, then refreshed or disabled in storage. A conflicting update is
/// retried from the lookup.
#[derive(Debug)]
pub struct SessionCheckFlow {
    pub operation: SessionOperation,
    pub id: String,
    pub key: String,
    pub fingerprint: Fingerprint,
    pub policy: Exponential,
    pub attempt: u32,
    pub stage: SessionCheckStage,
}

/// `new` is `old` with the session disabled at `now` (a session already
/// disabled keeps the date of its first disabling).
pub open spec fn is_disabled_version(old: TableEntity<SessionData>, new: TableEntity<SessionData>, now: i64) -> bool {
    &&& new.partition_key == old.partition_key
    &&& new.row_key == old.row_key
    &&& new.etag == old.etag
    &&& new.payload.agent == old.payload.agent
    &&& new.payload.remote_ip == old.payload.remote_ip
    &&& new.payload.remote_country == old.payload.remote_country
    &&& new.payload.issued == old.payload.issued
    &&& new.payload.refresh_count == old.payload.refresh_count
    &&& new.payload.refreshed == old.payload.refreshed
    &&& new.payload.disabled == (if old.payload.disabled is Some {
        old.payload.disabled
    } else {
        Some(now)
    })
}

/// `new` is `old` refreshed once more, at `now`.
pub open spec fn is_refreshed_version(old: TableEntity<SessionData>, new: TableEntity<SessionData>, now: i64) -> bool {
    &&& new.partition_key == old.partition_key
    &&& new.row_key == old.row_key
    &&& new.etag == old.etag
    &&& new.payload.agent == old.payload.agent
    &&& new.payload.remote_ip == old.payload.remote_ip
    &&& new.payload.remote_country == old.payload.remote_country
    &&& new.payload.issued == old.payload.issued
    &&& new.payload.refresh_count == (if old.payload.refresh_count < u64::MAX {
        old.payload.refresh_count + 1
    } else {
        0
    })
    &&& new.payload.refreshed == now
    &&& new.payload.disabled == old.payload.disabled
}

/// A refresh renews the session's lease: a session refreshed at `now` from
/// a remote that matches the fingerprint passes a later check with that
/// fingerprint exactly while the check is not more than `time_to_live_ms`
/// after the refresh.
pub proof fn lemma_refresh_renews_validity(
    manager: SessionManager,
    e: TableEntity<SessionData>,
    u: TableEntity<SessionData>,
    fingerprint: Fingerprint,
    now: i64,
    checked_at: int,
)
    requires
        e.payload.disabled is None,
        crate::auth::iam::session::session::spec_matches_fingerprint(e.payload, fingerprint),
        is_refreshed_version(e, u, now),
    ensures
        spec_session_valid(u.payload, fingerprint, manager.spec_minimum_refresh_date(checked_at))
            <==> checked_at <= now + manager.time_to_live_ms,
{
}

/// The address a fingerprint stands for, as sessions record it: its remote
/// address, or `unknown` when it has none.
pub open spec fn spec_fingerprint_address(f: Fingerprint) -> Seq<char> {
    match f.spec_remote() {
        Some(ip) => ip,
        None => "unknown"@,
    }
}

/// The country a fingerprint stands for, as sessions record it: the country
/// of its location, or `unknown` when the location is not known.
pub open spec fn spec_fingerprint_country(f: Fingerprint) -> Seq<char> {
    match f.spec_location() {
        Some(l) => l.1,
        None => "unknown"@,
    }
}

/// A session is used from the remote that opened it when the agent, the
/// address and the country that it recorded are all those of the
/// fingerprint.
pub open spec fn spec_same_remote(data: SessionData, f: Fingerprint) -> bool {
    &&& data.agent@ == f.spec_agent()
    &&& data.remote_ip@ == spec_fingerprint_address(f)
    &&& data.remote_country@ == spec_fingerprint_country(f)
}

/// A session is usable exactly when it is enabled, refreshed not before the
/// limit, and used from the remote that opened it: a different agent, a
/// different address or a different country each make it unusable.
pub proof fn lemma_session_valid_compares_the_remote(data: SessionData, f: Fingerprint, limit: int)
    ensures
        spec_session_valid(data, f, limit) <==> (data.disabled is None && data.refreshed >= limit
            && spec_same_remote(data, f)),
        data.agent@ != f.spec_agent() ==> !spec_session_valid(data, f, limit),
        data.remote_ip@ != spec_fingerprint_address(f) ==> !spec_session_valid(data, f, limit),
        data.remote_country@ != spec_fingerprint_country(f) ==> !spec_session_valid(data, f, limit),
{
}

/// What a check of an enabled session decides at time `now`. Validation,
/// refresh and refresh by key all expire a session that was opened from
/// another remote (agent, address or country) or was last refreshed more
/// than `time_to_live_ms` before `now`: it is written back disabled at
/// `now`, with its refresh date and count kept. A session used from its own
/// remote within the time to live is given back unchanged by validation,
/// and refreshed at `now` by a refresh.
pub proof fn lemma_session_check_decision(
    operation: SessionOperation,
    f: Fingerprint,
    id: Seq<char>,
    e: TableEntity<SessionData>,
    time_to_live_ms: i64,
    now: i64,
    stage: SessionCheckStage,
    action: SessionCheckAction,
)
    requires
        operation != SessionOperation::Invalidate,
        e.payload.disabled is None,
        SessionCheckFlow::spec_on_session(operation, f, id, e, time_to_live_ms, now, stage, action),
    ensures
        !spec_same_remote(e.payload, f) || e.payload.refreshed < now - time_to_live_ms ==> {
            &&& stage matches SessionCheckStage::AwaitUpdate { expire, .. } && expire
            &&& action matches SessionCheckAction::UpdateSession(u)
                && u.payload.disabled == Some(now)
                && u.payload.refreshed == e.payload.refreshed
                && u.payload.refresh_count == e.payload.refresh_count
        },
        spec_same_remote(e.payload, f) && e.payload.refreshed >= now - time_to_live_ms
            && operation == SessionOperation::Validate ==> {
            &&& stage is Finished
            &&& action matches SessionCheckAction::Finish(Ok(SessionCheckOutcome::Session(s))) && s.0 == e
        },
        spec_same_remote(e.payload, f) && e.payload.refreshed >= now - time_to_live_ms
            && operation != SessionOperation::Validate ==> {
            &&& stage matches SessionCheckStage::AwaitUpdate { expire, .. } && !expire
            &&& action matches SessionCheckAction::UpdateSession(u)
                && u.payload.disabled is None
                && u.payload.refreshed == now
                && u.payload.issued == e.payload.issued
                && (e.payload.refresh_count < u64::MAX ==> u.payload.refresh_count == e.payload.refresh_count + 1)
        },
{
    lemma_session_valid_compares_the_remote(e.payload, f, now - time_to_live_ms);
}

impl SessionManager {
    /// The manager's expiry is a whole number of hours that fits the configuration.
    pub open spec fn wf(&self) -> bool {
        0 <= self.time_to_live_ms <= 65535 * 3_600_000
    }

    fn start_session_check(
        &self,
        operation: SessionOperation,
        id: &str,
        key: &str,
        fingerprint: &Fingerprint,
    ) -> (r: (SessionCheckFlow, SessionCheckAction))
        requires
            operation == SessionOperation::RefreshByKey ==> is_char_boundary(encode_utf8(key@), 2),
        ensures
            r.0.operation == operation,
            r.0.id@ == id@,
            r.0.key@ == key@,
            r.0.fingerprint.same_as(*fingerprint),
            r.0.attempt == 0,
            r.0.policy.max_retry == 3,
            r.0.spec_started(r.1),
    {
        let mut flow = SessionCheckFlow {
            operation,
            id: id.to_owned(),
            key: key.to_owned(),
            fingerprint: fingerprint.clone(),
            policy: Exponential::new(3, 10),
            attempt: 0,
            stage: SessionCheckStage::Finished,
        };
        let action = flow.start_attempt();
        (flow, action)
    }

    /// Refresh the session when both the id and the key is known.
    /// In case of a compromised key the session is also disabled in the database.
    pub fn refresh_session_with_id_key(&self, id: &str, key: &str, fingerprint: &Fingerprint) -> (r: (SessionCheckFlow, SessionCheckAction))
        ensures
            r.0.operation == SessionOperation::Refresh,
            r.0.id@ == id@,
            r.0.key@ == key@,
            r.0.fingerprint.same_as(*fingerprint),
            r.0.attempt == 0,
            r.0.policy.max_retry == 3,
            r.0.spec_started(r.1),
    {
        self.start_session_check(SessionOperation::Refresh, id, key, fingerprint)
    }

    /// Check if session key is valid when both the id and the key is known.
    /// In case of a compromised key the session is also disabled in the database.
    pub fn validate_session_with_id_key(&self, id: &str, key: &str, fingerprint: &Fingerprint) -> (r: (SessionCheckFlow, SessionCheckAction))
        ensures
            r.0.operation == SessionOperation::Validate,
            r.0.id@ == id@,
            r.0.key@ == key@,
            r.0.fingerprint.same_as(*fingerprint),
            r.0.attempt == 0,
            r.0.policy.max_retry == 3,
            r.0.spec_started(r.1),
    {
        self.start_session_check(SessionOperation::Validate, id, key, fingerprint)
    }

    /// Refresh the session when only the key is known.
    pub fn refresh_session_with_key(&self, key: &str, fingerprint: &Fingerprint) -> (r: (SessionCheckFlow, SessionCheckAction))
        requires
            is_char_boundary(encode_utf8(key@), 2),
        ensures
            r.0.operation == SessionOperation::RefreshByKey,
            r.0.key@ == key@,
            r.0.fingerprint.same_as(*fingerprint),
            r.0.attempt == 0,
            r.0.policy.max_retry == 3,
            r.0.spec_started(r.1),
    {
        self.start_session_check(SessionOperation::RefreshByKey, "", key, fingerprint)
    }

    /// Invalidate a single session when both the id and the key is known.
    pub fn invalidate_session(&self, id: &str, key: &str) -> (r: (SessionCheckFlow, SessionCheckAction))
        ensures
            r.0.operation == SessionOperation::Invalidate,
            r.0.id@ == id@,
            r.0.key@ == key@,
            r.0.attempt == 0,
            r.0.policy.max_retry == 3,
            r.0.spec_started(r.1),
    {
        let fingerprint = Fingerprint::new("", None, None);
        self.start_session_check(SessionOperation::Invalidate, id, key, &fingerprint)
    }
}

impl SessionCheckFlow {
    /// The first step of an attempt: the lookup of the session, through the
    /// key index when only the key is known.
    pub open spec fn spec_started(&self, action: SessionCheckAction) -> bool {
        if self.operation == SessionOperation::RefreshByKey {
            &&& self.stage is AwaitIndex
            &&& action matches SessionCheckAction::GetIndex { partition_key, row_key }
                && (partition_key@, row_key@) == spec_session_index_keys(self.key@)
        } else {
            &&& self.stage matches SessionCheckStage::AwaitSession { id, key } && id@ == self.id@ && key@ == self.key@
            &&& action matches SessionCheckAction::GetSession { partition_key, row_key }
                && (partition_key@, row_key@) == spec_session_keys(self.id@, self.key@)
        }
    }

    /// The flow's constant part is unchanged.
    pub open spec fn same_request(&self, other: SessionCheckFlow) -> bool {
        &&& self.operation == other.operation
        &&& self.id == other.id
        &&& self.key == other.key
        &&& self.fingerprint == other.fingerprint
        &&& self.policy == other.policy
    }

    /// Which event the flow waits for in its stage.
    pub open spec fn spec_accepts(&self, event: SessionCheckEvent) -> bool {
        match self.stage {
            SessionCheckStage::AwaitIndex => event is IndexLoaded,
            SessionCheckStage::AwaitSession { .. } => event is SessionLoaded,
            SessionCheckStage::AwaitUpdate { .. } => event is SessionUpdated,
            SessionCheckStage::AwaitRetry => event is Waited,
            SessionCheckStage::Finished => false,
        }
    }

    /// Whether the flow waits for this event.
    pub fn accepts(&self, event: &SessionCheckEvent) -> (r: bool)
        ensures
            r == self.spec_accepts(*event),
    {
        match (&self.stage, event) {
            (SessionCheckStage::AwaitIndex, SessionCheckEvent::IndexLoaded(_)) => true,
            (SessionCheckStage::AwaitSession { .. }, SessionCheckEvent::SessionLoaded(..)) => true,
            (SessionCheckStage::AwaitUpdate { .. }, SessionCheckEvent::SessionUpdated(_)) => true,
            (SessionCheckStage::AwaitRetry, SessionCheckEvent::Waited) => true,
            _ => false,
        }
    }

    fn start_attempt(&mut self) -> (action: SessionCheckAction)
        requires
            old(self).operation == SessionOperation::RefreshByKey ==> is_char_boundary(encode_utf8(old(self).key@), 2),
        ensures
            final(self).same_request(*old(self)),
            final(self).attempt == old(self).attempt,
            final(self).spec_started(action),
    {
        if self.operation == SessionOperation::RefreshByKey {
            let (partition_key, row_key) = SessionIndex::entity_keys(self.key.as_str());
            self.stage = SessionCheckStage::AwaitIndex;
            SessionCheckAction::GetIndex { partition_key, row_key }
        } else {
            let (partition_key, row_key) = Session::entity_keys(self.id.as_str(), self.key.as_str());
            self.stage = SessionCheckStage::AwaitSession { id: self.id.clone(), key: self.key.clone() };
            SessionCheckAction::GetSession { partition_key, row_key }
        }
    }

    fn fail_attempt(&mut self, err: IAMError) -> (action: SessionCheckAction)
        ensures
            final(self).same_request(*old(self)),
            if crate::auth::iam::error::spec_is_transient(err) && old(self).attempt < old(self).policy.max_retry {
                &&& final(self).attempt == old(self).attempt + 1
                &&& final(self).stage is AwaitRetry
                &&& action == SessionCheckAction::Wait(
                    spec_exponential_delay(old(self).policy.base_delay_micros as nat, old(self).attempt as nat) as u64)
            } else {
                &&& final(self).attempt == old(self).attempt
                &&& final(self).stage is Finished
                &&& action == SessionCheckAction::Finish(Err(err))
            },
    {
        match self.policy.step::<SessionCheckOutcome, IAMError>(self.attempt, Err(err.into_backoff())) {
            BackoffStep::Retry { attempt, delay_micros } => {
                self.attempt = attempt;
                self.stage = SessionCheckStage::AwaitRetry;
                SessionCheckAction::Wait(delay_micros)
            },
            BackoffStep::Done(r) => {
                self.stage = SessionCheckStage::Finished;
                SessionCheckAction::Finish(r)
            },
        }
    }

    /// The action taken at time `now` on a loaded, enabled session: it is
    /// valid when it matches the fingerprint and was refreshed not more than
    /// `time_to_live_ms` before `now`.
    pub open spec fn spec_on_session(
        operation: SessionOperation,
        fingerprint: Fingerprint,
        id: Seq<char>,
        e: TableEntity<SessionData>,
        time_to_live_ms: i64,
        now: i64,
        new_stage: SessionCheckStage,
        action: SessionCheckAction,
    ) -> bool {
        let valid = spec_session_valid(e.payload, fingerprint, now - time_to_live_ms);
        match operation {
            SessionOperation::Validate => if valid {
                new_stage is Finished && (action matches SessionCheckAction::Finish(Ok(SessionCheckOutcome::Session(s)))
                    && s.0 == e)
            } else {
                new_stage matches SessionCheckStage::AwaitUpdate { expire, .. } && expire
                    && (action matches SessionCheckAction::UpdateSession(u) && is_disabled_version(e, u, now))
            },
            SessionOperation::Refresh => if valid {
                new_stage matches SessionCheckStage::AwaitUpdate { expire, .. } && !expire
                    && (action matches SessionCheckAction::UpdateSession(u) && is_refreshed_version(e, u, now))
            } else {
                new_stage matches SessionCheckStage::AwaitUpdate { expire, .. } && expire
                    && (action matches SessionCheckAction::UpdateSession(u) && is_disabled_version(e, u, now))
            },
            SessionOperation::RefreshByKey => if valid {
                new_stage matches SessionCheckStage::AwaitUpdate { expire, id: i } && !expire && i@ == id
                    && (action matches SessionCheckAction::UpdateSession(u) && is_refreshed_version(e, u, now))
            } else {
                new_stage matches SessionCheckStage::AwaitUpdate { expire, id: i } && expire && i@ == id
                    && (action matches SessionCheckAction::UpdateSession(u) && is_disabled_version(e, u, now))
            },
            SessionOperation::Invalidate => {
                new_stage matches SessionCheckStage::AwaitUpdate { expire, .. } && !expire
                    && (action matches SessionCheckAction::UpdateSession(u) && is_disabled_version(e, u, now))
            },
        }
    }

    /// The outcome of a stored update that did not expire the session.
    pub open spec fn spec_outcome(&self, id: Seq<char>, e: TableEntity<SessionData>, outcome: SessionCheckOutcome) -> bool {
        match self.operation {
            SessionOperation::Invalidate => outcome is Invalidated,
            SessionOperation::RefreshByKey => outcome matches SessionCheckOutcome::KeyedSession(i, s) && i@ == id && s.0 == e,
            _ => outcome matches SessionCheckOutcome::Session(s) && s.0 == e,
        }
    }

    fn on_session(
        &mut self,
        manager: &SessionManager,
        id: String,
        entity: TableEntity<SessionData>,
        now: i64,
    ) -> (action: SessionCheckAction)
        requires
            manager.wf(),
            0 <= now,
            entity.payload.disabled is None,
        ensures
            final(self).same_request(*old(self)),
            final(self).attempt == old(self).attempt,
            Self::spec_on_session(
                old(self).operation, old(self).fingerprint, id@, entity, manager.time_to_live_ms, now,
                final(self).stage, action),
    {
        let ghost e = entity;
        let ghost gid = id@;
        let mut session = Session::from_entity(entity);
        let minimum_refresh_date = manager.minimum_refresh_date(now);
        let valid = session.check(&self.fingerprint, minimum_refresh_date);
        let action = match self.operation {
            SessionOperation::Validate => {
                if valid {
                    self.stage = SessionCheckStage::Finished;
                    SessionCheckAction::Finish(Ok(SessionCheckOutcome::Session(session)))
                } else {
                    session.disable_at(now);
                    self.stage = SessionCheckStage::AwaitUpdate { id, expire: true };
                    SessionCheckAction::UpdateSession(session.into_entity())
                }
            },
            SessionOperation::Refresh => {
                if valid {
                    session.refresh_at(now);
                    self.stage = SessionCheckStage::AwaitUpdate { id, expire: false };
                    SessionCheckAction::UpdateSession(session.into_entity())
                } else {
                    session.disable_at(now);
                    self.stage = SessionCheckStage::AwaitUpdate { id, expire: true };
                    SessionCheckAction::UpdateSession(session.into_entity())
                }
            },
            SessionOperation::RefreshByKey => {
                if valid {
                    session.refresh_at(now);
                    self.stage = SessionCheckStage::AwaitUpdate { id, expire: false };
                    SessionCheckAction::UpdateSession(session.into_entity())
                } else {
                    session.disable_at(now);
                    self.stage = SessionCheckStage::AwaitUpdate { id, expire: true };
                    SessionCheckAction::UpdateSession(session.into_entity())
                }
            },
            SessionOperation::Invalidate => {
                session.disable_at(now);
                self.stage = SessionCheckStage::AwaitUpdate { id, expire: false };
                SessionCheckAction::UpdateSession(session.into_entity())
            },
        };
        proof {
            assert(valid == spec_session_valid(e.payload, old(self).fingerprint, now - manager.time_to_live_ms));
        }
        action
    }

    /// Advances the flow with what the storage reported.
    pub fn step(&mut self, manager: &SessionManager, event: SessionCheckEvent) -> (action: SessionCheckAction)
        requires
            manager.wf(),
            old(self).spec_accepts(event),
            old(self).operation == SessionOperation::RefreshByKey ==> is_char_boundary(encode_utf8(old(self).key@), 2),
            event matches SessionCheckEvent::SessionLoaded(_, now) ==> 0 <= now,
        ensures
            final(self).same_request(*old(self)),
            match (old(self).stage, event) {
                (SessionCheckStage::AwaitIndex, SessionCheckEvent::IndexLoaded(Ok(Some(e)))) => {
                    &&& final(self).attempt == old(self).attempt
                    &&& final(self).stage matches SessionCheckStage::AwaitSession { id, key }
                        && id@ == e.payload.identity_id@ && key@ == e.row_key@
                    &&& action matches SessionCheckAction::GetSession { partition_key, row_key }
                        && (partition_key@, row_key@) == spec_session_keys(e.payload.identity_id@, e.row_key@)
                },
                (SessionCheckStage::AwaitIndex, SessionCheckEvent::IndexLoaded(Ok(None))) => {
                    final(self).stage is Finished && action matches SessionCheckAction::Finish(Err(IAMError::SessionExpired))
                },
                (SessionCheckStage::AwaitIndex, SessionCheckEvent::IndexLoaded(Err(err))) => {
                    final(self).stage is Finished
                        && (action matches SessionCheckAction::Finish(Err(IAMError::Internal(m))) && m@ == err.spec_describe())
                },
                (SessionCheckStage::AwaitSession { id, .. }, SessionCheckEvent::SessionLoaded(Ok(Some(e)), now)) => {
                    final(self).attempt == old(self).attempt && (if e.payload.disabled is Some {
                        final(self).stage is Finished
                            && action matches SessionCheckAction::Finish(Err(IAMError::SessionExpired))
                    } else {
                        Self::spec_on_session(
                            old(self).operation, old(self).fingerprint, id@, e, manager.time_to_live_ms, now,
                            final(self).stage, action)
                    })
                },
                (SessionCheckStage::AwaitSession { .. }, SessionCheckEvent::SessionLoaded(Ok(None), _)) => {
                    final(self).stage is Finished && action matches SessionCheckAction::Finish(Err(IAMError::SessionExpired))
                },
                (SessionCheckStage::AwaitSession { .. }, SessionCheckEvent::SessionLoaded(Err(err), _)) => {
                    final(self).stage is Finished
                        && (action matches SessionCheckAction::Finish(Err(IAMError::Internal(m))) && m@ == err.spec_describe())
                },
                (SessionCheckStage::AwaitUpdate { id, expire }, SessionCheckEvent::SessionUpdated(Ok(e))) => {
                    final(self).stage is Finished && (if expire {
                        action matches SessionCheckAction::Finish(Err(IAMError::SessionExpired))
                    } else {
                        action matches SessionCheckAction::Finish(Ok(outcome)) && old(self).spec_outcome(id@, e, outcome)
                    })
                },
                (SessionCheckStage::AwaitUpdate { .. }, SessionCheckEvent::SessionUpdated(Err(err))) => {
                    if spec_is_precondition_error(err) {
                        if old(self).attempt < old(self).policy.max_retry {
                            final(self).stage is AwaitRetry && action is Wait && final(self).attempt == old(self).attempt + 1
                        } else {
                            final(self).stage is Finished
                                && action matches SessionCheckAction::Finish(Err(IAMError::SessionKeyConflict))
                        }
                    } else {
                        final(self).stage is Finished
                            && (action matches SessionCheckAction::Finish(Err(IAMError::Internal(m))) && m@ == err.spec_describe())
                    }
                },
                (SessionCheckStage::AwaitRetry, SessionCheckEvent::Waited) => {
                    final(self).attempt == old(self).attempt && final(self).spec_started(action)
                },
                _ => false,
            },
    {
        let mut stage = SessionCheckStage::Finished;
        std::mem::swap(&mut stage, &mut self.stage);
        match (stage, event) {
            (SessionCheckStage::AwaitIndex, SessionCheckEvent::IndexLoaded(Ok(Some(entity)))) => {
                let index = SessionIndex::from_entity(entity);
                let (partition_key, row_key) = Session::entity_keys(index.id(), index.key());
                self.stage = SessionCheckStage::AwaitSession { id: index.id().to_owned(), key: index.key().to_owned() };
                SessionCheckAction::GetSession { partition_key, row_key }
            },
            (SessionCheckStage::AwaitIndex, SessionCheckEvent::IndexLoaded(Ok(None))) => {
                self.fail_attempt(IAMError::SessionExpired)
            },
            (SessionCheckStage::AwaitIndex, SessionCheckEvent::IndexLoaded(Err(err))) => {
                self.fail_attempt(IAMError::from_storage_error(&err))
            },
            (SessionCheckStage::AwaitSession { id, .. }, SessionCheckEvent::SessionLoaded(Ok(Some(entity)), now)) => {
                if entity.payload.disabled.is_some() {
                    self.fail_attempt(IAMError::SessionExpired)
                } else {
                    self.on_session(manager, id, entity, now)
                }
            },
            (SessionCheckStage::AwaitSession { .. }, SessionCheckEvent::SessionLoaded(Ok(None), _)) => {
                self.fail_attempt(IAMError::SessionExpired)
            },
            (SessionCheckStage::AwaitSession { .. }, SessionCheckEvent::SessionLoaded(Err(err), _)) => {
                self.fail_attempt(IAMError::from_storage_error(&err))
            },
            (SessionCheckStage::AwaitUpdate { id, expire }, SessionCheckEvent::SessionUpdated(Ok(entity))) => {
                if expire {
                    self.fail_attempt(IAMError::SessionExpired)
                } else {
                    let outcome = match self.operation {
                        SessionOperation::Invalidate => SessionCheckOutcome::Invalidated,
                        SessionOperation::RefreshByKey => SessionCheckOutcome::KeyedSession(id, Session::from_entity(entity)),
                        _ => SessionCheckOutcome::Session(Session::from_entity(entity)),
                    };
                    SessionCheckAction::Finish(Ok(outcome))
                }
            },
            (SessionCheckStage::AwaitUpdate { .. }, SessionCheckEvent::SessionUpdated(Err(err))) => {
                if is_precodition_error(&err) {
                    self.fail_attempt(IAMError::SessionKeyConflict)
                } else {
                    self.fail_attempt(IAMError::from_storage_error(&err))
                }
            },
            (SessionCheckStage::AwaitRetry, SessionCheckEvent::Waited) => {
                self.start_attempt()
            },
            (stage, _) => {
                proof {
                    assert(false);
                }
                self.stage = stage;
                SessionCheckAction::Finish(Err(IAMError::SessionRequired))
            },
        }
    }
}


/// Whether the entity is the session of the active key.
pub open spec fn is_active_session(e: TableEntity<SessionData>, active_key: Option<String>) -> bool {
    match active_key {
        Some(k) => k@ == e.row_key@,
        None => false,
    }
}

/// The sessions of a page that are invalidated in turn: all but the one of
/// the active key, in the order of the page.
pub open spec fn spec_other_sessions(
    sessions: Seq<TableEntity<SessionData>>,
    active_key: Option<String>,
) -> Seq<TableEntity<SessionData>>
    decreases sessions.len(),
{
    if sessions.len() == 0 {
        seq![]
    } else {
        let rest = spec_other_sessions(sessions.drop_last(), active_key);
        if is_active_session(sessions.last(), active_key) {
            rest
        } else {
            rest.push(sessions.last())
        }
    }
}

/// The sessions left to invalidate are sessions of the page, none of them
/// the active one.
pub proof fn lemma_other_sessions_skip_active(sessions: Seq<TableEntity<SessionData>>, active_key: Option<String>)
    ensures
        forall|i: int| 0 <= i < spec_other_sessions(sessions, active_key).len()
            ==> !is_active_session(#[trigger] spec_other_sessions(sessions, active_key)[i], active_key)
                && sessions.contains(spec_other_sessions(sessions, active_key)[i]),
        spec_other_sessions(sessions, active_key).len() <= sessions.len(),
    decreases sessions.len(),
{
    if sessions.len() > 0 {
        let rest = sessions.drop_last();
        lemma_other_sessions_skip_active(rest, active_key);
        let o = spec_other_sessions(sessions, active_key);
        let orest = spec_other_sessions(rest, active_key);
        assert forall|i: int| 0 <= i < o.len() implies !is_active_session(#[trigger] o[i], active_key)
            && sessions.contains(o[i]) by {
            if i < orest.len() {
                assert(o[i] == orest[i]);
                let j = choose|j: int| 0 <= j < rest.len() && rest[j] == orest[i];
                assert(sessions[j] == rest[j]);
            } else {
                assert(o[i] == sessions.last());
                assert(sessions[sessions.len() - 1] == sessions.last());
            }
        }
    }
}

/// The storage condition that selects the enabled sessions of an identity.
pub open spec fn spec_active_sessions_condition(id: Seq<char>) -> Seq<char> {
    "PartitionKey eq 'id-"@ + id + "' and Disabled eq ''"@
}

/// A session entity as the query gives them: the partition key holds the
/// identity id after a `-`.
pub open spec fn is_keyed_session(e: TableEntity<SessionData>) -> bool {
    e.partition_key@.contains('-')
}

/// The stages of invalidating all sessions of an identity.
#[derive(Debug)]
pub enum InvalidateAllStage {
    /// The next page of enabled sessions was asked for.
    AwaitPage,
    /// The sessions of a page are invalidated one by one; the invalidation
    /// of `pending[current]` was asked for.
    AwaitInvalidation { pending: Vec<TableEntity<SessionData>>, current: usize },
    /// All other sessions are done; the active session is being invalidated.
    AwaitActive,
    Finished,
}

/// What the caller reports back while invalidating all sessions.
#[derive(Debug)]
pub enum InvalidateAllEvent {
    /// A page of enabled sessions.
    Page(Vec<TableEntity<SessionData>>),
    /// The query has no more pages.
    QueryEnded,
    /// Fetching a page of the query failed.
    QueryFailed(StorageError),
    /// The result of the single invalidation that was asked for.
    Invalidated(Result<(), IAMError>),
}

/// What invalidating all sessions asks the caller to do next.
#[derive(Debug)]
pub enum InvalidateAllAction {
    /// Start the query with this query string.
    Query(String),
    /// Fetch the next page of the query.
    NextPage,
    /// Invalidate one session (`SessionManager::invalidate_session`).
    Invalidate { id: String, key: String },
    Finish(Result<(), IAMError>),
}

/// Invalidation of all the sessions of an identity. The sessions are
/// invalidated one by one, each with its own retries, so that a refresh
/// cannot keep a key alive. The active key, if given, is skipped in the walk
/// and invalidated after all the others, so that the caller's session stays
/// usable if anything fails before.
#[derive(Debug)]
pub struct InvalidateAllFlow {
    pub id: String,
    pub active_key: Option<String>,
    pub has_conflict: bool,
    pub stage: InvalidateAllStage,
}

/// The action invalidates the session of the entity.
pub open spec fn invalidates(action: InvalidateAllAction, e: TableEntity<SessionData>) -> bool {
    action matches InvalidateAllAction::Invalidate { id, key }
        && id@ == spec_after_first_dash(e.partition_key@) && key@ == e.row_key@
}

impl InvalidateAllFlow {
    /// The session being invalidated is one of the pending ones, and each
    /// pending one is a keyed session.
    pub open spec fn wf(&self) -> bool {
        match self.stage {
            InvalidateAllStage::AwaitInvalidation { pending, current } => {
                &&& current < pending@.len()
                &&& forall|i: int| 0 <= i < pending@.len() ==> is_keyed_session(#[trigger] pending@[i])
            },
            _ => true,
        }
    }

    /// Which event the flow waits for in its stage.
    pub open spec fn spec_accepts(&self, event: InvalidateAllEvent) -> bool {
        match self.stage {
            InvalidateAllStage::AwaitPage => event is Page || event is QueryEnded || event is QueryFailed,
            InvalidateAllStage::AwaitInvalidation { .. } => event is Invalidated,
            InvalidateAllStage::AwaitActive => event is Invalidated,
            InvalidateAllStage::Finished => false,
        }
    }

    /// Whether the flow waits for this event.
    pub fn accepts(&self, event: &InvalidateAllEvent) -> (r: bool)
        ensures
            r == self.spec_accepts(*event),
    {
        match (&self.stage, event) {
            (InvalidateAllStage::AwaitPage, InvalidateAllEvent::Page(_)) => true,
            (InvalidateAllStage::AwaitPage, InvalidateAllEvent::QueryEnded) => true,
            (InvalidateAllStage::AwaitPage, InvalidateAllEvent::QueryFailed(_)) => true,
            (InvalidateAllStage::AwaitInvalidation { .. }, InvalidateAllEvent::Invalidated(_)) => true,
            (InvalidateAllStage::AwaitActive, InvalidateAllEvent::Invalidated(_)) => true,
            _ => false,
        }
    }

    /// Once the walk is over: a conflict on any session fails the whole
    /// operation; else the active session is invalidated last, if there is one.
    pub open spec fn spec_walk_ended(&self, new_stage: InvalidateAllStage, action: InvalidateAllAction) -> bool {
        if self.has_conflict {
            new_stage is Finished && action matches InvalidateAllAction::Finish(Err(IAMError::SessionKeyConflict))
        } else {
            match self.active_key {
                Some(k) => new_stage is AwaitActive && (action matches InvalidateAllAction::Invalidate { id, key }
                    && id@ == self.id@ && key@ == k@),
                None => new_stage is Finished && action matches InvalidateAllAction::Finish(Ok(())),
            }
        }
    }

    /// With the sessions `pending[..next]` done: the next one is invalidated,
    /// or the next page is asked for.
    pub open spec fn spec_continue(
        pending: Seq<TableEntity<SessionData>>,
        next: int,
        new_stage: InvalidateAllStage,
        action: InvalidateAllAction,
    ) -> bool {
        if next < pending.len() {
            &&& new_stage matches InvalidateAllStage::AwaitInvalidation { pending: p, current }
                && p@ == pending && current == next
            &&& invalidates(action, pending[next])
        } else {
            new_stage is AwaitPage && action is NextPage
        }
    }

    fn continue_with(&mut self, pending: Vec<TableEntity<SessionData>>, next: usize) -> (action: InvalidateAllAction)
        requires
            next <= pending@.len(),
            forall|i: int| 0 <= i < pending@.len() ==> is_keyed_session(#[trigger] pending@[i]),
        ensures
            final(self).id == old(self).id,
            final(self).active_key == old(self).active_key,
            final(self).has_conflict == old(self).has_conflict,
            final(self).wf(),
            Self::spec_continue(pending@, next as int, final(self).stage, action),
    {
        if next < pending.len() {
            let e = &pending[next];
            assert(is_keyed_session(pending@[next as int]));
            let id = after_first_dash(e.partition_key.as_str()).to_owned();
            let key = e.row_key.clone();
            self.stage = InvalidateAllStage::AwaitInvalidation { pending, current: next };
            InvalidateAllAction::Invalidate { id, key }
        } else {
            self.stage = InvalidateAllStage::AwaitPage;
            InvalidateAllAction::NextPage
        }
    }

    fn end_walk(&mut self) -> (action: InvalidateAllAction)
        ensures
            final(self).id == old(self).id,
            final(self).active_key == old(self).active_key,
            final(self).has_conflict == old(self).has_conflict,
            final(self).wf(),
            old(self).spec_walk_ended(final(self).stage, action),
    {
        if self.has_conflict {
            self.stage = InvalidateAllStage::Finished;
            InvalidateAllAction::Finish(Err(IAMError::SessionKeyConflict))
        } else {
            match &self.active_key {
                Some(k) => {
                    let key = k.clone();
                    let id = self.id.clone();
                    self.stage = InvalidateAllStage::AwaitActive;
                    InvalidateAllAction::Invalidate { id, key }
                },
                None => {
                    self.stage = InvalidateAllStage::Finished;
                    InvalidateAllAction::Finish(Ok(()))
                },
            }
        }
    }

    /// Advances the flow with what the caller reported.
    pub fn step(&mut self, event: InvalidateAllEvent) -> (action: InvalidateAllAction)
        requires
            old(self).wf(),
            old(self).spec_accepts(event),
            event matches InvalidateAllEvent::Page(sessions)
                ==> forall|i: int| 0 <= i < sessions@.len() ==> is_keyed_session(#[trigger] sessions@[i]),
        ensures
            final(self).id == old(self).id,
            final(self).active_key == old(self).active_key,
            final(self).wf(),
            match (old(self).stage, event) {
                (InvalidateAllStage::AwaitPage, InvalidateAllEvent::Page(sessions)) => {
                    &&& final(self).has_conflict == old(self).has_conflict
                    &&& Self::spec_continue(spec_other_sessions(sessions@, old(self).active_key), 0,
                        final(self).stage, action)
                },
                (InvalidateAllStage::AwaitPage, InvalidateAllEvent::QueryEnded) => {
                    &&& final(self).has_conflict == old(self).has_conflict
                    &&& old(self).spec_walk_ended(final(self).stage, action)
                },
                (InvalidateAllStage::AwaitPage, InvalidateAllEvent::QueryFailed(err)) => {
                    &&& final(self).stage is Finished
                    &&& action matches InvalidateAllAction::Finish(Err(IAMError::Internal(m))) && m@ == err.spec_describe()
                },
                (InvalidateAllStage::AwaitInvalidation { pending, current }, InvalidateAllEvent::Invalidated(r)) => {
                    match r {
                        Ok(()) => {
                            &&& final(self).has_conflict == old(self).has_conflict
                            &&& Self::spec_continue(pending@, current + 1, final(self).stage, action)
                        },
                        Err(IAMError::SessionKeyConflict) => {
                            &&& final(self).has_conflict
                            &&& Self::spec_continue(pending@, current + 1, final(self).stage, action)
                        },
                        Err(e) => {
                            &&& final(self).stage is Finished
                            &&& action == InvalidateAllAction::Finish(Err(e))
                        },
                    }
                },
                (InvalidateAllStage::AwaitActive, InvalidateAllEvent::Invalidated(r)) => {
                    final(self).stage is Finished && action == InvalidateAllAction::Finish(r)
                },
                _ => false,
            },
    {
        let mut stage = InvalidateAllStage::Finished;
        std::mem::swap(&mut stage, &mut self.stage);
        match (stage, event) {
            (InvalidateAllStage::AwaitPage, InvalidateAllEvent::Page(sessions)) => {
                let pending = other_sessions(sessions, &self.active_key);
                proof {
                    lemma_other_sessions_skip_active(sessions@, self.active_key);
                    assert forall|i: int| 0 <= i < pending@.len() implies is_keyed_session(#[trigger] pending@[i]) by {
                        let j = choose|j: int| 0 <= j < sessions@.len() && sessions@[j] == pending@[i];
                        assert(is_keyed_session(sessions@[j]));
                    }
                }
                self.continue_with(pending, 0)
            },
            (InvalidateAllStage::AwaitPage, InvalidateAllEvent::QueryEnded) => {
                self.end_walk()
            },
            (InvalidateAllStage::AwaitPage, InvalidateAllEvent::QueryFailed(err)) => {
                InvalidateAllAction::Finish(Err(IAMError::from_storage_error(&err)))
            },
            (InvalidateAllStage::AwaitInvalidation { pending, current }, InvalidateAllEvent::Invalidated(r)) => {
                let n = pending.len();
                assert(current < n);
                match r {
                    Ok(()) => self.continue_with(pending, current + 1),
                    Err(IAMError::SessionKeyConflict) => {
                        self.has_conflict = true;
                        self.continue_with(pending, current + 1)
                    },
                    Err(e) => InvalidateAllAction::Finish(Err(e)),
                }
            },
            (InvalidateAllStage::AwaitActive, InvalidateAllEvent::Invalidated(r)) => {
                InvalidateAllAction::Finish(r)
            },
            (stage, _) => {
                proof {
                    assert(false);
                }
                self.stage = stage;
                InvalidateAllAction::Finish(Err(IAMError::SessionRequired))
            },
        }
    }
}

/// The sessions of a page other than the active one, in page order.
fn other_sessions(sessions: Vec<TableEntity<SessionData>>, active_key: &Option<String>) -> (r: Vec<TableEntity<SessionData>>)
    ensures
        r@ == spec_other_sessions(sessions@, *active_key),
{
    let ghost orig = sessions@;
    let n = sessions.len();
    let mut rest = sessions;
    let mut out: Vec<TableEntity<SessionData>> = Vec::new();
    let mut i: usize = 0;
    assert(orig.skip(0) =~= orig);
    assert(orig.take(0) =~= Seq::<TableEntity<SessionData>>::empty());
    while rest.len() > 0
        invariant
            orig.len() == n,
            i <= orig.len(),
            rest@ == orig.skip(i as int),
            out@ == spec_other_sessions(orig.take(i as int), *active_key),
        decreases rest@.len(),
    {
        let e = rest.remove(0);
        assert(e == orig[i as int]);
        let active = match active_key {
            Some(k) => str_equal(k.as_str(), e.row_key.as_str()),
            None => false,
        };
        proof {
            let t = orig.take(i + 1);
            assert(t.drop_last() =~= orig.take(i as int));
            assert(t.last() == e);
            assert(orig.skip(i + 1) =~= orig.skip(i as int).drop_first());
        }
        if !active {
            out.push(e);
        }
        i = i + 1;
    }
    assert(orig.take(i as int) =~= orig);
    out
}

impl SessionManager {
    /// Invalidate all the sessions for an id. The flow starts by asking for
    /// the query of the identity's enabled sessions.
    pub fn invalidate_all_session(&self, id: &str, active_key: Option<&str>) -> (r: (InvalidateAllFlow, InvalidateAllAction))
        ensures
            r.0.id@ == id@,
            match active_key {
                Some(k) => r.0.active_key matches Some(a) && a@ == k@,
                None => r.0.active_key is None,
            },
            !r.0.has_conflict,
            r.0.stage is AwaitPage,
            r.1 matches InvalidateAllAction::Query(q) && q@ == spec_filter_query(spec_active_sessions_condition(id@)),
    {
        let condition = concat3("PartitionKey eq 'id-", id, "' and Disabled eq ''");
        let query = filter_query(condition.as_str());
        let flow = InvalidateAllFlow {
            id: id.to_owned(),
            active_key: match active_key {
                Some(k) => Some(k.to_owned()),
                None => None,
            },
            has_conflict: false,
            stage: InvalidateAllStage::AwaitPage,
        };
        (flow, InvalidateAllAction::Query(query))
    }
}

} // verus!
