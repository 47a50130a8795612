//! The user store with encrypted user ids and sessions: registration of
//! users (an id collision is retried), lookup by name or email, and the
//! sessions of the users with their index.
use vstd::prelude::*;
use vstd::utf8::{encode_utf8, is_char_boundary};
use super::{IdentityConfig, IdentityError, SiteInfo};
use super::identitydb::{
    CreateIdentityAction, CreateIdentityFlow, FindLoginAction, FindLoginFlow, decode_user_id, find_login_by_index,
    generate_user_id, is_generated_user_id, spec_decrypted, login_query, spec_available, spec_encrypted_id, spec_is_conflict,
    spec_login_condition, spec_registration_started, spec_registration_valid, start_registration, is_conflict,
};
use super::identityentry::{
    EmailIndexEntry, Identity, IdentityEntry, IdentityIndex, NameIndexEntry, spec_email_partition, spec_name_partition,
    spec_user_partition,
};
use super::sessionentry::{
    Session, SessionEntry, SessionIndex, SessionIndexEntry, is_session_index_entry, names_session_key,
    spec_session_entry_keys,
};
use crate::auth::iam::identity::manager::{push_key_condition, spec_key_condition};
use crate::auth::iam::session::manager::{is_session_key, random_key_bytes};
use crate::azure_utils::{StorageError, TableEntity, filter_query, spec_filter_query};
use crate::encoding::{base64_decode, base64url_nopad_encode, spec_base32_nopad_decode, spec_base64_decode, spec_decode_error_text};
use crate::auth::identity::identitydb::CIPHER_IV_LEN;
use crate::text::string_from_chars;

verus! {

/// The secrets of the user store; the tables and the id sequence are held
/// by the caller.
#[derive(Clone, Debug)]
pub struct IdentityManager {
    pub password_pepper: String,
    pub user_id_secret: Vec<u8>,
}

/// The number of further attempts to store a new user after an id collision.
pub const USER_ID_RETRIES: u32 = 3;

/// The number of attempts to store a new session.
pub const SESSION_TRIES: u32 = 3;

impl IdentityManager {
    /// The user store of the configuration: the user id secret is given in
    /// base64.
    pub fn new(config: &IdentityConfig) -> (r: Result<IdentityManager, IdentityError>)
        requires
            encode_utf8(config.identity_id_secret@).len() <= usize::MAX / 8,
        ensures
            match spec_base64_decode(encode_utf8(config.identity_id_secret@)) {
                Ok(s) => r matches Ok(m) && m.password_pepper@ == config.password_pepper@ && m.user_id_secret@ == s,
                Err(e) => r matches Err(IdentityError::Encryption(m)) && m@ == spec_decode_error_text(e),
            },
    {
        match base64_decode(config.identity_id_secret.as_str().as_bytes()) {
            Ok(user_id_secret) => Ok(IdentityManager { password_pepper: config.password_pepper.clone(), user_id_secret }),
            Err(e) => Err(IdentityError::Encryption(e.to_display_string())),
        }
    }

    /// A fresh encrypted user id for a sequence number: the zero padded
    /// sequence text, a fresh salt, and the encrypted id of the text.
    pub fn generate_user_id(&self, sequence_id: u64) -> (r: Result<(String, String, String), IdentityError>)
        ensures
            is_generated_user_id(r, self.user_id_secret@, sequence_id),
    {
        generate_user_id(&self.user_id_secret, sequence_id)
    }

    /// The sequence text of an encrypted user id and its salt.
    pub fn decode_user_id(&self, id: &str, salt: &str) -> (r: Result<String, IdentityError>)
        requires
            encode_utf8(id@).len() <= usize::MAX / 8,
            encode_utf8(salt@).len() >= CIPHER_IV_LEN,
        ensures
            spec_decrypted(spec_base32_nopad_decode(encode_utf8(id@)), self.user_id_secret@, salt@, r),
            forall|s: Seq<char>| spec_encrypted_id(self.user_id_secret@, salt@, s) == Some(id@)
                ==> (r matches Ok(t) && t@ == s),
    {
        decode_user_id(&self.user_id_secret, id, salt)
    }

    /// The keys of the name index entry that a new user name would take.
    pub fn is_user_name_available(&self, name: &str) -> (r: (String, String))
        requires
            is_char_boundary(encode_utf8(name@), 2),
        ensures
            r.0@ == spec_name_partition(name@),
            r.1@ == name@,
    {
        (NameIndexEntry::generate_partion_key(name), name.to_owned())
    }

    /// The keys of the email index entry that an email would take.
    pub fn is_email_available(&self, email: &str) -> (r: (String, String))
        requires
            is_char_boundary(encode_utf8(email@), 2),
        ensures
            r.0@ == spec_email_partition(email@),
            r.1@ == email@,
    {
        (EmailIndexEntry::generate_partion_key(email), email.to_owned())
    }

    /// Registers a user. The name must be alphanumeric and the email, if
    /// any, valid; the flow then starts by looking up the name index. An id
    /// collision is retried with a new id up to three times.
    pub fn create_user(&self, name: &str, email: Option<&str>, password: &str) -> (r: Result<
        (CreateIdentityFlow, CreateIdentityAction),
        IdentityError,
    >)
        requires
            spec_registration_valid(name@, email) ==> is_char_boundary(encode_utf8(name@), 2),
            spec_registration_valid(name@, email) ==> (email matches Some(e) ==> is_char_boundary(encode_utf8(e@), 2)),
        ensures
            spec_registration_started(name@, email, password@, Some(USER_ID_RETRIES), r),
    {
        start_registration(name, email, password, Some(USER_ID_RETRIES))
    }

    /// Finds a user by name or email; the password, if given, is checked.
    /// The flow starts with the query of the two index entries.
    pub fn find_identity_by_name_email(&self, name_email: &str, password: Option<&str>) -> (r: (
        FindLoginFlow,
        FindLoginAction,
    ))
        requires
            is_char_boundary(encode_utf8(name_email@), 2),
        ensures
            match password {
                Some(p) => r.0.password matches Some(q) && q@ == p@,
                None => r.0.password is None,
            },
            r.0.stage is AwaitIndices,
            r.1 matches FindLoginAction::QueryIndices(q) && q@ == spec_filter_query(spec_login_condition(name_email@)),
    {
        let query = login_query(name_email);
        find_login_by_index(query.as_str(), password)
    }

    /// A new random session key.
    pub fn genrate_session_key(&self) -> (key: String)
        ensures
            is_session_key(key@),
    {
        let key_sequence = random_key_bytes();
        let key = base64url_nopad_encode(key_sequence.as_slice());
        proof {
            assert(key@.len() == (8 * 32 + 5) / 6);
        }
        key
    }
}

/// A new session of a user for a session key, opened from the site at
/// `now`.
pub open spec fn is_new_session(e: TableEntity<Session>, user_id: Seq<char>, key: Seq<char>, site: SiteInfo, now: i64) -> bool {
    &&& (e.partition_key@, e.row_key@) == spec_session_entry_keys(user_id, key)
    &&& e.etag is None
    &&& e.timestamp is None
    &&& e.payload.remote@ == site.remote@
    &&& e.payload.agent@ == site.agent@
    &&& e.payload.issued == now
}

/// The error of a failed session or session index insertion: a conflict is
/// a session key conflict, else the storage failure.
pub open spec fn is_session_insert_error(e: IdentityError, err: StorageError) -> bool {
    if spec_is_conflict(err) {
        e is SessionKeyConflict
    } else {
        e matches IdentityError::DB(m) && m@ == err.spec_describe()
    }
}

fn session_insert_error(err: &StorageError) -> (e: IdentityError)
    ensures
        is_session_insert_error(e, *err),
{
    if is_conflict(err) {
        IdentityError::SessionKeyConflict
    } else {
        IdentityError::from_storage_error(err)
    }
}

/// The stages of creating a session.
#[derive(Debug)]
pub enum CreateSessionStage {
    /// A new session with this key was sent for insertion.
    AwaitSession { key: String },
    /// The session is stored; its index entry was sent for insertion.
    AwaitIndex { session: SessionEntry },
    /// Storing the index entry failed; the stored session was sent for
    /// removal. With `retry`, a new attempt follows; else the flow fails with
    /// the error.
    AwaitSessionRemoval { error: IdentityError, retry: bool },
    Finished,
}

/// What the storage reports back to the session creation.
#[derive(Debug)]
pub enum CreateSessionEvent {
    SessionInserted(Result<TableEntity<Session>, StorageError>),
    IndexInserted(Result<TableEntity<SessionIndex>, StorageError>),
    /// The session was removed (a failure to remove it is only logged).
    SessionRemoved,
}

/// What the session creation asks the caller to do next.
#[derive(Debug)]
pub enum CreateSessionAction {
    InsertSession(TableEntity<Session>),
    InsertIndex(TableEntity<SessionIndex>),
    RemoveSession(TableEntity<Session>),
    Finish(Result<SessionEntry, IdentityError>),
}

/// Creation of a session for an authenticated user: a session with a fresh
/// key is stored, then its index entry; a key collision of either is tried
/// again with a new key while tries are left. If the index entry cannot be
/// stored, the session is removed.
#[derive(Debug)]
pub struct CreateSessionFlow {
    pub user_id: String,
    pub site: SiteInfo,
    /// How many more attempts a key collision may start.
    pub retries: u32,
    pub stage: CreateSessionStage,
}

impl CreateSessionFlow {
    /// The flow's constant part is unchanged.
    pub open spec fn same_request(&self, other: CreateSessionFlow) -> bool {
        &&& self.user_id@ == other.user_id@
        &&& self.site.remote@ == other.site.remote@
        &&& self.site.agent@ == other.site.agent@
    }

    /// A stored session being indexed has a session key in its row key; a
    /// retry after a removal has an attempt left.
    pub open spec fn wf(&self) -> bool {
        &&& self.stage matches CreateSessionStage::AwaitIndex { session } ==> names_session_key(session.0.row_key@)
        &&& self.stage matches CreateSessionStage::AwaitSessionRemoval { retry, .. } ==> (retry ==> self.retries > 0)
    }

    /// Which event the flow waits for in its stage.
    pub open spec fn spec_accepts(&self, event: CreateSessionEvent) -> bool {
        match self.stage {
            CreateSessionStage::AwaitSession { .. } => event is SessionInserted,
            CreateSessionStage::AwaitIndex { .. } => event is IndexInserted,
            CreateSessionStage::AwaitSessionRemoval { .. } => event is SessionRemoved,
            CreateSessionStage::Finished => false,
        }
    }

    /// An attempt with a fresh key: the new session, opened at `now`, is
    /// sent for insertion.
    pub open spec fn spec_attempt_started(&self, action: CreateSessionAction, now: i64) -> bool {
        &&& self.stage matches CreateSessionStage::AwaitSession { key } && is_session_key(key@)
            && (action matches CreateSessionAction::InsertSession(e) && is_new_session(e, self.user_id@, key@, self.site, now))
    }

    fn start_attempt(&mut self, manager: &IdentityManager, now: i64) -> (action: CreateSessionAction)
        ensures
            final(self).wf(),
            final(self).same_request(*old(self)),
            final(self).retries == old(self).retries,
            final(self).spec_attempt_started(action, now),
    {
        let key = manager.genrate_session_key();
        let session = SessionEntry::new_at(self.user_id.clone(), key.clone(), &self.site, now);
        self.stage = CreateSessionStage::AwaitSession { key };
        CreateSessionAction::InsertSession(session.into_entry())
    }

    /// Advances the flow with what the storage reported; `now` is the clock
    /// reading at this step, the time a new attempt's session is opened at.
    pub fn step(&mut self, manager: &IdentityManager, event: CreateSessionEvent, now: i64) -> (action: CreateSessionAction)
        requires
            old(self).wf(),
            old(self).spec_accepts(event),
            event matches CreateSessionEvent::SessionInserted(Ok(e)) ==> names_session_key(e.row_key@),
        ensures
            final(self).wf(),
            final(self).same_request(*old(self)),
            match (old(self).stage, event) {
                (CreateSessionStage::AwaitSession { .. }, CreateSessionEvent::SessionInserted(Ok(e))) => {
                    &&& final(self).retries == old(self).retries
                    &&& final(self).stage matches CreateSessionStage::AwaitIndex { session } && session.0 == e
                    &&& action matches CreateSessionAction::InsertIndex(x) && is_session_index_entry(x, e)
                },
                (CreateSessionStage::AwaitSession { .. }, CreateSessionEvent::SessionInserted(Err(err))) => {
                    if spec_is_conflict(err) && old(self).retries > 0 {
                        final(self).retries == old(self).retries - 1 && final(self).spec_attempt_started(action, now)
                    } else {
                        final(self).stage is Finished
                            && (action matches CreateSessionAction::Finish(Err(e)) && is_session_insert_error(e, err))
                    }
                },
                (CreateSessionStage::AwaitIndex { session }, CreateSessionEvent::IndexInserted(Ok(_))) => {
                    final(self).stage is Finished && action == CreateSessionAction::Finish(Ok(session))
                },
                (CreateSessionStage::AwaitIndex { session }, CreateSessionEvent::IndexInserted(Err(err))) => {
                    &&& final(self).retries == old(self).retries
                    &&& final(self).stage matches CreateSessionStage::AwaitSessionRemoval { error, retry }
                        && is_session_insert_error(error, err) && retry == (spec_is_conflict(err) && old(self).retries > 0)
                    &&& action == CreateSessionAction::RemoveSession(session.0)
                },
                (CreateSessionStage::AwaitSessionRemoval { error, retry }, CreateSessionEvent::SessionRemoved) => {
                    if retry {
                        final(self).retries == old(self).retries - 1 && final(self).spec_attempt_started(action, now)
                    } else {
                        final(self).stage is Finished && action == CreateSessionAction::Finish(Err(error))
                    }
                },
                _ => false,
            },
    {
        let mut stage = CreateSessionStage::Finished;
        std::mem::swap(&mut stage, &mut self.stage);
        match (stage, event) {
            (CreateSessionStage::AwaitSession { .. }, CreateSessionEvent::SessionInserted(Ok(e))) => {
                let session = SessionEntry::from_entry(e);
                let index = SessionIndexEntry::from_identity(&session);
                self.stage = CreateSessionStage::AwaitIndex { session };
                CreateSessionAction::InsertIndex(index.into_entry())
            },
            (CreateSessionStage::AwaitSession { .. }, CreateSessionEvent::SessionInserted(Err(err))) => {
                if is_conflict(&err) && self.retries > 0 {
                    self.retries = self.retries - 1;
                    self.start_attempt(manager, now)
                } else {
                    CreateSessionAction::Finish(Err(session_insert_error(&err)))
                }
            },
            (CreateSessionStage::AwaitIndex { session }, CreateSessionEvent::IndexInserted(Ok(_))) => {
                CreateSessionAction::Finish(Ok(session))
            },
            (CreateSessionStage::AwaitIndex { session }, CreateSessionEvent::IndexInserted(Err(err))) => {
                let error = session_insert_error(&err);
                let retry = is_conflict(&err) && self.retries > 0;
                self.stage = CreateSessionStage::AwaitSessionRemoval { error, retry };
                CreateSessionAction::RemoveSession(session.into_entry())
            },
            (CreateSessionStage::AwaitSessionRemoval { error, retry }, CreateSessionEvent::SessionRemoved) => {
                if retry {
                    self.retries = self.retries - 1;
                    self.start_attempt(manager, now)
                } else {
                    CreateSessionAction::Finish(Err(error))
                }
            },
            (stage, _) => {
                proof {
                    assert(false);
                }
                self.stage = stage;
                CreateSessionAction::Finish(Err(IdentityError::SessionRequired))
            },
        }
    }
}

impl IdentityManager {
    /// Creates a session for an authenticated user from a site; a key
    /// collision is tried again, three attempts in all. The first session is
    /// opened at `now`.
    pub fn create_session(&self, identity: &IdentityEntry, site: SiteInfo, now: i64) -> (r: (CreateSessionFlow, CreateSessionAction))
        ensures
            r.0.wf(),
            r.0.user_id@ == identity.0.row_key@,
            r.0.site.remote@ == site.remote@,
            r.0.site.agent@ == site.agent@,
            r.0.retries == SESSION_TRIES - 1,
            r.0.spec_attempt_started(r.1, now),
    {
        let mut flow = CreateSessionFlow {
            user_id: identity.user_id().to_owned(),
            site,
            retries: SESSION_TRIES - 1,
            stage: CreateSessionStage::Finished,
        };
        let action = flow.start_attempt(self, now);
        (flow, action)
    }
}

/// The stages of finding a user and its session by a session key.
#[derive(Debug)]
pub enum FindSessionStage {
    AwaitIndices,
    AwaitUser,
    AwaitSession { identity: IdentityEntry },
    Finished,
}

/// What the storage reports back to the lookup.
#[derive(Debug)]
pub enum FindSessionEvent {
    IndicesLoaded(Result<Vec<TableEntity<IdentityIndex>>, StorageError>),
    UserLoaded(Result<Option<TableEntity<Identity>>, StorageError>),
    SessionLoaded(Result<Option<TableEntity<Session>>, StorageError>),
}

/// What the lookup asks the caller to do next.
#[derive(Debug)]
pub enum FindSessionAction {
    QueryIndices(String),
    GetUser { partition_key: String, row_key: String },
    GetSession { partition_key: String, row_key: String },
    Finish(Result<(IdentityEntry, SessionEntry), IdentityError>),
}

/// Lookup of a user and its session by a session key: the index entry
/// selected by the key names the user, the user's partition holds the session.
#[derive(Debug)]
pub struct FindSessionFlow {
    pub session_key: String,
    pub stage: FindSessionStage,
}

impl FindSessionFlow {
    /// Which event the flow waits for in its stage.
    pub open spec fn spec_accepts(&self, event: FindSessionEvent) -> bool {
        match self.stage {
            FindSessionStage::AwaitIndices => event is IndicesLoaded,
            FindSessionStage::AwaitUser => event is UserLoaded,
            FindSessionStage::AwaitSession { .. } => event is SessionLoaded,
            FindSessionStage::Finished => false,
        }
    }

    /// Advances the lookup with what the storage reported. At most one
    /// index entry may match.
    pub fn step(&mut self, event: FindSessionEvent) -> (action: FindSessionAction)
        requires
            old(self).spec_accepts(event),
            event matches FindSessionEvent::IndicesLoaded(Ok(v)) ==> (v@.len() <= 1
                && (v@.len() == 1 ==> is_char_boundary(encode_utf8(v@[0].payload.user_id@), 2))),
        ensures
            final(self).session_key == old(self).session_key,
            match (old(self).stage, event) {
                (FindSessionStage::AwaitIndices, FindSessionEvent::IndicesLoaded(Ok(v))) => {
                    if v@.len() == 0 {
                        final(self).stage is Finished
                            && action matches FindSessionAction::Finish(Err(IdentityError::IdentityNotFound))
                    } else {
                        &&& final(self).stage is AwaitUser
                        &&& action matches FindSessionAction::GetUser { partition_key, row_key }
                            && partition_key@ == spec_user_partition(v@[0].payload.user_id@)
                            && row_key@ == v@[0].payload.user_id@
                    }
                },
                (FindSessionStage::AwaitIndices, FindSessionEvent::IndicesLoaded(Err(err))) => {
                    final(self).stage is Finished && (action matches FindSessionAction::Finish(Err(IdentityError::DB(m)))
                        && m@ == err.spec_describe())
                },
                (FindSessionStage::AwaitUser, FindSessionEvent::UserLoaded(Ok(Some(e)))) => {
                    &&& final(self).stage matches FindSessionStage::AwaitSession { identity } && identity.0 == e
                    &&& action matches FindSessionAction::GetSession { partition_key, row_key }
                        && (partition_key@, row_key@) == spec_session_entry_keys(e.row_key@, old(self).session_key@)
                },
                (FindSessionStage::AwaitUser, FindSessionEvent::UserLoaded(Ok(None))) => {
                    final(self).stage is Finished
                        && action matches FindSessionAction::Finish(Err(IdentityError::IdentityNotFound))
                },
                (FindSessionStage::AwaitUser, FindSessionEvent::UserLoaded(Err(err))) => {
                    final(self).stage is Finished && (action matches FindSessionAction::Finish(Err(IdentityError::DB(m)))
                        && m@ == err.spec_describe())
                },
                (FindSessionStage::AwaitSession { identity }, FindSessionEvent::SessionLoaded(Ok(Some(s)))) => {
                    final(self).stage is Finished && action == FindSessionAction::Finish(Ok((identity, SessionEntry(s))))
                },
                (FindSessionStage::AwaitSession { .. }, FindSessionEvent::SessionLoaded(Ok(None))) => {
                    final(self).stage is Finished
                        && action matches FindSessionAction::Finish(Err(IdentityError::IdentityNotFound))
                },
                (FindSessionStage::AwaitSession { .. }, FindSessionEvent::SessionLoaded(Err(err))) => {
                    final(self).stage is Finished && (action matches FindSessionAction::Finish(Err(IdentityError::DB(m)))
                        && m@ == err.spec_describe())
                },
                _ => false,
            },
    {
        let mut stage = FindSessionStage::Finished;
        std::mem::swap(&mut stage, &mut self.stage);
        match (stage, event) {
            (FindSessionStage::AwaitIndices, FindSessionEvent::IndicesLoaded(Ok(indices))) => {
                if indices.len() == 0 {
                    FindSessionAction::Finish(Err(IdentityError::IdentityNotFound))
                } else {
                    let user_id = indices[0].payload.user_id.as_str();
                    let partition_key = IdentityEntry::generate_partion_key(user_id);
                    self.stage = FindSessionStage::AwaitUser;
                    FindSessionAction::GetUser { partition_key, row_key: user_id.to_owned() }
                }
            },
            (FindSessionStage::AwaitIndices, FindSessionEvent::IndicesLoaded(Err(err))) => {
                FindSessionAction::Finish(Err(IdentityError::from_storage_error(&err)))
            },
            (FindSessionStage::AwaitUser, FindSessionEvent::UserLoaded(Ok(Some(e)))) => {
                let identity = IdentityEntry::from_entry(e);
                let (partition_key, row_key) = SessionEntry::entity_keys(identity.user_id(), self.session_key.as_str());
                self.stage = FindSessionStage::AwaitSession { identity };
                FindSessionAction::GetSession { partition_key, row_key }
            },
            (FindSessionStage::AwaitUser, FindSessionEvent::UserLoaded(Ok(None))) => {
                FindSessionAction::Finish(Err(IdentityError::IdentityNotFound))
            },
            (FindSessionStage::AwaitUser, FindSessionEvent::UserLoaded(Err(err))) => {
                FindSessionAction::Finish(Err(IdentityError::from_storage_error(&err)))
            },
            (FindSessionStage::AwaitSession { identity }, FindSessionEvent::SessionLoaded(Ok(Some(s)))) => {
                FindSessionAction::Finish(Ok((identity, SessionEntry::from_entry(s))))
            },
            (FindSessionStage::AwaitSession { .. }, FindSessionEvent::SessionLoaded(Ok(None))) => {
                FindSessionAction::Finish(Err(IdentityError::IdentityNotFound))
            },
            (FindSessionStage::AwaitSession { .. }, FindSessionEvent::SessionLoaded(Err(err))) => {
                FindSessionAction::Finish(Err(IdentityError::from_storage_error(&err)))
            },
            (stage, _) => {
                proof {
                    assert(false);
                }
                self.stage = stage;
                FindSessionAction::Finish(Err(IdentityError::SessionRequired))
            },
        }
    }
}

impl IdentityManager {
    /// Finds the user and the session of a session key. The index entry is
    /// looked up in the partition that names take for the key.
    pub fn find_identity_by_session(&self, session_key: &str) -> (r: (FindSessionFlow, FindSessionAction))
        requires
            is_char_boundary(encode_utf8(session_key@), 2),
        ensures
            r.0.session_key@ == session_key@,
            r.0.stage is AwaitIndices,
            r.1 matches FindSessionAction::QueryIndices(q)
                && q@ == spec_filter_query(spec_key_condition(spec_name_partition(session_key@), session_key@)),
    {
        let partition_key = NameIndexEntry::generate_partion_key(session_key);
        let mut c: Vec<char> = Vec::new();
        push_key_condition(&mut c, partition_key.as_str(), session_key);
        let condition = string_from_chars(&c);
        proof {
            assert(condition@ =~= spec_key_condition(spec_name_partition(session_key@), session_key@));
        }
        let query = filter_query(condition.as_str());
        let flow = FindSessionFlow { session_key: session_key.to_owned(), stage: FindSessionStage::AwaitIndices };
        (flow, FindSessionAction::QueryIndices(query))
    }
}

} // verus!
