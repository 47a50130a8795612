//! User identities with random ids, and the indices that find them by name
//! and by email.
use vstd::prelude::*;
use vstd::utf8::{encode_utf8, is_char_boundary};
use super::IdentityManager;
use crate::auth::identity::IdentityError;
use crate::auth::utils::UserId;
use crate::auth::identity::identitydb::{validate_username, spec_valid_username};
use crate::auth::iam::identity::input_validation::{validate_email, spec_validate_email};
use crate::auth::iam::identity::manager::{
    argon2_hash_encoded, argon2_verify_encoded, is_identity_id, is_salt, push_key_condition, random_identity_id,
    random_salt, spec_argon2_hash_encoded, spec_argon2_verify_encoded, spec_key_condition,
};
use crate::azure_utils::{StorageError, TableEntity, filter_query, is_precodition_error, spec_filter_query, spec_is_precondition_error};
use crate::azure_utils::{spec_condition_selects, lemma_key_condition_selects, lemma_or_condition_selects};
use crate::backoff::{BackoffStep, Exponential, spec_exponential_delay};
use crate::auth::identity::error::{spec_is_transient_identity_error, spec_sequence_failure};
use crate::idsequence::IdSequenceError;
use crate::text::{byte_prefix, concat_str, lemma_ascii_char_boundary, push_str, spec_byte_prefix, string_from_chars, to_owned_string};

verus! {

/// The kind of an identity.
#[derive(Clone, Copy, Debug, PartialEq, Eq, Structural)]
pub enum IdentityCategory {
    User,
}

/// General index data for identity indices
#[derive(Debug, Clone)]
pub struct IdentityIndexedId {
    pub identity_id: String,
}

/// Common data associated to each identity
#[derive(Debug)]
pub struct IdentityCore {
    pub id: String,
    pub sequence_id: u64,
    pub salt: String,
    pub category: IdentityCategory,
    pub name: String,
}

/// Data associated to each identity
pub trait IdentityData {
    /// The identity core of the data.
    spec fn spec_core(&self) -> IdentityCore;

    /// Return the identity core, the common properties for all type of identites
    fn core_data(&self) -> (r: &IdentityCore)
        ensures
            *r == self.spec_core(),
    ;
}

/// Data associated to each identity index
pub trait IdentityIndexData {
    /// The id that the data names.
    spec fn spec_id(&self) -> Seq<char>;

    /// Id of the associated identity
    fn id(&self) -> (r: &str)
        ensures
            r@ == self.spec_id(),
    ;
}

impl IdentityIndexData for IdentityIndexedId {
    open spec fn spec_id(&self) -> Seq<char> {
        self.identity_id@
    }

    fn id(&self) -> (r: &str) {
        self.identity_id.as_str()
    }
}

/// Data associated to a user identity
#[derive(Debug)]
pub struct UserIdentityData {
    pub core: IdentityCore,
    pub email: Option<String>,
    pub email_validated: bool,
    pub password_hash: String,
}

impl IdentityData for UserIdentityData {
    open spec fn spec_core(&self) -> IdentityCore {
        self.core
    }

    fn core_data(&self) -> (r: &IdentityCore) {
        &self.core
    }
}

/// The keys of the identity with the given id: the partition is named by
/// the first two bytes of the id.
pub open spec fn spec_identity_keys(id: Seq<char>) -> (Seq<char>, Seq<char>) {
    (spec_byte_prefix(id, 2), id)
}

/// Identity assigned to a user
#[derive(Debug)]
pub struct UserIdentity(pub TableEntity<UserIdentityData>);

impl UserIdentity {
    /// Generate partition and row keys from the id of an identity
    pub fn entity_keys(id: &str) -> (r: (String, String))
        requires
            is_char_boundary(encode_utf8(id@), 2),
        ensures
            (r.0@, r.1@) == spec_identity_keys(id@),
    {
        (to_owned_string(byte_prefix(id, 2)), to_owned_string(id))
    }

    /// A new user identity, keyed by its id; its email is not validated yet.
    pub fn new(
        id: String,
        sequence_id: u64,
        salt: String,
        name: String,
        email: Option<String>,
        password_hash: String,
    ) -> (r: UserIdentity)
        requires
            is_char_boundary(encode_utf8(id@), 2),
        ensures
            (r.0.partition_key@, r.0.row_key@) == spec_identity_keys(id@),
            r.0.etag is None,
            r.0.timestamp is None,
            r.0.payload.core.id == id,
            r.0.payload.core.sequence_id == sequence_id,
            r.0.payload.core.salt == salt,
            r.0.payload.core.category == IdentityCategory::User,
            r.0.payload.core.name == name,
            r.0.payload.email == email,
            !r.0.payload.email_validated,
            r.0.payload.password_hash == password_hash,
    {
        let (partition_key, row_key) = Self::entity_keys(id.as_str());
        UserIdentity(TableEntity {
            partition_key,
            row_key,
            etag: None,
            timestamp: None,
            payload: UserIdentityData {
                core: IdentityCore { id, sequence_id, salt, name, category: IdentityCategory::User },
                email,
                email_validated: false,
                password_hash,
            },
        })
    }

    /// Create Self from the stored table entity
    pub fn from_entity(entity: TableEntity<UserIdentityData>) -> (r: Self)
        ensures
            r.0 == entity,
    {
        UserIdentity(entity)
    }

    /// Create a the table entity to store from Self
    pub fn into_entity(self) -> (r: TableEntity<UserIdentityData>)
        ensures
            r == self.0,
    {
        self.0
    }

    /// Return the associated data
    pub fn into_data(self) -> (r: UserIdentityData)
        ensures
            r == self.0.payload,
    {
        self.0.payload
    }

    /// Return the data associated to an identity
    pub fn data(&self) -> (r: &UserIdentityData)
        ensures
            *r == self.0.payload,
    {
        &self.0.payload
    }

    /// Return the mutable data associated to an identity
    pub fn data_mut(&mut self) -> (r: &mut UserIdentityData)
        ensures
            *r == old(self).0.payload,
            final(self).0.partition_key == old(self).0.partition_key,
            final(self).0.row_key == old(self).0.row_key,
            final(self).0.etag == old(self).0.etag,
            final(self).0.timestamp == old(self).0.timestamp,
            final(self).0.payload == *final(r),
    {
        &mut self.0.payload
    }

    /// Return the identity core, the common properties for all type of identites
    pub fn core_data(&self) -> (r: &IdentityCore)
        ensures
            *r == self.0.payload.core,
    {
        self.0.payload.core_data()
    }

    /// Return the (unique) id of the identity
    pub fn id(&self) -> (r: &str)
        ensures
            r@ == self.0.payload.core.id@,
    {
        self.0.payload.core.id.as_str()
    }

    /// Return the (unique) name of an identity
    pub fn name(&self) -> (r: &str)
        ensures
            r@ == self.0.payload.core.name@,
    {
        self.0.payload.core.name.as_str()
    }

    /// The logged in user of this identity: its id and name, without roles.
    pub fn into_user_id(self) -> (r: UserId)
        ensures
            r.user_id@ == self.0.payload.core.id@,
            r.name@ == self.0.payload.core.name@,
            r.roles@.len() == 0,
    {
        let data = self.into_data();
        UserId { user_id: data.core.id, name: data.core.name, roles: Vec::new() }
    }
}

/// Data associated to an identity index by name
#[derive(Debug)]
pub struct NameIndexData {
    pub indexed_id: IdentityIndexedId,
}

impl IdentityIndexData for NameIndexData {
    open spec fn spec_id(&self) -> Seq<char> {
        self.indexed_id.identity_id@
    }

    fn id(&self) -> (r: &str) {
        self.indexed_id.identity_id.as_str()
    }
}

/// The keys of the name index entry of a name: the partition is named by
/// the first two bytes of the name.
pub open spec fn spec_name_index_keys(name: Seq<char>) -> (Seq<char>, Seq<char>) {
    ("name-"@ + spec_byte_prefix(name, 2), name)
}

/// Index identity by name
#[derive(Debug)]
pub struct NameIndex(pub TableEntity<NameIndexData>);

impl NameIndex {
    /// Generate partition and row keys from the name to index
    pub fn entity_keys(name: &str) -> (r: (String, String))
        requires
            is_char_boundary(encode_utf8(name@), 2),
        ensures
            (r.0@, r.1@) == spec_name_index_keys(name@),
    {
        (concat_str("name-", byte_prefix(name, 2)), to_owned_string(name))
    }

    /// The name index entry of an identity.
    pub fn from_identity(identity: &UserIdentity) -> (r: NameIndex)
        requires
            is_char_boundary(encode_utf8(identity.0.payload.core.name@), 2),
        ensures
            is_name_index_of(r.0, identity.0),
    {
        let (partition_key, row_key) = Self::entity_keys(identity.name());
        NameIndex(TableEntity {
            partition_key,
            row_key,
            etag: None,
            timestamp: None,
            payload: NameIndexData { indexed_id: IdentityIndexedId { identity_id: to_owned_string(identity.id()) } },
        })
    }

    /// Create Self from the stored table entity
    pub fn from_entity(entity: TableEntity<NameIndexData>) -> (r: Self)
        ensures
            r.0 == entity,
    {
        NameIndex(entity)
    }

    /// Create a the table entity to store from Self
    pub fn into_entity(self) -> (r: TableEntity<NameIndexData>)
        ensures
            r == self.0,
    {
        self.0
    }

    /// Return the associated data
    pub fn into_data(self) -> (r: NameIndexData)
        ensures
            r == self.0.payload,
    {
        self.0.payload
    }

    /// Return the data associated to the index (and not to the identity)
    pub fn data(&self) -> (r: &NameIndexData)
        ensures
            *r == self.0.payload,
    {
        &self.0.payload
    }

    /// The unique key to index
    pub fn index_key(&self) -> (r: &str)
        ensures
            r@ == self.0.row_key@,
    {
        self.0.row_key.as_str()
    }

    /// Return the (unique) id of the identity
    pub fn id(&self) -> (r: &str)
        ensures
            r@ == self.0.payload.indexed_id.identity_id@,
    {
        self.0.payload.id()
    }
}

/// Storage type for index by email
#[derive(Debug)]
pub struct EmailIndexData {
    pub indexed_id: IdentityIndexedId,
}

impl IdentityIndexData for EmailIndexData {
    open spec fn spec_id(&self) -> Seq<char> {
        self.indexed_id.identity_id@
    }

    fn id(&self) -> (r: &str) {
        self.indexed_id.identity_id.as_str()
    }
}

/// The keys of the email index entry of an email: the partition is named by
/// the first two bytes of the email.
pub open spec fn spec_email_index_keys(email: Seq<char>) -> (Seq<char>, Seq<char>) {
    ("email-"@ + spec_byte_prefix(email, 2), email)
}

/// Index identity by email
#[derive(Debug)]
pub struct EmailIndex(pub TableEntity<EmailIndexData>);

impl EmailIndex {
    /// Generate partition and row keys from the email to index
    pub fn entity_keys(email: &str) -> (r: (String, String))
        requires
            is_char_boundary(encode_utf8(email@), 2),
        ensures
            (r.0@, r.1@) == spec_email_index_keys(email@),
    {
        (concat_str("email-", byte_prefix(email, 2)), to_owned_string(email))
    }

    /// The email index entry of an identity that has an email.
    pub fn from_identity(identity: &UserIdentity) -> (r: Option<EmailIndex>)
        requires
            identity.0.payload.email matches Some(e) ==> is_char_boundary(encode_utf8(e@), 2),
        ensures
            match identity.0.payload.email {
                Some(e) => r matches Some(x) && is_email_index_of(x.0, identity.0, e@),
                None => r is None,
            },
    {
        match &identity.0.payload.email {
            Some(email) => {
                let (partition_key, row_key) = Self::entity_keys(email.as_str());
                Some(EmailIndex(TableEntity {
                    partition_key,
                    row_key,
                    etag: None,
                    timestamp: None,
                    payload: EmailIndexData {
                        indexed_id: IdentityIndexedId { identity_id: to_owned_string(identity.id()) },
                    },
                }))
            },
            None => None,
        }
    }

    /// Create Self from the stored table entity
    pub fn from_entity(entity: TableEntity<EmailIndexData>) -> (r: Self)
        ensures
            r.0 == entity,
    {
        EmailIndex(entity)
    }

    /// Create a the table entity to store from Self
    pub fn into_entity(self) -> (r: TableEntity<EmailIndexData>)
        ensures
            r == self.0,
    {
        self.0
    }

    /// Return the associated data
    pub fn into_data(self) -> (r: EmailIndexData)
        ensures
            r == self.0.payload,
    {
        self.0.payload
    }

    /// Return the data associated to the index (and not to the identity)
    pub fn data(&self) -> (r: &EmailIndexData)
        ensures
            *r == self.0.payload,
    {
        &self.0.payload
    }

    /// The unique key to index
    pub fn index_key(&self) -> (r: &str)
        ensures
            r@ == self.0.row_key@,
    {
        self.0.row_key.as_str()
    }

    /// Return the (unique) id of the identity
    pub fn id(&self) -> (r: &str)
        ensures
            r@ == self.0.payload.indexed_id.identity_id@,
    {
        self.0.payload.id()
    }
}

/// The name index entry of a stored identity.
pub open spec fn is_name_index_of(n: TableEntity<NameIndexData>, identity: TableEntity<UserIdentityData>) -> bool {
    &&& (n.partition_key@, n.row_key@) == spec_name_index_keys(identity.payload.core.name@)
    &&& n.etag is None
    &&& n.timestamp is None
    &&& n.payload.indexed_id.identity_id@ == identity.payload.core.id@
}

/// The email index entry of a stored identity with the given email.
pub open spec fn is_email_index_of(x: TableEntity<EmailIndexData>, identity: TableEntity<UserIdentityData>, email: Seq<char>) -> bool {
    &&& (x.partition_key@, x.row_key@) == spec_email_index_keys(email)
    &&& x.etag is None
    &&& x.timestamp is None
    &&& x.payload.indexed_id.identity_id@ == identity.payload.core.id@
}

/// The view of an optional email.
pub open spec fn spec_email_view(email: Option<String>) -> Option<Seq<char>> {
    match email {
        Some(e) => Some(e@),
        None => None,
    }
}

/// A stored identity whose name and email have index keys: both start with
/// two whole characters.
pub open spec fn has_index_keys(e: TableEntity<UserIdentityData>) -> bool {
    &&& is_char_boundary(encode_utf8(e.payload.core.name@), 2)
    &&& e.payload.email matches Some(x) ==> is_char_boundary(encode_utf8(x@), 2)
}

/// A new user identity as an attempt stores it: a fresh id and salt, the
/// hash of the password with that salt, the given sequence id, name and
/// email, not validated yet.
pub open spec fn is_new_user_entity(
    e: TableEntity<UserIdentityData>,
    sequence_id: u64,
    name: Seq<char>,
    email: Option<Seq<char>>,
    password: Seq<char>,
) -> bool {
    let core = e.payload.core;
    &&& (e.partition_key@, e.row_key@) == spec_identity_keys(core.id@)
    &&& e.etag is None
    &&& e.timestamp is None
    &&& is_identity_id(core.id@)
    &&& is_salt(core.salt@)
    &&& core.sequence_id == sequence_id
    &&& core.category == IdentityCategory::User
    &&& core.name@ == name
    &&& spec_email_view(e.payload.email) == email
    &&& !e.payload.email_validated
    &&& spec_argon2_hash_encoded(encode_utf8(password), encode_utf8(core.salt@))
        == Ok::<Seq<char>, Seq<char>>(e.payload.password_hash@)
}

/// The error of a failed index insertion: `taken` when the entry exists
/// already, else the storage failure.
pub open spec fn is_index_error(e: IdentityError, err: StorageError, taken: IdentityError) -> bool {
    if spec_is_precondition_error(err) {
        e == taken
    } else {
        e matches IdentityError::DB(m) && m@ == err.spec_describe()
    }
}

fn index_error(err: &StorageError, taken: IdentityError) -> (e: IdentityError)
    ensures
        is_index_error(e, *err, taken),
{
    if is_precodition_error(err) {
        taken
    } else {
        IdentityError::from_storage_error(err)
    }
}

/// The stages of registering a user.
#[derive(Debug)]
pub enum CreateUserStage {
    /// The name index entry was looked up.
    AwaitNameCheck,
    /// The email index entry was looked up.
    AwaitEmailCheck,
    /// A sequence id was asked for.
    AwaitSequenceId,
    /// A new identity with this sequence id was sent for insertion.
    AwaitIdentity { sequence_id: u64 },
    /// Waiting before the next attempt to insert an identity.
    AwaitRetry { sequence_id: u64 },
    /// The identity is stored; its name index entry was sent.
    AwaitNameIndex { identity: UserIdentity },
    /// The name index entry is stored; the email index entry was sent.
    AwaitEmailIndex { identity: UserIdentity, name_index: NameIndex },
    /// Registration failed after the identity was stored; what was stored is
    /// being removed.
    AwaitRollback { error: IdentityError },
    Finished,
}

/// What the storage reports back to the registration.
#[derive(Debug)]
pub enum CreateUserEvent {
    /// Whether an entry of the name index exists.
    NameChecked(Result<bool, StorageError>),
    /// Whether an entry of the email index exists.
    EmailChecked(Result<bool, StorageError>),
    SequenceIdAllocated(Result<u64, IdSequenceError>),
    IdentityInserted(Result<TableEntity<UserIdentityData>, StorageError>),
    NameIndexInserted(Result<TableEntity<NameIndexData>, StorageError>),
    EmailIndexInserted(Result<TableEntity<EmailIndexData>, StorageError>),
    /// The removals of the rollback were done (failures are only logged).
    RolledBack,
    Waited,
}

/// What the registration asks the caller to do next.
#[derive(Debug)]
pub enum CreateUserAction {
    CheckName { partition_key: String, row_key: String },
    CheckEmail { partition_key: String, row_key: String },
    AllocateSequenceId,
    InsertIdentity(TableEntity<UserIdentityData>),
    InsertNameIndex(TableEntity<NameIndexData>),
    InsertEmailIndex(TableEntity<EmailIndexData>),
    /// Remove the stored identity, then the stored name index entry.
    Rollback { identity: TableEntity<UserIdentityData>, name_index: Option<TableEntity<NameIndexData>> },
    Wait(u64),
    Finish(Result<UserIdentity, IdentityError>),
}

/// Registration of a user: the name and email are checked to be free, a
/// sequence id is taken, the identity is stored with a fresh id (retried on
/// an id collision), then its name and email index entries. If an index
/// entry cannot be stored, what was stored is removed again.
#[derive(Debug)]
pub struct CreateUserFlow {
    pub name: String,
    pub email: Option<String>,
    pub password: String,
    pub policy: Exponential,
    pub attempt: u32,
    pub stage: CreateUserStage,
}

impl CreateUserFlow {
    /// The flow's constant part is unchanged.
    pub open spec fn same_request(&self, other: CreateUserFlow) -> bool {
        &&& self.name@ == other.name@
        &&& spec_email_view(self.email) == spec_email_view(other.email)
        &&& self.password@ == other.password@
        &&& self.policy == other.policy
    }

    /// The email has its index keys, and so has the stored identity.
    pub open spec fn wf(&self) -> bool {
        &&& self.email matches Some(e) ==> is_char_boundary(encode_utf8(e@), 2)
        &&& match self.stage {
            CreateUserStage::AwaitNameIndex { identity } => has_index_keys(identity.0),
            CreateUserStage::AwaitEmailIndex { identity, .. } => has_index_keys(identity.0),
            _ => true,
        }
    }

    /// Which event the flow waits for in its stage.
    pub open spec fn spec_accepts(&self, event: CreateUserEvent) -> bool {
        match self.stage {
            CreateUserStage::AwaitNameCheck => event is NameChecked,
            CreateUserStage::AwaitEmailCheck => event is EmailChecked,
            CreateUserStage::AwaitSequenceId => event is SequenceIdAllocated,
            CreateUserStage::AwaitIdentity { .. } => event is IdentityInserted,
            CreateUserStage::AwaitRetry { .. } => event is Waited,
            CreateUserStage::AwaitNameIndex { .. } => event is NameIndexInserted,
            CreateUserStage::AwaitEmailIndex { .. } => event is EmailIndexInserted,
            CreateUserStage::AwaitRollback { .. } => event is RolledBack,
            CreateUserStage::Finished => false,
        }
    }

    /// Whether the flow waits for this event.
    pub fn accepts(&self, event: &CreateUserEvent) -> (r: bool)
        ensures
            r == self.spec_accepts(*event),
    {
        match (&self.stage, event) {
            (CreateUserStage::AwaitNameCheck, CreateUserEvent::NameChecked(_)) => true,
            (CreateUserStage::AwaitEmailCheck, CreateUserEvent::EmailChecked(_)) => true,
            (CreateUserStage::AwaitSequenceId, CreateUserEvent::SequenceIdAllocated(_)) => true,
            (CreateUserStage::AwaitIdentity { .. }, CreateUserEvent::IdentityInserted(_)) => true,
            (CreateUserStage::AwaitRetry { .. }, CreateUserEvent::Waited) => true,
            (CreateUserStage::AwaitNameIndex { .. }, CreateUserEvent::NameIndexInserted(_)) => true,
            (CreateUserStage::AwaitEmailIndex { .. }, CreateUserEvent::EmailIndexInserted(_)) => true,
            (CreateUserStage::AwaitRollback { .. }, CreateUserEvent::RolledBack) => true,
            _ => false,
        }
    }

    /// An attempt to store the identity: with a fresh id and salt, the
    /// identity is sent for insertion; if the password cannot be hashed the
    /// registration fails.
    pub open spec fn spec_attempt_started(&self, sequence_id: u64, action: CreateUserAction) -> bool {
        ||| {
            &&& self.stage == CreateUserStage::AwaitIdentity { sequence_id }
            &&& action matches CreateUserAction::InsertIdentity(e)
                && is_new_user_entity(e, sequence_id, self.name@, spec_email_view(self.email), self.password@)
        }
        ||| {
            &&& encode_utf8(self.password@).len() > 0xFFFF_FFFF
            &&& self.stage is Finished
            &&& action matches CreateUserAction::Finish(Err(IdentityError::Encryption(m)))
                && exists|salt: Seq<char>| is_salt(salt)
                    && (spec_argon2_hash_encoded(encode_utf8(self.password@), encode_utf8(salt))
                        matches Err(t) && m@ == t)
        }
    }

    fn start_attempt(&mut self, sequence_id: u64) -> (action: CreateUserAction)
        requires
            old(self).wf(),
        ensures
            final(self).wf(),
            final(self).same_request(*old(self)),
            final(self).attempt == old(self).attempt,
            final(self).spec_attempt_started(sequence_id, action),
    {
        let salt = random_salt();
        let id = random_identity_id();
        let hashed = argon2_hash_encoded(self.password.as_str().as_bytes(), salt.as_str().as_bytes());
        proof {
            vstd::utf8::is_ascii_chars_encode_utf8(salt@);
            lemma_ascii_char_boundary(id@, 2);
        }
        match hashed {
            Ok(password_hash) => {
                let email = match &self.email {
                    Some(e) => Some(e.clone()),
                    None => None,
                };
                let identity = UserIdentity::new(id, sequence_id, salt, self.name.clone(), email, password_hash);
                self.stage = CreateUserStage::AwaitIdentity { sequence_id };
                CreateUserAction::InsertIdentity(identity.into_entity())
            },
            Err(text) => {
                self.stage = CreateUserStage::Finished;
                CreateUserAction::Finish(Err(IdentityError::Encryption(text)))
            },
        }
    }

    fn fail_attempt(&mut self, sequence_id: u64, err: IdentityError) -> (action: CreateUserAction)
        requires
            old(self).wf(),
        ensures
            final(self).wf(),
            final(self).same_request(*old(self)),
            if spec_is_transient_identity_error(err) && old(self).attempt < old(self).policy.max_retry {
                &&& final(self).attempt == old(self).attempt + 1
                &&& final(self).stage == CreateUserStage::AwaitRetry { sequence_id }
                &&& action == CreateUserAction::Wait(
                    spec_exponential_delay(old(self).policy.base_delay_micros as nat, old(self).attempt as nat) as u64)
            } else {
                &&& final(self).attempt == old(self).attempt
                &&& final(self).stage is Finished
                &&& action == CreateUserAction::Finish(Err(err))
            },
    {
        match self.policy.step::<UserIdentity, IdentityError>(self.attempt, Err(err.into_backoff())) {
            BackoffStep::Retry { attempt, delay_micros } => {
                self.attempt = attempt;
                self.stage = CreateUserStage::AwaitRetry { sequence_id };
                CreateUserAction::Wait(delay_micros)
            },
            BackoffStep::Done(r) => {
                self.stage = CreateUserStage::Finished;
                CreateUserAction::Finish(r)
            },
        }
    }

    /// Advances the registration with what the storage reported.
    pub fn step(&mut self, event: CreateUserEvent) -> (action: CreateUserAction)
        requires
            old(self).wf(),
            old(self).spec_accepts(event),
            event matches CreateUserEvent::IdentityInserted(Ok(e)) ==> has_index_keys(e),
        ensures
            final(self).wf(),
            final(self).same_request(*old(self)),
            match (old(self).stage, event) {
                (CreateUserStage::AwaitNameCheck, CreateUserEvent::NameChecked(Ok(found))) => {
                    if found {
                        final(self).stage is Finished && action matches CreateUserAction::Finish(Err(IdentityError::NameTaken))
                    } else {
                        match old(self).email {
                            Some(email) => {
                                &&& final(self).stage is AwaitEmailCheck
                                &&& action matches CreateUserAction::CheckEmail { partition_key, row_key }
                                    && (partition_key@, row_key@) == spec_email_index_keys(email@)
                            },
                            None => final(self).stage is AwaitSequenceId && action is AllocateSequenceId,
                        }
                    }
                },
                (CreateUserStage::AwaitEmailCheck, CreateUserEvent::EmailChecked(Ok(found))) => {
                    if found {
                        final(self).stage is Finished && action matches CreateUserAction::Finish(Err(IdentityError::EmailTaken))
                    } else {
                        final(self).stage is AwaitSequenceId && action is AllocateSequenceId
                    }
                },
                (CreateUserStage::AwaitNameCheck, CreateUserEvent::NameChecked(Err(err))) => {
                    final(self).stage is Finished && (action matches CreateUserAction::Finish(Err(IdentityError::DB(m)))
                        && m@ == err.spec_describe())
                },
                (CreateUserStage::AwaitEmailCheck, CreateUserEvent::EmailChecked(Err(err))) => {
                    final(self).stage is Finished && (action matches CreateUserAction::Finish(Err(IdentityError::DB(m)))
                        && m@ == err.spec_describe())
                },
                (CreateUserStage::AwaitSequenceId, CreateUserEvent::SequenceIdAllocated(Ok(sequence_id))) => {
                    final(self).attempt == old(self).attempt && final(self).spec_attempt_started(sequence_id, action)
                },
                (CreateUserStage::AwaitSequenceId, CreateUserEvent::SequenceIdAllocated(Err(err))) => {
                    final(self).stage is Finished && (action matches CreateUserAction::Finish(Err(IdentityError::DB(m)))
                        && m@ == spec_sequence_failure(err))
                },
                (CreateUserStage::AwaitIdentity { .. }, CreateUserEvent::IdentityInserted(Ok(e))) => {
                    &&& final(self).stage matches CreateUserStage::AwaitNameIndex { identity } && identity.0 == e
                    &&& action matches CreateUserAction::InsertNameIndex(n) && is_name_index_of(n, e)
                },
                (CreateUserStage::AwaitIdentity { sequence_id }, CreateUserEvent::IdentityInserted(Err(err))) => {
                    if spec_is_precondition_error(err) {
                        if old(self).attempt < old(self).policy.max_retry {
                            &&& final(self).stage == CreateUserStage::AwaitRetry { sequence_id }
                            &&& final(self).attempt == old(self).attempt + 1
                            &&& action == CreateUserAction::Wait(
                                spec_exponential_delay(old(self).policy.base_delay_micros as nat, old(self).attempt as nat) as u64)
                        } else {
                            final(self).stage is Finished
                                && action matches CreateUserAction::Finish(Err(IdentityError::IdentityIdConflict))
                        }
                    } else {
                        final(self).stage is Finished && (action matches CreateUserAction::Finish(Err(IdentityError::DB(m)))
                            && m@ == err.spec_describe())
                    }
                },
                (CreateUserStage::AwaitRetry { sequence_id }, CreateUserEvent::Waited) => {
                    final(self).attempt == old(self).attempt && final(self).spec_attempt_started(sequence_id, action)
                },
                (CreateUserStage::AwaitNameIndex { identity }, CreateUserEvent::NameIndexInserted(Ok(n))) => {
                    match identity.0.payload.email {
                        Some(email) => {
                            &&& final(self).stage matches CreateUserStage::AwaitEmailIndex { identity: i, name_index }
                                && i == identity && name_index.0 == n
                            &&& action matches CreateUserAction::InsertEmailIndex(x) && is_email_index_of(x, identity.0, email@)
                        },
                        None => final(self).stage is Finished && action == CreateUserAction::Finish(Ok(identity)),
                    }
                },
                (CreateUserStage::AwaitNameIndex { identity }, CreateUserEvent::NameIndexInserted(Err(err))) => {
                    &&& final(self).stage matches CreateUserStage::AwaitRollback { error }
                        && is_index_error(error, err, IdentityError::NameTaken)
                    &&& action == CreateUserAction::Rollback { identity: identity.0, name_index: None }
                },
                (CreateUserStage::AwaitEmailIndex { identity, .. }, CreateUserEvent::EmailIndexInserted(Ok(_))) => {
                    final(self).stage is Finished && action == CreateUserAction::Finish(Ok(identity))
                },
                (CreateUserStage::AwaitEmailIndex { identity, name_index }, CreateUserEvent::EmailIndexInserted(Err(err))) => {
                    &&& final(self).stage matches CreateUserStage::AwaitRollback { error }
                        && is_index_error(error, err, IdentityError::EmailTaken)
                    &&& action == CreateUserAction::Rollback { identity: identity.0, name_index: Some(name_index.0) }
                },
                (CreateUserStage::AwaitRollback { error }, CreateUserEvent::RolledBack) => {
                    final(self).stage is Finished && action == CreateUserAction::Finish(Err(error))
                },
                _ => false,
            },
    {
        let mut stage = CreateUserStage::Finished;
        std::mem::swap(&mut stage, &mut self.stage);
        match (stage, event) {
            (CreateUserStage::AwaitNameCheck, CreateUserEvent::NameChecked(Ok(found))) => {
                if found {
                    CreateUserAction::Finish(Err(IdentityError::NameTaken))
                } else {
                    match &self.email {
                        Some(email) => {
                            let (partition_key, row_key) = EmailIndex::entity_keys(email.as_str());
                            self.stage = CreateUserStage::AwaitEmailCheck;
                            CreateUserAction::CheckEmail { partition_key, row_key }
                        },
                        None => {
                            self.stage = CreateUserStage::AwaitSequenceId;
                            CreateUserAction::AllocateSequenceId
                        },
                    }
                }
            },
            (CreateUserStage::AwaitEmailCheck, CreateUserEvent::EmailChecked(Ok(found))) => {
                if found {
                    CreateUserAction::Finish(Err(IdentityError::EmailTaken))
                } else {
                    self.stage = CreateUserStage::AwaitSequenceId;
                    CreateUserAction::AllocateSequenceId
                }
            },
            (CreateUserStage::AwaitNameCheck, CreateUserEvent::NameChecked(Err(err))) => {
                CreateUserAction::Finish(Err(IdentityError::from_storage_error(&err)))
            },
            (CreateUserStage::AwaitEmailCheck, CreateUserEvent::EmailChecked(Err(err))) => {
                CreateUserAction::Finish(Err(IdentityError::from_storage_error(&err)))
            },
            (CreateUserStage::AwaitSequenceId, CreateUserEvent::SequenceIdAllocated(Ok(sequence_id))) => {
                self.start_attempt(sequence_id)
            },
            (CreateUserStage::AwaitSequenceId, CreateUserEvent::SequenceIdAllocated(Err(err))) => {
                CreateUserAction::Finish(Err(IdentityError::from_id_sequence_error(&err)))
            },
            (CreateUserStage::AwaitIdentity { .. }, CreateUserEvent::IdentityInserted(Ok(e))) => {
                let identity = UserIdentity::from_entity(e);
                let name_index = NameIndex::from_identity(&identity);
                self.stage = CreateUserStage::AwaitNameIndex { identity };
                CreateUserAction::InsertNameIndex(name_index.into_entity())
            },
            (CreateUserStage::AwaitIdentity { sequence_id }, CreateUserEvent::IdentityInserted(Err(err))) => {
                if is_precodition_error(&err) {
                    self.fail_attempt(sequence_id, IdentityError::IdentityIdConflict)
                } else {
                    self.fail_attempt(sequence_id, IdentityError::from_storage_error(&err))
                }
            },
            (CreateUserStage::AwaitRetry { sequence_id }, CreateUserEvent::Waited) => {
                self.start_attempt(sequence_id)
            },
            (CreateUserStage::AwaitNameIndex { identity }, CreateUserEvent::NameIndexInserted(Ok(n))) => {
                match EmailIndex::from_identity(&identity) {
                    Some(email_index) => {
                        self.stage = CreateUserStage::AwaitEmailIndex { identity, name_index: NameIndex::from_entity(n) };
                        CreateUserAction::InsertEmailIndex(email_index.into_entity())
                    },
                    None => CreateUserAction::Finish(Ok(identity)),
                }
            },
            (CreateUserStage::AwaitNameIndex { identity }, CreateUserEvent::NameIndexInserted(Err(err))) => {
                let error = index_error(&err, IdentityError::NameTaken);
                self.stage = CreateUserStage::AwaitRollback { error };
                CreateUserAction::Rollback { identity: identity.into_entity(), name_index: None }
            },
            (CreateUserStage::AwaitEmailIndex { identity, .. }, CreateUserEvent::EmailIndexInserted(Ok(_))) => {
                CreateUserAction::Finish(Ok(identity))
            },
            (CreateUserStage::AwaitEmailIndex { identity, name_index }, CreateUserEvent::EmailIndexInserted(Err(err))) => {
                let error = index_error(&err, IdentityError::EmailTaken);
                self.stage = CreateUserStage::AwaitRollback { error };
                CreateUserAction::Rollback { identity: identity.into_entity(), name_index: Some(name_index.into_entity()) }
            },
            (CreateUserStage::AwaitRollback { error }, CreateUserEvent::RolledBack) => {
                CreateUserAction::Finish(Err(error))
            },
            (stage, _) => {
                proof {
                    assert(false);
                }
                self.stage = stage;
                CreateUserAction::Finish(Err(IdentityError::SessionRequired))
            },
        }
    }
}

/// The answer to the name or email availability check, from whether its
/// index entry was found.
pub open spec fn spec_availability(found: Result<bool, StorageError>, r: Result<bool, IdentityError>) -> bool {
    match found {
        Ok(f) => r == Ok::<bool, IdentityError>(!f),
        Err(err) => r matches Err(IdentityError::DB(m)) && m@ == err.spec_describe(),
    }
}

/// The storage condition that selects the name index entry or the email
/// index entry of a text.
pub open spec fn spec_name_email_condition(name_email: Seq<char>) -> Seq<char> {
    let (np, nr) = spec_name_index_keys(name_email);
    let (ep, er) = spec_email_index_keys(name_email);
    "(("@ + spec_key_condition(np, nr) + ") or ("@ + spec_key_condition(ep, er) + "))"@
}

/// The lookup by name or email finds either index entry: the condition
/// selects the name index entry of the text and also its email index entry.
pub proof fn lemma_name_email_condition_selects_the_index_entries(name_email: Seq<char>)
    ensures
        spec_condition_selects(
            spec_name_email_condition(name_email), spec_name_index_keys(name_email).0, spec_name_index_keys(name_email).1),
        spec_condition_selects(
            spec_name_email_condition(name_email), spec_email_index_keys(name_email).0, spec_email_index_keys(name_email).1),
{
    let (np, nr) = spec_name_index_keys(name_email);
    let (ep, er) = spec_email_index_keys(name_email);
    lemma_key_condition_selects(np, nr);
    lemma_key_condition_selects(ep, er);
    lemma_or_condition_selects(spec_key_condition(np, nr), spec_key_condition(ep, er), np, nr);
    lemma_or_condition_selects(spec_key_condition(np, nr), spec_key_condition(ep, er), ep, er);
}

/// Registration may start: the name is valid and, when given, so is the email.
pub open spec fn spec_registration_valid(name: Seq<char>, email: Option<&str>) -> bool {
    &&& spec_valid_username(name)
    &&& email matches Some(e) ==> spec_validate_email(e@)
}

impl IdentityManager {
    /// The keys of the name index entry that a new identity name would take.
    pub fn is_name_available(&self, name: &str) -> (r: (String, String))
        requires
            is_char_boundary(encode_utf8(name@), 2),
        ensures
            (r.0@, r.1@) == spec_name_index_keys(name@),
    {
        NameIndex::entity_keys(name)
    }

    /// The keys of the email index entry that an email would take.
    pub fn is_email_available(&self, email: &str) -> (r: (String, String))
        requires
            is_char_boundary(encode_utf8(email@), 2),
        ensures
            (r.0@, r.1@) == spec_email_index_keys(email@),
    {
        EmailIndex::entity_keys(email)
    }

    /// Whether the name or email can be used, from whether its index entry
    /// was found.
    pub fn availability(found: Result<bool, StorageError>) -> (r: Result<bool, IdentityError>)
        ensures
            spec_availability(found, r),
    {
        match found {
            Ok(f) => Ok(!f),
            Err(err) => Err(IdentityError::from_storage_error(&err)),
        }
    }

    /// Creates a new user identity. A name of other than alphanumeric
    /// characters, or an invalid email, is refused; else the flow starts with
    /// the check of the name index, and retries an id collision with the
    /// given policy.
    pub fn create_user(&self, name: &str, email: Option<&str>, password: &str, policy: Exponential) -> (r: Result<
        (CreateUserFlow, CreateUserAction),
        IdentityError,
    >)
        requires
            spec_registration_valid(name@, email) ==> is_char_boundary(encode_utf8(name@), 2),
            spec_registration_valid(name@, email) ==> (email matches Some(e) ==> is_char_boundary(encode_utf8(e@), 2)),
        ensures
            if !spec_valid_username(name@) {
                r matches Err(IdentityError::InvalidName)
            } else if email matches Some(e) && !spec_validate_email(e@) {
                r matches Err(IdentityError::InvalidEmail)
            } else {
                r matches Ok((flow, action)) && {
                    &&& flow.wf()
                    &&& flow.name@ == name@
                    &&& spec_email_view(flow.email) == (match email { Some(e) => Some(e@), None => None })
                    &&& flow.password@ == password@
                    &&& flow.policy == policy
                    &&& flow.attempt == 0
                    &&& flow.stage is AwaitNameCheck
                    &&& action matches CreateUserAction::CheckName { partition_key, row_key }
                        && (partition_key@, row_key@) == spec_name_index_keys(name@)
                }
            },
    {
        if !validate_username(name) {
            return Err(IdentityError::InvalidName);
        }
        match email {
            Some(e) => {
                if !validate_email(e) {
                    return Err(IdentityError::InvalidEmail);
                }
            },
            None => {},
        }
        let (partition_key, row_key) = self.is_name_available(name);
        let flow = CreateUserFlow {
            name: to_owned_string(name),
            email: match email {
                Some(e) => Some(to_owned_string(e)),
                None => None,
            },
            password: to_owned_string(password),
            policy,
            attempt: 0,
            stage: CreateUserStage::AwaitNameCheck,
        };
        Ok((flow, CreateUserAction::CheckName { partition_key, row_key }))
    }
}

/// The stages of finding a user through an index.
#[derive(Debug)]
pub enum FindUserStage {
    /// The index entries were queried.
    AwaitIndices,
    /// The identity that the index names was asked for.
    AwaitIdentity,
    Finished,
}

/// What the storage reports back to the lookup.
#[derive(Debug)]
pub enum FindUserEvent {
    IndicesLoaded(Result<Vec<TableEntity<IdentityIndexedId>>, StorageError>),
    IdentityLoaded(Result<Option<TableEntity<UserIdentityData>>, StorageError>),
}

/// What the lookup asks the caller to do next.
#[derive(Debug)]
pub enum FindUserAction {
    QueryIndices(String),
    GetIdentity { partition_key: String, row_key: String },
    Finish(Result<UserIdentity, IdentityError>),
}

/// Lookup of a user through the index entries that a query selects; the
/// password, if given, is checked against the stored hash.
#[derive(Debug)]
pub struct FindUserFlow {
    pub password: Option<String>,
    pub stage: FindUserStage,
}

/// The answer of the lookup to a loaded identity: with a password, the
/// identity is given only if the password verifies against its hash.
pub open spec fn spec_user_found(password: Option<String>, e: TableEntity<UserIdentityData>, action: FindUserAction) -> bool {
    match password {
        None => action == FindUserAction::Finish(Ok(UserIdentity(e))),
        Some(p) => {
            &&& match spec_argon2_verify_encoded(e.payload.password_hash@, encode_utf8(p@)) {
                Ok(true) => action == FindUserAction::Finish(Ok(UserIdentity(e))),
                Ok(false) => action matches FindUserAction::Finish(Err(IdentityError::PasswordNotMatching)),
                Err(t) => action matches FindUserAction::Finish(Err(IdentityError::Encryption(m))) && m@ == t,
            }
            &&& (exists|salt: Seq<u8>| spec_argon2_hash_encoded(encode_utf8(p@), salt)
                == Ok::<Seq<char>, Seq<char>>(e.payload.password_hash@))
                ==> action == FindUserAction::Finish(Ok(UserIdentity(e)))
        },
    }
}

impl FindUserFlow {
    /// Which event the flow waits for in its stage.
    pub open spec fn spec_accepts(&self, event: FindUserEvent) -> bool {
        match self.stage {
            FindUserStage::AwaitIndices => event is IndicesLoaded,
            FindUserStage::AwaitIdentity => event is IdentityLoaded,
            FindUserStage::Finished => false,
        }
    }

    /// Whether the flow waits for this event.
    pub fn accepts(&self, event: &FindUserEvent) -> (r: bool)
        ensures
            r == self.spec_accepts(*event),
    {
        match (&self.stage, event) {
            (FindUserStage::AwaitIndices, FindUserEvent::IndicesLoaded(_)) => true,
            (FindUserStage::AwaitIdentity, FindUserEvent::IdentityLoaded(_)) => true,
            _ => false,
        }
    }

    /// Advances the lookup with what the storage reported. The index entry
    /// leads to its identity; none means no such user. A query selects at
    /// most one index entry.
    pub fn step(&mut self, event: FindUserEvent) -> (action: FindUserAction)
        requires
            old(self).spec_accepts(event),
            event matches FindUserEvent::IndicesLoaded(Ok(v)) ==> v@.len() <= 1
                && (v@.len() == 1 ==> is_char_boundary(encode_utf8(v@[0].payload.identity_id@), 2)),
        ensures
            final(self).password == old(self).password,
            match (old(self).stage, event) {
                (FindUserStage::AwaitIndices, FindUserEvent::IndicesLoaded(Ok(v))) => {
                    if v@.len() == 1 {
                        &&& final(self).stage is AwaitIdentity
                        &&& action matches FindUserAction::GetIdentity { partition_key, row_key }
                            && (partition_key@, row_key@) == spec_identity_keys(v@[0].payload.identity_id@)
                    } else {
                        final(self).stage is Finished
                            && action matches FindUserAction::Finish(Err(IdentityError::IdentityNotFound))
                    }
                },
                (FindUserStage::AwaitIndices, FindUserEvent::IndicesLoaded(Err(err))) => {
                    final(self).stage is Finished && (action matches FindUserAction::Finish(Err(IdentityError::DB(m)))
                        && m@ == err.spec_describe())
                },
                (FindUserStage::AwaitIdentity, FindUserEvent::IdentityLoaded(Ok(Some(e)))) => {
                    final(self).stage is Finished && spec_user_found(old(self).password, e, action)
                },
                (FindUserStage::AwaitIdentity, FindUserEvent::IdentityLoaded(Ok(None))) => {
                    final(self).stage is Finished
                        && action matches FindUserAction::Finish(Err(IdentityError::IdentityNotFound))
                },
                (FindUserStage::AwaitIdentity, FindUserEvent::IdentityLoaded(Err(err))) => {
                    final(self).stage is Finished && (action matches FindUserAction::Finish(Err(IdentityError::DB(m)))
                        && m@ == err.spec_describe())
                },
                _ => false,
            },
    {
        let mut stage = FindUserStage::Finished;
        std::mem::swap(&mut stage, &mut self.stage);
        match (stage, event) {
            (FindUserStage::AwaitIndices, FindUserEvent::IndicesLoaded(Ok(mut indices))) => {
                match indices.pop() {
                    Some(index) => {
                        let (partition_key, row_key) = UserIdentity::entity_keys(index.payload.identity_id.as_str());
                        self.stage = FindUserStage::AwaitIdentity;
                        FindUserAction::GetIdentity { partition_key, row_key }
                    },
                    None => FindUserAction::Finish(Err(IdentityError::IdentityNotFound)),
                }
            },
            (FindUserStage::AwaitIndices, FindUserEvent::IndicesLoaded(Err(err))) => {
                FindUserAction::Finish(Err(IdentityError::from_storage_error(&err)))
            },
            (FindUserStage::AwaitIdentity, FindUserEvent::IdentityLoaded(Ok(Some(e)))) => {
                let identity = UserIdentity::from_entity(e);
                match &self.password {
                    None => FindUserAction::Finish(Ok(identity)),
                    Some(p) => {
                        match argon2_verify_encoded(identity.data().password_hash.as_str(), p.as_str().as_bytes()) {
                            Ok(true) => FindUserAction::Finish(Ok(identity)),
                            Ok(false) => FindUserAction::Finish(Err(IdentityError::PasswordNotMatching)),
                            Err(text) => FindUserAction::Finish(Err(IdentityError::Encryption(text))),
                        }
                    },
                }
            },
            (FindUserStage::AwaitIdentity, FindUserEvent::IdentityLoaded(Ok(None))) => {
                FindUserAction::Finish(Err(IdentityError::IdentityNotFound))
            },
            (FindUserStage::AwaitIdentity, FindUserEvent::IdentityLoaded(Err(err))) => {
                FindUserAction::Finish(Err(IdentityError::from_storage_error(&err)))
            },
            (stage, _) => {
                proof {
                    assert(false);
                }
                self.stage = stage;
                FindUserAction::Finish(Err(IdentityError::SessionRequired))
            },
        }
    }
}

impl IdentityManager {
    /// Starts the lookup of a user through the index entries of a query;
    /// the password, if given, is checked.
    pub fn find_user_by_index(&self, query: &str, password: Option<&str>) -> (r: (FindUserFlow, FindUserAction))
        ensures
            match password {
                Some(p) => r.0.password matches Some(q) && q@ == p@,
                None => r.0.password is None,
            },
            r.0.stage is AwaitIndices,
            r.1 matches FindUserAction::QueryIndices(q) && q@ == query@,
    {
        let flow = FindUserFlow {
            password: match password {
                Some(p) => Some(to_owned_string(p)),
                None => None,
            },
            stage: FindUserStage::AwaitIndices,
        };
        (flow, FindUserAction::QueryIndices(to_owned_string(query)))
    }

    /// Find a user identity by email or name: the lookup queries the name
    /// and the email index entries of the text. If a password is given it
    /// is also checked.
    pub fn find_user_by_name_email(&self, name_email: &str, password: Option<&str>) -> (r: (FindUserFlow, FindUserAction))
        requires
            is_char_boundary(encode_utf8(name_email@), 2),
        ensures
            match password {
                Some(p) => r.0.password matches Some(q) && q@ == p@,
                None => r.0.password is None,
            },
            r.0.stage is AwaitIndices,
            r.1 matches FindUserAction::QueryIndices(q)
                && q@ == spec_filter_query(spec_name_email_condition(name_email@)),
    {
        let (np, nr) = NameIndex::entity_keys(name_email);
        let (ep, er) = EmailIndex::entity_keys(name_email);
        let mut c: Vec<char> = Vec::new();
        push_str(&mut c, "((");
        push_key_condition(&mut c, np.as_str(), nr.as_str());
        push_str(&mut c, ") or (");
        push_key_condition(&mut c, ep.as_str(), er.as_str());
        push_str(&mut c, "))");
        let condition = string_from_chars(&c);
        proof {
            assert(condition@ =~= spec_name_email_condition(name_email@));
        }
        let query = filter_query(condition.as_str());
        self.find_user_by_index(query.as_str(), password)
    }
}

/// The password hash that registration stores is one that the password
/// verifies against: a later lookup with the same password finds the user.
pub proof fn lemma_registered_password_verifies(
    e: TableEntity<UserIdentityData>,
    sequence_id: u64,
    name: Seq<char>,
    email: Option<Seq<char>>,
    password: Seq<char>,
)
    requires
        is_new_user_entity(e, sequence_id, name, email, password),
    ensures
        exists|salt: Seq<u8>| spec_argon2_hash_encoded(encode_utf8(password), salt)
            == Ok::<Seq<char>, Seq<char>>(e.payload.password_hash@),
{
    let salt = encode_utf8(e.payload.core.salt@);
    assert(spec_argon2_hash_encoded(encode_utf8(password), salt) == Ok::<Seq<char>, Seq<char>>(e.payload.password_hash@));
}

} // verus!
