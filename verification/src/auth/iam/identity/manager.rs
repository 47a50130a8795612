//! The identity store: registration of users with their indices, and the
//! lookup of users by name, email or id. The storage itself is driven by the
//! caller; this module decides what to store, check and answer.
use vstd::prelude::*;
use vstd::utf8::{encode_utf8, is_ascii_chars, is_char_boundary};
use rand::seq::SliceRandom;
use crate::auth::iam::{IAMConfig, IAMError};
use crate::auth::iam::identity::{
    EncodedEmail, EncodedName, IdentityCategory, IndexEmail, IndexEmailData, IndexName, IndexNameData,
    IndexSequence, IndexSequenceData, UserIdentity, UserIdentityData,
};
use crate::auth::iam::identity::identity_data::spec_identity_keys;
use crate::auth::iam::identity::{spec_is_valid_name, spec_name_error_message};
use crate::auth::iam::identity::input_validation::spec_validate_email;
use crate::azure_utils::{spec_encode_safe_key, filter_query, spec_filter_query};
use crate::azure_utils::{spec_condition_selects, lemma_key_condition_selects, lemma_or_condition_selects};
use crate::auth::iam::identity::{CoreIdentity, CoreIdentityIndexedData, IdentityData, IdentityEntity};
use crate::auth::iam::identity::index_email::spec_email_index_keys;
use crate::auth::iam::identity::index_name::spec_name_index_keys;
use crate::auth::iam::identity::index_sequence::spec_sequence_index_keys;
use crate::azure_utils::{StorageError, TableEntity, is_precodition_error, spec_is_precondition_error};
use crate::backoff::{BackoffStep, Exponential, spec_exponential_delay};
use crate::idsequence::IdSequenceError;
use crate::text::{lemma_ascii_char_boundary, push_str, string_from_chars};

verus! {

/// Length of a generated identity id.
pub const ID_LEN: usize = 8;

/// Length of a generated password salt.
pub const MAX_SALT_LEN: usize = 32;

/// A character of generated identity ids: `a-z` or `0-9`.
pub open spec fn is_id_char(c: char) -> bool {
    ('a' <= c && c <= 'z') || ('0' <= c && c <= '9')
}

/// A character of generated salts: `A-Z`, `a-z` or `0-9`.
pub open spec fn is_salt_char(c: char) -> bool {
    ('A' <= c && c <= 'Z') || ('a' <= c && c <= 'z') || ('0' <= c && c <= '9')
}

/// A generated identity id: 8 distinct characters of `a-z0-9`.
pub open spec fn is_identity_id(id: Seq<char>) -> bool {
    &&& id.len() == ID_LEN
    &&& id.no_duplicates()
    &&& forall|i: int| 0 <= i < id.len() ==> is_id_char(#[trigger] id[i])
}

/// A generated salt: 32 distinct characters of `A-Za-z0-9`.
pub open spec fn is_salt(salt: Seq<char>) -> bool {
    &&& salt.len() == MAX_SALT_LEN
    &&& salt.no_duplicates()
    &&& forall|i: int| 0 <= i < salt.len() ==> is_salt_char(#[trigger] salt[i])
}

/// The bytes `lo, lo + 1, ..., lo + n - 1`.
pub open spec fn spec_byte_range(lo: u8, n: nat) -> Seq<u8> {
    Seq::new(n, |i: int| (lo + i) as u8)
}

/// The alphabet of identity ids, `a-z` then `0-9`.
pub open spec fn spec_id_alphabet() -> Seq<u8> {
    spec_byte_range(97, 26) + spec_byte_range(48, 10)
}

/// The alphabet of salts, `A-Z`, `a-z` then `0-9`.
pub open spec fn spec_salt_alphabet() -> Seq<u8> {
    spec_byte_range(65, 26) + spec_byte_range(97, 26) + spec_byte_range(48, 10)
}

fn byte_range(lo: u8, n: u8) -> (v: Vec<u8>)
    requires
        lo + n <= 256,
    ensures
        v@ == spec_byte_range(lo, n as nat),
{
    let mut v: Vec<u8> = Vec::new();
    let mut k: u8 = 0;
    while k < n
        invariant
            k <= n,
            lo + n <= 256,
            v@ == spec_byte_range(lo, k as nat),
        decreases n - k,
    {
        v.push(lo + k);
        k = k + 1;
        assert(v@ =~= spec_byte_range(lo, k as nat));
    }
    v
}

fn id_alphabet() -> (v: Vec<u8>)
    ensures
        v@ == spec_id_alphabet(),
{
    let mut v = byte_range(97, 26);
    let mut digits = byte_range(48, 10);
    v.append(&mut digits);
    v
}

fn salt_alphabet() -> (v: Vec<u8>)
    ensures
        v@ == spec_salt_alphabet(),
{
    let mut v = byte_range(65, 26);
    let mut lower = byte_range(97, 26);
    let mut digits = byte_range(48, 10);
    v.append(&mut lower);
    v.append(&mut digits);
    v
}

proof fn lemma_id_alphabet()
    ensures
        spec_id_alphabet().no_duplicates(),
        forall|b: u8| spec_id_alphabet().contains(b) ==> is_id_char(b as char),
{
    let a = spec_id_alphabet();
    assert forall|i: int, j: int| 0 <= i < a.len() && 0 <= j < a.len() && i != j implies a[i] != a[j] by {}
    assert forall|b: u8| a.contains(b) implies is_id_char(b as char) by {
        let i = choose|i: int| 0 <= i < a.len() && a[i] == b;
    }
}

proof fn lemma_salt_alphabet()
    ensures
        spec_salt_alphabet().no_duplicates(),
        forall|b: u8| spec_salt_alphabet().contains(b) ==> is_salt_char(b as char),
{
    let a = spec_salt_alphabet();
    assert forall|i: int, j: int| 0 <= i < a.len() && 0 <= j < a.len() && i != j implies a[i] != a[j] by {}
    assert forall|b: u8| a.contains(b) implies is_salt_char(b as char) by {
        let i = choose|i: int| 0 <= i < a.len() && a[i] == b;
    }
}

/// `SliceRandom::choose_multiple` of `rand` with `thread_rng`: `amount`
/// bytes (at most the alphabet's length) taken at random from distinct
/// positions of the alphabet, in random order. Nothing is said of which.
#[verifier::external_body]
fn choose_distinct_bytes(alphabet: &[u8], amount: usize) -> (r: Vec<u8>)
    ensures
        r@.len() == if amount <= alphabet@.len() { amount as nat } else { alphabet@.len() },
        forall|i: int| 0 <= i < r@.len() ==> alphabet@.contains(#[trigger] r@[i]),
        alphabet@.no_duplicates() ==> r@.no_duplicates(),
{
    alphabet.choose_multiple(&mut rand::thread_rng(), amount).cloned().collect()
}

/// The text of ASCII bytes.
fn ascii_text(bytes: &[u8]) -> (s: String)
    requires
        forall|i: int| 0 <= i < bytes@.len() ==> #[trigger] bytes@[i] < 128,
    ensures
        s@.len() == bytes@.len(),
        forall|i: int| 0 <= i < bytes@.len() ==> s@[i] == (#[trigger] bytes@[i]) as char,
{
    let mut v: Vec<char> = Vec::new();
    let mut i: usize = 0;
    while i < bytes.len()
        invariant
            i <= bytes@.len(),
            v@.len() == i,
            forall|k: int| 0 <= k < i ==> v@[k] == (#[trigger] bytes@[k]) as char,
        decreases bytes@.len() - i,
    {
        v.push(bytes[i] as char);
        i = i + 1;
    }
    crate::text::string_from_chars(&v)
}

/// A fresh random identity id.
pub fn random_identity_id() -> (id: String)
    ensures
        is_identity_id(id@),
        is_ascii_chars(id@),
{
    let alphabet = id_alphabet();
    let bytes = choose_distinct_bytes(alphabet.as_slice(), ID_LEN);
    proof {
        lemma_id_alphabet();
        assert forall|i: int| 0 <= i < bytes@.len() implies #[trigger] bytes@[i] < 128 by {
            assert(alphabet@.contains(bytes@[i]));
        }
    }
    let id = ascii_text(bytes.as_slice());
    proof {
        assert forall|i: int| 0 <= i < id@.len() implies is_id_char(#[trigger] id@[i]) by {
            assert(alphabet@.contains(bytes@[i]));
        }
        assert forall|i: int, j: int| 0 <= i < id@.len() && 0 <= j < id@.len() && i != j implies id@[i] != id@[j] by {
            assert(bytes@[i] != bytes@[j]);
        }
    }
    id
}

/// A fresh random password salt.
pub fn random_salt() -> (salt: String)
    ensures
        is_salt(salt@),
        is_ascii_chars(salt@),
{
    let alphabet = salt_alphabet();
    let bytes = choose_distinct_bytes(alphabet.as_slice(), MAX_SALT_LEN);
    proof {
        lemma_salt_alphabet();
        assert forall|i: int| 0 <= i < bytes@.len() implies #[trigger] bytes@[i] < 128 by {
            assert(alphabet@.contains(bytes@[i]));
        }
    }
    let salt = ascii_text(bytes.as_slice());
    proof {
        assert forall|i: int| 0 <= i < salt@.len() implies is_salt_char(#[trigger] salt@[i]) by {
            assert(alphabet@.contains(bytes@[i]));
        }
        assert forall|i: int, j: int| 0 <= i < salt@.len() && 0 <= j < salt@.len() && i != j implies salt@[i] != salt@[j] by {
            assert(bytes@[i] != bytes@[j]);
        }
    }
    salt
}

/// The encoded hash that `argon2::hash_encoded` gives for a password and a
/// salt with the default configuration, or the text of its error.
pub uninterp spec fn spec_argon2_hash_encoded(pwd: Seq<u8>, salt: Seq<u8>) -> Result<Seq<char>, Seq<char>>;

/// What `argon2::verify_encoded` answers for an encoded hash and a
/// password, or the text of its error.
pub uninterp spec fn spec_argon2_verify_encoded(encoded: Seq<char>, pwd: Seq<u8>) -> Result<bool, Seq<char>>;

/// `argon2::hash_encoded` of `rust-argon2` with `Config::default()`; the
/// error is given as its text. The hash is named. As the crate's source
/// shows, with the default configuration it fails only for a salt shorter
/// than 8 bytes or an input longer than `u32::MAX` bytes.
#[verifier::external_body]
pub(crate) fn argon2_hash_encoded(pwd: &[u8], salt: &[u8]) -> (r: Result<String, String>)
    ensures
        match r {
            Ok(h) => spec_argon2_hash_encoded(pwd@, salt@) == Ok::<Seq<char>, Seq<char>>(h@),
            Err(m) => spec_argon2_hash_encoded(pwd@, salt@) == Err::<Seq<char>, Seq<char>>(m@),
        },
        8 <= salt@.len() <= 0xFFFF_FFFF && pwd@.len() <= 0xFFFF_FFFF ==> r is Ok,
{
    match argon2::hash_encoded(pwd, salt, &argon2::Config::default()) {
        Ok(h) => Ok(h),
        Err(e) => Err(e.to_string()),
    }
}

/// `argon2::verify_encoded` of `rust-argon2`; the error is given as its
/// text. The answer is named; as the crate documents, a hash made by
/// `hash_encoded` from a password verifies against that password.
#[verifier::external_body]
pub(crate) fn argon2_verify_encoded(encoded: &str, pwd: &[u8]) -> (r: Result<bool, String>)
    ensures
        match r {
            Ok(b) => spec_argon2_verify_encoded(encoded@, pwd@) == Ok::<bool, Seq<char>>(b),
            Err(m) => spec_argon2_verify_encoded(encoded@, pwd@) == Err::<bool, Seq<char>>(m@),
        },
        (exists|salt: Seq<u8>| spec_argon2_hash_encoded(pwd@, salt) == Ok::<Seq<char>, Seq<char>>(encoded@))
            ==> (r == Ok::<bool, String>(true)),
{
    match argon2::verify_encoded(encoded, pwd) {
        Ok(b) => Ok(b),
        Err(e) => Err(e.to_string()),
    }
}

/// The stores of identities: identity and index entities, and the
/// sequence of numeric ids.
#[derive(Clone, Debug)]
pub struct IdentityManager {
    pub password_pepper: String,
}

impl IdentityManager {
    /// The identity manager of the configuration.
    pub fn new(config: &IAMConfig) -> (r: IdentityManager)
        ensures
            r.password_pepper@ == config.password_pepper@,
    {
        IdentityManager { password_pepper: config.password_pepper.clone() }
    }
}


/// The view of an optional email.
pub open spec fn spec_email_view(email: Option<EncodedEmail>) -> Option<Seq<char>> {
    match email {
        Some(e) => Some(e@),
        None => None,
    }
}

/// The message of the error when hashing the password failed.
pub open spec fn spec_hash_failure_message(text: Seq<char>) -> Seq<char> {
    "Argon2 password creation failed: "@ + text
}

/// The message of the error when checking the password failed.
pub open spec fn spec_verify_failure_message(text: Seq<char>) -> Seq<char> {
    "Argon2 password validation failed: "@ + text
}

/// A new user identity as an attempt stores it: a fresh id and salt, the
/// hash of the password with that salt, the given sequence id, name and
/// email, not validated yet.
pub open spec fn is_new_user_entity(
    e: TableEntity<UserIdentityData>,
    sequence_id: u64,
    name: Seq<char>,
    email: Option<Seq<char>>,
    password: Seq<char>,
) -> bool {
    let core = e.payload.core;
    &&& (e.partition_key@, e.row_key@) == spec_identity_keys(core.id@)
    &&& e.etag is None
    &&& e.timestamp is None
    &&& is_identity_id(core.id@)
    &&& is_salt(core.salt@)
    &&& core.sequence_id == sequence_id
    &&& core.category == IdentityCategory::User
    &&& core.name@ == name
    &&& spec_email_view(core.email) == email
    &&& !core.email_validated
    &&& spec_argon2_hash_encoded(encode_utf8(password), encode_utf8(core.salt@))
        == Ok::<Seq<char>, Seq<char>>(e.payload.password_hash@)
}

/// The sequence index entry of a stored identity.
pub open spec fn is_sequence_index_of(s: TableEntity<IndexSequenceData>, identity: TableEntity<UserIdentityData>) -> bool {
    &&& (s.partition_key@, s.row_key@) == spec_sequence_index_keys(identity.payload.core.sequence_id)
    &&& s.etag is None
    &&& s.timestamp is None
    &&& s.payload.indexed_id.identity_id@ == identity.payload.core.id@
}

/// The name index entry of a stored identity.
pub open spec fn is_name_index_of(n: TableEntity<IndexNameData>, identity: TableEntity<UserIdentityData>) -> bool {
    &&& (n.partition_key@, n.row_key@) == spec_name_index_keys(identity.payload.core.name@)
    &&& n.etag is None
    &&& n.timestamp is None
    &&& n.payload.indexed_id.identity_id@ == identity.payload.core.id@
}

/// The email index entry of a stored identity with the given email.
pub open spec fn is_email_index_of(
    x: TableEntity<IndexEmailData>,
    identity: TableEntity<UserIdentityData>,
    email: Seq<char>,
) -> bool {
    &&& (x.partition_key@, x.row_key@) == spec_email_index_keys(identity.payload.core.category, email)
    &&& x.etag is None
    &&& x.timestamp is None
    &&& x.payload.indexed_id.identity_id@ == identity.payload.core.id@
}

/// The error of a failed index insertion: `taken` when the entry exists
/// already, else the storage failure.
pub open spec fn is_insert_error(e: IAMError, err: StorageError, taken: IAMError) -> bool {
    if spec_is_precondition_error(err) {
        e == taken
    } else {
        e matches IAMError::Internal(m) && m@ == err.spec_describe()
    }
}

/// The stages of registering a user.
#[derive(Debug)]
pub enum CreateUserStage {
    /// The name index entry was looked up.
    AwaitNameCheck,
    /// The email index entry was looked up.
    AwaitEmailCheck,
    /// A sequence id was asked for.
    AwaitSequenceId,
    /// A new identity with this sequence id was sent for insertion.
    AwaitIdentity { sequence_id: u64 },
    /// Waiting before the next attempt to insert an identity.
    AwaitRetry { sequence_id: u64 },
    /// The identity is stored; its sequence index entry was sent.
    AwaitSequenceIndex { identity: UserIdentity },
    /// The sequence index entry is stored; the name index entry was sent.
    AwaitNameIndex { identity: UserIdentity, sequence_index: IndexSequence },
    /// The name index entry is stored; the email index entry was sent.
    AwaitEmailIndex { identity: UserIdentity, sequence_index: IndexSequence, name_index: IndexName },
    /// Registration failed after the identity was stored; what was stored is
    /// being removed.
    AwaitRollback { error: IAMError },
    Finished,
}

/// What the storage reports back to the registration.
#[derive(Debug)]
pub enum CreateUserEvent {
    /// Whether an entry of the name index exists.
    NameChecked(Result<bool, StorageError>),
    /// Whether an entry of the email index exists.
    EmailChecked(Result<bool, StorageError>),
    SequenceIdAllocated(Result<u64, IdSequenceError>),
    IdentityInserted(Result<TableEntity<UserIdentityData>, StorageError>),
    SequenceIndexInserted(Result<TableEntity<IndexSequenceData>, StorageError>),
    NameIndexInserted(Result<TableEntity<IndexNameData>, StorageError>),
    EmailIndexInserted(Result<TableEntity<IndexEmailData>, StorageError>),
    /// The removals of the rollback were done (failures are only logged).
    RolledBack,
    Waited,
}

/// What the registration asks the caller to do next.
#[derive(Debug)]
pub enum CreateUserAction {
    CheckName { partition_key: String, row_key: String },
    CheckEmail { partition_key: String, row_key: String },
    AllocateSequenceId,
    InsertIdentity(TableEntity<UserIdentityData>),
    InsertSequenceIndex(TableEntity<IndexSequenceData>),
    InsertNameIndex(TableEntity<IndexNameData>),
    InsertEmailIndex(TableEntity<IndexEmailData>),
    /// Remove the stored identity, then the stored index entries, in this order.
    Rollback {
        identity: TableEntity<UserIdentityData>,
        sequence_index: Option<TableEntity<IndexSequenceData>>,
        name_index: Option<TableEntity<IndexNameData>>,
    },
    Wait(u64),
    Finish(Result<UserIdentity, IAMError>),
}

/// Registration of a user: the name and email are checked to be free, a
/// sequence id is taken, the identity is stored with a fresh id (retried on
/// an id collision), then its sequence, name and email index entries. If an
/// index entry cannot be stored, all that was stored is removed again.
#[derive(Debug)]
pub struct CreateUserFlow {
    pub name: EncodedName,
    pub email: Option<EncodedEmail>,
    pub password: String,
    pub policy: Exponential,
    pub attempt: u32,
    pub stage: CreateUserStage,
}

impl CreateUserFlow {
    /// The flow's constant part is unchanged.
    pub open spec fn same_request(&self, other: CreateUserFlow) -> bool {
        &&& self.name@ == other.name@
        &&& spec_email_view(self.email) == spec_email_view(other.email)
        &&& self.password@ == other.password@
        &&& self.policy == other.policy
    }

    /// Which event the flow waits for in its stage.
    pub open spec fn spec_accepts(&self, event: CreateUserEvent) -> bool {
        match self.stage {
            CreateUserStage::AwaitNameCheck => event is NameChecked,
            CreateUserStage::AwaitEmailCheck => event is EmailChecked,
            CreateUserStage::AwaitSequenceId => event is SequenceIdAllocated,
            CreateUserStage::AwaitIdentity { .. } => event is IdentityInserted,
            CreateUserStage::AwaitRetry { .. } => event is Waited,
            CreateUserStage::AwaitSequenceIndex { .. } => event is SequenceIndexInserted,
            CreateUserStage::AwaitNameIndex { .. } => event is NameIndexInserted,
            CreateUserStage::AwaitEmailIndex { .. } => event is EmailIndexInserted,
            CreateUserStage::AwaitRollback { .. } => event is RolledBack,
            CreateUserStage::Finished => false,
        }
    }

    /// Whether the flow waits for this event.
    pub fn accepts(&self, event: &CreateUserEvent) -> (r: bool)
        ensures
            r == self.spec_accepts(*event),
    {
        match (&self.stage, event) {
            (CreateUserStage::AwaitNameCheck, CreateUserEvent::NameChecked(_)) => true,
            (CreateUserStage::AwaitEmailCheck, CreateUserEvent::EmailChecked(_)) => true,
            (CreateUserStage::AwaitSequenceId, CreateUserEvent::SequenceIdAllocated(_)) => true,
            (CreateUserStage::AwaitIdentity { .. }, CreateUserEvent::IdentityInserted(_)) => true,
            (CreateUserStage::AwaitRetry { .. }, CreateUserEvent::Waited) => true,
            (CreateUserStage::AwaitSequenceIndex { .. }, CreateUserEvent::SequenceIndexInserted(_)) => true,
            (CreateUserStage::AwaitNameIndex { .. }, CreateUserEvent::NameIndexInserted(_)) => true,
            (CreateUserStage::AwaitEmailIndex { .. }, CreateUserEvent::EmailIndexInserted(_)) => true,
            (CreateUserStage::AwaitRollback { .. }, CreateUserEvent::RolledBack) => true,
            _ => false,
        }
    }

    /// An attempt to store the identity: with a fresh id and salt, the
    /// identity is sent for insertion; if the password cannot be hashed the
    /// registration fails.
    pub open spec fn spec_attempt_started(&self, sequence_id: u64, action: CreateUserAction) -> bool {
        ||| {
            &&& self.stage == CreateUserStage::AwaitIdentity { sequence_id }
            &&& action matches CreateUserAction::InsertIdentity(e)
                && is_new_user_entity(e, sequence_id, self.name@, spec_email_view(self.email), self.password@)
        }
        ||| {
            &&& encode_utf8(self.password@).len() > 0xFFFF_FFFF
            &&& self.stage is Finished
            &&& action matches CreateUserAction::Finish(Err(IAMError::Internal(m)))
                && exists|salt: Seq<char>| is_salt(salt)
                    && (spec_argon2_hash_encoded(encode_utf8(self.password@), encode_utf8(salt))
                        matches Err(t) && m@ == spec_hash_failure_message(t))
        }
    }

    fn start_attempt(&mut self, sequence_id: u64) -> (action: CreateUserAction)
        ensures
            final(self).same_request(*old(self)),
            final(self).attempt == old(self).attempt,
            final(self).spec_attempt_started(sequence_id, action),
    {
        let salt = random_salt();
        let id = random_identity_id();
        let hashed = argon2_hash_encoded(self.password.as_str().as_bytes(), salt.as_str().as_bytes());
        proof {
            vstd::utf8::is_ascii_chars_encode_utf8(salt@);
            lemma_ascii_char_boundary(id@, 2);
        }
        match hashed {
            Ok(password_hash) => {
                let identity = UserIdentity::new(
                    id,
                    sequence_id,
                    salt,
                    self.name.clone(),
                    match &self.email {
                        Some(e) => Some(e.clone()),
                        None => None,
                    },
                    password_hash,
                );
                self.stage = CreateUserStage::AwaitIdentity { sequence_id };
                CreateUserAction::InsertIdentity(identity.into_entity())
            },
            Err(text) => {
                let mut m: Vec<char> = Vec::new();
                push_str(&mut m, "Argon2 password creation failed: ");
                push_str(&mut m, text.as_str());
                self.stage = CreateUserStage::Finished;
                CreateUserAction::Finish(Err(IAMError::Internal(string_from_chars(&m))))
            },
        }
    }
}


impl CreateUserFlow {
    fn fail_attempt(&mut self, sequence_id: u64, err: IAMError) -> (action: CreateUserAction)
        ensures
            final(self).same_request(*old(self)),
            if crate::auth::iam::error::spec_is_transient(err) && old(self).attempt < old(self).policy.max_retry {
                &&& final(self).attempt == old(self).attempt + 1
                &&& final(self).stage == CreateUserStage::AwaitRetry { sequence_id }
                &&& action == CreateUserAction::Wait(
                    spec_exponential_delay(old(self).policy.base_delay_micros as nat, old(self).attempt as nat) as u64)
            } else {
                &&& final(self).attempt == old(self).attempt
                &&& final(self).stage is Finished
                &&& action == CreateUserAction::Finish(Err(err))
            },
    {
        match self.policy.step::<UserIdentity, IAMError>(self.attempt, Err(err.into_backoff())) {
            BackoffStep::Retry { attempt, delay_micros } => {
                self.attempt = attempt;
                self.stage = CreateUserStage::AwaitRetry { sequence_id };
                CreateUserAction::Wait(delay_micros)
            },
            BackoffStep::Done(r) => {
                self.stage = CreateUserStage::Finished;
                CreateUserAction::Finish(r)
            },
        }
    }

    fn insert_error(err: &StorageError, taken: IAMError) -> (e: IAMError)
        ensures
            is_insert_error(e, *err, taken),
    {
        if is_precodition_error(err) {
            taken
        } else {
            IAMError::from_storage_error(err)
        }
    }

    /// Advances the registration with what the storage reported.
    pub fn step(&mut self, event: CreateUserEvent) -> (action: CreateUserAction)
        requires
            old(self).spec_accepts(event),
        ensures
            final(self).same_request(*old(self)),
            match (old(self).stage, event) {
                (CreateUserStage::AwaitNameCheck, CreateUserEvent::NameChecked(Ok(found))) => {
                    if found {
                        final(self).stage is Finished && action matches CreateUserAction::Finish(Err(IAMError::NameTaken))
                    } else {
                        match old(self).email {
                            Some(email) => {
                                &&& final(self).stage is AwaitEmailCheck
                                &&& action matches CreateUserAction::CheckEmail { partition_key, row_key }
                                    && (partition_key@, row_key@) == spec_email_index_keys(IdentityCategory::User, email@)
                            },
                            None => final(self).stage is AwaitSequenceId && action is AllocateSequenceId,
                        }
                    }
                },
                (CreateUserStage::AwaitEmailCheck, CreateUserEvent::EmailChecked(Ok(found))) => {
                    if found {
                        final(self).stage is Finished && action matches CreateUserAction::Finish(Err(IAMError::EmailTaken))
                    } else {
                        final(self).stage is AwaitSequenceId && action is AllocateSequenceId
                    }
                },
                (CreateUserStage::AwaitNameCheck, CreateUserEvent::NameChecked(Err(err))) => {
                    final(self).stage is Finished && (action matches CreateUserAction::Finish(Err(IAMError::Internal(m)))
                        && m@ == err.spec_describe())
                },
                (CreateUserStage::AwaitEmailCheck, CreateUserEvent::EmailChecked(Err(err))) => {
                    final(self).stage is Finished && (action matches CreateUserAction::Finish(Err(IAMError::Internal(m)))
                        && m@ == err.spec_describe())
                },
                (CreateUserStage::AwaitSequenceId, CreateUserEvent::SequenceIdAllocated(Ok(sequence_id))) => {
                    final(self).attempt == old(self).attempt && final(self).spec_attempt_started(sequence_id, action)
                },
                (CreateUserStage::AwaitSequenceId, CreateUserEvent::SequenceIdAllocated(Err(err))) => {
                    final(self).stage is Finished && (action matches CreateUserAction::Finish(Err(IAMError::Internal(m)))
                        && m@ == crate::auth::iam::error::spec_id_sequence_message(err))
                },
                (CreateUserStage::AwaitIdentity { .. }, CreateUserEvent::IdentityInserted(Ok(e))) => {
                    &&& final(self).stage matches CreateUserStage::AwaitSequenceIndex { identity } && identity.0 == e
                    &&& action matches CreateUserAction::InsertSequenceIndex(s) && is_sequence_index_of(s, e)
                },
                (CreateUserStage::AwaitIdentity { sequence_id }, CreateUserEvent::IdentityInserted(Err(err))) => {
                    if spec_is_precondition_error(err) {
                        if old(self).attempt < old(self).policy.max_retry {
                            &&& final(self).stage == CreateUserStage::AwaitRetry { sequence_id }
                            &&& final(self).attempt == old(self).attempt + 1
                            &&& action is Wait
                        } else {
                            final(self).stage is Finished
                                && action matches CreateUserAction::Finish(Err(IAMError::IdentityIdConflict))
                        }
                    } else {
                        final(self).stage is Finished && (action matches CreateUserAction::Finish(Err(IAMError::Internal(m)))
                            && m@ == err.spec_describe())
                    }
                },
                (CreateUserStage::AwaitRetry { sequence_id }, CreateUserEvent::Waited) => {
                    final(self).attempt == old(self).attempt && final(self).spec_attempt_started(sequence_id, action)
                },
                (CreateUserStage::AwaitSequenceIndex { identity }, CreateUserEvent::SequenceIndexInserted(Ok(s))) => {
                    &&& final(self).stage matches CreateUserStage::AwaitNameIndex { identity: i, sequence_index }
                        && i == identity && sequence_index.0 == s
                    &&& action matches CreateUserAction::InsertNameIndex(n) && is_name_index_of(n, identity.0)
                },
                (CreateUserStage::AwaitSequenceIndex { identity }, CreateUserEvent::SequenceIndexInserted(Err(err))) => {
                    &&& final(self).stage matches CreateUserStage::AwaitRollback { error }
                        && is_insert_error(error, err, IAMError::SequenceIdTaken)
                    &&& action == CreateUserAction::Rollback { identity: identity.0, sequence_index: None, name_index: None }
                },
                (CreateUserStage::AwaitNameIndex { identity, sequence_index }, CreateUserEvent::NameIndexInserted(Ok(n))) => {
                    match identity.0.payload.core.email {
                        Some(email) => {
                            &&& final(self).stage matches CreateUserStage::AwaitEmailIndex { identity: i, sequence_index: s, name_index }
                                && i == identity && s == sequence_index && name_index.0 == n
                            &&& action matches CreateUserAction::InsertEmailIndex(x) && is_email_index_of(x, identity.0, email@)
                        },
                        None => final(self).stage is Finished && action == CreateUserAction::Finish(Ok(identity)),
                    }
                },
                (CreateUserStage::AwaitNameIndex { identity, sequence_index }, CreateUserEvent::NameIndexInserted(Err(err))) => {
                    &&& final(self).stage matches CreateUserStage::AwaitRollback { error }
                        && is_insert_error(error, err, IAMError::NameTaken)
                    &&& action == CreateUserAction::Rollback {
                        identity: identity.0,
                        sequence_index: Some(sequence_index.0),
                        name_index: None,
                    }
                },
                (CreateUserStage::AwaitEmailIndex { identity, .. }, CreateUserEvent::EmailIndexInserted(Ok(_))) => {
                    final(self).stage is Finished && action == CreateUserAction::Finish(Ok(identity))
                },
                (CreateUserStage::AwaitEmailIndex { identity, sequence_index, name_index }, CreateUserEvent::EmailIndexInserted(Err(err))) => {
                    &&& final(self).stage matches CreateUserStage::AwaitRollback { error }
                        && is_insert_error(error, err, IAMError::EmailTaken)
                    &&& action == CreateUserAction::Rollback {
                        identity: identity.0,
                        sequence_index: Some(sequence_index.0),
                        name_index: Some(name_index.0),
                    }
                },
                (CreateUserStage::AwaitRollback { error }, CreateUserEvent::RolledBack) => {
                    final(self).stage is Finished && action == CreateUserAction::Finish(Err(error))
                },
                _ => false,
            },
    {
        let mut stage = CreateUserStage::Finished;
        std::mem::swap(&mut stage, &mut self.stage);
        match (stage, event) {
            (CreateUserStage::AwaitNameCheck, CreateUserEvent::NameChecked(Ok(found))) => {
                if found {
                    CreateUserAction::Finish(Err(IAMError::NameTaken))
                } else {
                    match &self.email {
                        Some(email) => {
                            let (partition_key, row_key) = IndexEmail::entity_keys(IdentityCategory::User, email);
                            self.stage = CreateUserStage::AwaitEmailCheck;
                            CreateUserAction::CheckEmail { partition_key, row_key }
                        },
                        None => {
                            self.stage = CreateUserStage::AwaitSequenceId;
                            CreateUserAction::AllocateSequenceId
                        },
                    }
                }
            },
            (CreateUserStage::AwaitEmailCheck, CreateUserEvent::EmailChecked(Ok(found))) => {
                if found {
                    CreateUserAction::Finish(Err(IAMError::EmailTaken))
                } else {
                    self.stage = CreateUserStage::AwaitSequenceId;
                    CreateUserAction::AllocateSequenceId
                }
            },
            (CreateUserStage::AwaitNameCheck, CreateUserEvent::NameChecked(Err(err))) => {
                CreateUserAction::Finish(Err(IAMError::from_storage_error(&err)))
            },
            (CreateUserStage::AwaitEmailCheck, CreateUserEvent::EmailChecked(Err(err))) => {
                CreateUserAction::Finish(Err(IAMError::from_storage_error(&err)))
            },
            (CreateUserStage::AwaitSequenceId, CreateUserEvent::SequenceIdAllocated(Ok(sequence_id))) => {
                self.start_attempt(sequence_id)
            },
            (CreateUserStage::AwaitSequenceId, CreateUserEvent::SequenceIdAllocated(Err(err))) => {
                CreateUserAction::Finish(Err(IAMError::from_id_sequence_error(&err)))
            },
            (CreateUserStage::AwaitIdentity { .. }, CreateUserEvent::IdentityInserted(Ok(e))) => {
                let identity = UserIdentity::from_entity(e);
                let sequence_index = IndexSequence::from_identity(&identity);
                self.stage = CreateUserStage::AwaitSequenceIndex { identity };
                CreateUserAction::InsertSequenceIndex(sequence_index.into_entity())
            },
            (CreateUserStage::AwaitIdentity { sequence_id }, CreateUserEvent::IdentityInserted(Err(err))) => {
                if is_precodition_error(&err) {
                    self.fail_attempt(sequence_id, IAMError::IdentityIdConflict)
                } else {
                    self.fail_attempt(sequence_id, IAMError::from_storage_error(&err))
                }
            },
            (CreateUserStage::AwaitRetry { sequence_id }, CreateUserEvent::Waited) => {
                self.start_attempt(sequence_id)
            },
            (CreateUserStage::AwaitSequenceIndex { identity }, CreateUserEvent::SequenceIndexInserted(Ok(s))) => {
                let name_index = IndexName::from_identity(&identity);
                self.stage = CreateUserStage::AwaitNameIndex { identity, sequence_index: IndexSequence::from_entity(s) };
                CreateUserAction::InsertNameIndex(name_index.into_entity())
            },
            (CreateUserStage::AwaitSequenceIndex { identity }, CreateUserEvent::SequenceIndexInserted(Err(err))) => {
                let error = Self::insert_error(&err, IAMError::SequenceIdTaken);
                self.stage = CreateUserStage::AwaitRollback { error };
                CreateUserAction::Rollback { identity: identity.into_entity(), sequence_index: None, name_index: None }
            },
            (CreateUserStage::AwaitNameIndex { identity, sequence_index }, CreateUserEvent::NameIndexInserted(Ok(n))) => {
                match IndexEmail::from_identity(&identity) {
                    Some(email_index) => {
                        self.stage = CreateUserStage::AwaitEmailIndex {
                            identity,
                            sequence_index,
                            name_index: IndexName::from_entity(n),
                        };
                        CreateUserAction::InsertEmailIndex(email_index.into_entity())
                    },
                    None => CreateUserAction::Finish(Ok(identity)),
                }
            },
            (CreateUserStage::AwaitNameIndex { identity, sequence_index }, CreateUserEvent::NameIndexInserted(Err(err))) => {
                let error = Self::insert_error(&err, IAMError::NameTaken);
                self.stage = CreateUserStage::AwaitRollback { error };
                CreateUserAction::Rollback {
                    identity: identity.into_entity(),
                    sequence_index: Some(sequence_index.into_entity()),
                    name_index: None,
                }
            },
            (CreateUserStage::AwaitEmailIndex { identity, .. }, CreateUserEvent::EmailIndexInserted(Ok(_))) => {
                CreateUserAction::Finish(Ok(identity))
            },
            (CreateUserStage::AwaitEmailIndex { identity, sequence_index, name_index }, CreateUserEvent::EmailIndexInserted(Err(err))) => {
                let error = Self::insert_error(&err, IAMError::EmailTaken);
                self.stage = CreateUserStage::AwaitRollback { error };
                CreateUserAction::Rollback {
                    identity: identity.into_entity(),
                    sequence_index: Some(sequence_index.into_entity()),
                    name_index: Some(name_index.into_entity()),
                }
            },
            (CreateUserStage::AwaitRollback { error }, CreateUserEvent::RolledBack) => {
                CreateUserAction::Finish(Err(error))
            },
            (stage, _) => {
                proof {
                    assert(false);
                }
                self.stage = stage;
                CreateUserAction::Finish(Err(IAMError::SessionRequired))
            },
        }
    }
}

impl IdentityManager {
    /// Creates a new user identity. The name and the email are validated
    /// first; the flow then starts by looking up the name index.
    pub fn create_user(&self, raw_name: &str, raw_email: Option<&str>, password: &str) -> (r: Result<
        (CreateUserFlow, CreateUserAction),
        IAMError,
    >)
        ensures
            if !spec_is_valid_name(raw_name@) {
                r matches Err(IAMError::NameInvalid(m)) && m@ == spec_name_error_message(raw_name@)
            } else if raw_email matches Some(e) && !spec_validate_email(e@) {
                r matches Err(IAMError::EmailInvalid(m)) && m@ == "Invalid email"@
            } else {
                r matches Ok((flow, action)) && {
                    &&& flow.name@ == spec_encode_safe_key(raw_name@)
                    &&& spec_email_view(flow.email) == match raw_email {
                        Some(e) => Some(spec_encode_safe_key(e@)),
                        None => None,
                    }
                    &&& flow.password@ == password@
                    &&& flow.attempt == 0
                    &&& flow.policy.max_retry == 3
                    &&& flow.stage is AwaitNameCheck
                    &&& action matches CreateUserAction::CheckName { partition_key, row_key }
                        && (partition_key@, row_key@) == spec_name_index_keys(flow.name@)
                }
            },
    {
        let name = match EncodedName::from_raw(raw_name) {
            Ok(name) => name,
            Err(e) => return Err(e),
        };
        let email = match raw_email {
            Some(raw) => match EncodedEmail::from_raw(raw) {
                Ok(email) => Some(email),
                Err(e) => return Err(e),
            },
            None => None,
        };
        let (partition_key, row_key) = IndexName::entity_keys(&name);
        let flow = CreateUserFlow {
            name,
            email,
            password: password.to_owned(),
            policy: Exponential::new(3, 10),
            attempt: 0,
            stage: CreateUserStage::AwaitNameCheck,
        };
        Ok((flow, CreateUserAction::CheckName { partition_key, row_key }))
    }
}


/// The storage condition that selects the entity with the given keys.
pub open spec fn spec_key_condition(partition_key: Seq<char>, row_key: Seq<char>) -> Seq<char> {
    "PartitionKey eq '"@ + partition_key + "' and RowKey eq '"@ + row_key + "'"@
}

/// The storage condition that selects the name index entry or the email
/// index entry of a user.
pub open spec fn spec_name_email_condition(name: Seq<char>, email: Seq<char>) -> Seq<char> {
    let (np, nr) = spec_name_index_keys(name);
    let (ep, er) = spec_email_index_keys(IdentityCategory::User, email);
    "(("@ + spec_key_condition(np, nr) + ") or ("@ + spec_key_condition(ep, er) + "))"@
}

/// The lookup of a user by name or email finds either index entry: the
/// condition selects the user's name index entry and its email index entry.
pub proof fn lemma_name_email_condition_selects_the_index_entries(name: Seq<char>, email: Seq<char>)
    ensures
        spec_condition_selects(spec_name_email_condition(name, email), spec_name_index_keys(name).0, spec_name_index_keys(name).1),
        spec_condition_selects(
            spec_name_email_condition(name, email),
            spec_email_index_keys(IdentityCategory::User, email).0,
            spec_email_index_keys(IdentityCategory::User, email).1,
        ),
{
    let (np, nr) = spec_name_index_keys(name);
    let (ep, er) = spec_email_index_keys(IdentityCategory::User, email);
    lemma_key_condition_selects(np, nr);
    lemma_key_condition_selects(ep, er);
    lemma_or_condition_selects(spec_key_condition(np, nr), spec_key_condition(ep, er), np, nr);
    lemma_or_condition_selects(spec_key_condition(np, nr), spec_key_condition(ep, er), ep, er);
}

pub(crate) fn push_key_condition(out: &mut Vec<char>, partition_key: &str, row_key: &str)
    ensures
        final(out)@ == old(out)@ + spec_key_condition(partition_key@, row_key@),
{
    push_str(out, "PartitionKey eq '");
    push_str(out, partition_key);
    push_str(out, "' and RowKey eq '");
    push_str(out, row_key);
    push_str(out, "'");
    proof {
        assert(final(out)@ =~= old(out)@ + spec_key_condition(partition_key@, row_key@));
    }
}

/// The password hash that registration stores is one that the password
/// verifies against: a later lookup with the same password (`FindUserFlow`)
/// finds the user.
pub proof fn lemma_registered_password_verifies(
    e: TableEntity<UserIdentityData>,
    sequence_id: u64,
    name: Seq<char>,
    email: Option<Seq<char>>,
    password: Seq<char>,
)
    requires
        is_new_user_entity(e, sequence_id, name, email, password),
    ensures
        exists|salt: Seq<u8>| spec_argon2_hash_encoded(encode_utf8(password), salt)
            == Ok::<Seq<char>, Seq<char>>(e.payload.password_hash@),
{
    let salt = encode_utf8(e.payload.core.salt@);
    assert(spec_argon2_hash_encoded(encode_utf8(password), salt) == Ok::<Seq<char>, Seq<char>>(e.payload.password_hash@));
}

/// The stages of finding a user by name or email.
#[derive(Debug)]
pub enum FindUserStage {
    /// The index entries of the name or email were queried.
    AwaitIndices,
    /// The identity that the index names was asked for.
    AwaitIdentity,
    Finished,
}

/// What the storage reports back to the lookup.
#[derive(Debug)]
pub enum FindUserEvent {
    /// The first page of the index query (`None` when there is none).
    IndicesLoaded(Result<Option<Vec<TableEntity<CoreIdentityIndexedData>>>, StorageError>),
    IdentityLoaded(Result<Option<TableEntity<UserIdentityData>>, StorageError>),
}

/// What the lookup asks the caller to do next.
#[derive(Debug)]
pub enum FindUserAction {
    QueryIndices(String),
    GetIdentity { partition_key: String, row_key: String },
    Finish(Result<UserIdentity, IAMError>),
}

/// Lookup of a user by name or email, through the name and email indices;
/// the password, if given, is checked against the stored hash.
#[derive(Debug)]
pub struct FindUserFlow {
    pub password: Option<String>,
    pub stage: FindUserStage,
}

/// The answer to a failed password check.
fn password_check(verified: Result<bool, String>) -> (r: Result<(), IAMError>)
    ensures
        match verified {
            Ok(true) => r is Ok,
            Ok(false) => r matches Err(IAMError::PasswordNotMatching),
            Err(t) => r matches Err(IAMError::Internal(m)) && m@ == spec_verify_failure_message(t@),
        },
{
    match verified {
        Ok(true) => Ok(()),
        Ok(false) => Err(IAMError::PasswordNotMatching),
        Err(t) => {
            let mut m: Vec<char> = Vec::new();
            push_str(&mut m, "Argon2 password validation failed: ");
            push_str(&mut m, t.as_str());
            Err(IAMError::Internal(string_from_chars(&m)))
        },
    }
}

impl FindUserFlow {
    /// Which event the flow waits for in its stage.
    pub open spec fn spec_accepts(&self, event: FindUserEvent) -> bool {
        match self.stage {
            FindUserStage::AwaitIndices => event is IndicesLoaded,
            FindUserStage::AwaitIdentity => event is IdentityLoaded,
            FindUserStage::Finished => false,
        }
    }

    /// Whether the flow waits for this event.
    pub fn accepts(&self, event: &FindUserEvent) -> (r: bool)
        ensures
            r == self.spec_accepts(*event),
    {
        match (&self.stage, event) {
            (FindUserStage::AwaitIndices, FindUserEvent::IndicesLoaded(_)) => true,
            (FindUserStage::AwaitIdentity, FindUserEvent::IdentityLoaded(_)) => true,
            _ => false,
        }
    }

    /// Advances the lookup with what the storage reported. A single index
    /// entry leads to its identity; none, or several, mean no such user.
    pub fn step(&mut self, event: FindUserEvent) -> (action: FindUserAction)
        requires
            old(self).spec_accepts(event),
            event matches FindUserEvent::IndicesLoaded(Ok(Some(v)))
                ==> (v@.len() == 1 ==> is_char_boundary(encode_utf8(v@[0].payload.identity_id@), 2)),
        ensures
            final(self).password == old(self).password,
            match (old(self).stage, event) {
                (FindUserStage::AwaitIndices, FindUserEvent::IndicesLoaded(Ok(Some(v)))) => {
                    if v@.len() == 1 {
                        &&& final(self).stage is AwaitIdentity
                        &&& action matches FindUserAction::GetIdentity { partition_key, row_key }
                            && (partition_key@, row_key@) == spec_identity_keys(v@[0].payload.identity_id@)
                    } else {
                        final(self).stage is Finished && action matches FindUserAction::Finish(Err(IAMError::IdentityNotFound))
                    }
                },
                (FindUserStage::AwaitIndices, FindUserEvent::IndicesLoaded(Ok(None))) => {
                    final(self).stage is Finished && action matches FindUserAction::Finish(Err(IAMError::IdentityNotFound))
                },
                (FindUserStage::AwaitIndices, FindUserEvent::IndicesLoaded(Err(err))) => {
                    final(self).stage is Finished && (action matches FindUserAction::Finish(Err(IAMError::Internal(m)))
                        && m@ == err.spec_describe())
                },
                (FindUserStage::AwaitIdentity, FindUserEvent::IdentityLoaded(Ok(Some(e)))) => {
                    &&& final(self).stage is Finished
                    &&& match old(self).password {
                        None => action == FindUserAction::Finish(Ok(IdentityEntity::<UserIdentityData>(e))),
                        Some(p) => {
                            let verified = spec_argon2_verify_encoded(e.payload.password_hash@, encode_utf8(p@));
                            &&& match verified {
                                Ok(true) => action == FindUserAction::Finish(Ok(IdentityEntity::<UserIdentityData>(e))),
                                Ok(false) => action matches FindUserAction::Finish(Err(IAMError::PasswordNotMatching)),
                                Err(t) => action matches FindUserAction::Finish(Err(IAMError::Internal(m)))
                                    && m@ == spec_verify_failure_message(t),
                            }
                            &&& (exists|salt: Seq<u8>| spec_argon2_hash_encoded(encode_utf8(p@), salt)
                                == Ok::<Seq<char>, Seq<char>>(e.payload.password_hash@))
                                ==> action == FindUserAction::Finish(Ok(IdentityEntity::<UserIdentityData>(e)))
                        },
                    }
                },
                (FindUserStage::AwaitIdentity, FindUserEvent::IdentityLoaded(Ok(None))) => {
                    final(self).stage is Finished && action matches FindUserAction::Finish(Err(IAMError::IdentityNotFound))
                },
                (FindUserStage::AwaitIdentity, FindUserEvent::IdentityLoaded(Err(err))) => {
                    final(self).stage is Finished && (action matches FindUserAction::Finish(Err(IAMError::Internal(m)))
                        && m@ == err.spec_describe())
                },
                _ => false,
            },
    {
        let mut stage = FindUserStage::Finished;
        std::mem::swap(&mut stage, &mut self.stage);
        match (stage, event) {
            (FindUserStage::AwaitIndices, FindUserEvent::IndicesLoaded(Ok(Some(indices)))) => {
                if indices.len() == 1 {
                    let (partition_key, row_key) = UserIdentity::entity_keys(indices[0].payload.identity_id.as_str());
                    self.stage = FindUserStage::AwaitIdentity;
                    FindUserAction::GetIdentity { partition_key, row_key }
                } else {
                    FindUserAction::Finish(Err(IAMError::IdentityNotFound))
                }
            },
            (FindUserStage::AwaitIndices, FindUserEvent::IndicesLoaded(Ok(None))) => {
                FindUserAction::Finish(Err(IAMError::IdentityNotFound))
            },
            (FindUserStage::AwaitIndices, FindUserEvent::IndicesLoaded(Err(err))) => {
                FindUserAction::Finish(Err(IAMError::from_storage_error(&err)))
            },
            (FindUserStage::AwaitIdentity, FindUserEvent::IdentityLoaded(Ok(Some(e)))) => {
                let identity = UserIdentity::from_entity(e);
                match &self.password {
                    None => FindUserAction::Finish(Ok(identity)),
                    Some(p) => {
                        let verified = argon2_verify_encoded(
                            identity.data().password_hash.as_str(),
                            p.as_str().as_bytes(),
                        );
                        match password_check(verified) {
                            Ok(()) => FindUserAction::Finish(Ok(identity)),
                            Err(err) => FindUserAction::Finish(Err(err)),
                        }
                    },
                }
            },
            (FindUserStage::AwaitIdentity, FindUserEvent::IdentityLoaded(Ok(None))) => {
                FindUserAction::Finish(Err(IAMError::IdentityNotFound))
            },
            (FindUserStage::AwaitIdentity, FindUserEvent::IdentityLoaded(Err(err))) => {
                FindUserAction::Finish(Err(IAMError::from_storage_error(&err)))
            },
            (stage, _) => {
                proof {
                    assert(false);
                }
                self.stage = stage;
                FindUserAction::Finish(Err(IAMError::SessionRequired))
            },
        }
    }
}

/// The answer to a lookup of an identity by its keys.
pub open spec fn spec_identity_found<D>(loaded: Result<Option<TableEntity<D>>, StorageError>, found: Result<IdentityEntity<D>, IAMError>) -> bool {
    match loaded {
        Ok(Some(e)) => found == Ok::<IdentityEntity<D>, IAMError>(IdentityEntity(e)),
        Ok(None) => found matches Err(IAMError::IdentityNotFound),
        Err(err) => found matches Err(IAMError::Internal(m)) && m@ == err.spec_describe(),
    }
}

impl IdentityManager {
    /// Find a user identity by email or name: the raw text must be both a
    /// valid name and a valid email. The flow starts with the query of the
    /// name and email index entries; the password, if given, is checked.
    pub fn find_user_by_name_email(&self, raw_name_email: &str, password: Option<&str>) -> (r: Result<
        (FindUserFlow, FindUserAction),
        IAMError,
    >)
        ensures
            if !spec_is_valid_name(raw_name_email@) {
                r matches Err(IAMError::NameInvalid(m)) && m@ == spec_name_error_message(raw_name_email@)
            } else if !spec_validate_email(raw_name_email@) {
                r matches Err(IAMError::EmailInvalid(m)) && m@ == "Invalid email"@
            } else {
                r matches Ok((flow, action)) && {
                    &&& match password {
                        Some(p) => flow.password matches Some(q) && q@ == p@,
                        None => flow.password is None,
                    }
                    &&& flow.stage is AwaitIndices
                    &&& action matches FindUserAction::QueryIndices(q) && q@ == spec_filter_query(
                        spec_name_email_condition(spec_encode_safe_key(raw_name_email@), spec_encode_safe_key(raw_name_email@)))
                }
            },
    {
        let name = match EncodedName::from_raw(raw_name_email) {
            Ok(name) => name,
            Err(e) => return Err(e),
        };
        let email = match EncodedEmail::from_raw(raw_name_email) {
            Ok(email) => email,
            Err(e) => return Err(e),
        };
        let (np, nr) = IndexName::entity_keys(&name);
        let (ep, er) = IndexEmail::entity_keys(IdentityCategory::User, &email);
        let mut c: Vec<char> = Vec::new();
        push_str(&mut c, "((");
        push_key_condition(&mut c, np.as_str(), nr.as_str());
        push_str(&mut c, ") or (");
        push_key_condition(&mut c, ep.as_str(), er.as_str());
        push_str(&mut c, "))");
        let condition = string_from_chars(&c);
        proof {
            assert(condition@ =~= spec_name_email_condition(name@, email@));
        }
        let query = filter_query(condition.as_str());
        let flow = FindUserFlow {
            password: match password {
                Some(p) => Some(p.to_owned()),
                None => None,
            },
            stage: FindUserStage::AwaitIndices,
        };
        Ok((flow, FindUserAction::QueryIndices(query)))
    }

    /// The keys of the user identity with the given id.
    pub fn find_user_by_id(&self, id: &str) -> (r: (String, String))
        requires
            is_char_boundary(encode_utf8(id@), 2),
        ensures
            (r.0@, r.1@) == spec_identity_keys(id@),
    {
        UserIdentity::entity_keys(id)
    }

    /// The keys of the core identity with the given id.
    pub fn find_core_identity_by_id(&self, id: &str) -> (r: (String, String))
        requires
            is_char_boundary(encode_utf8(id@), 2),
        ensures
            (r.0@, r.1@) == spec_identity_keys(id@),
    {
        CoreIdentity::entity_keys(id)
    }

    /// The identity that a lookup by keys found.
    pub fn identity_found<D: IdentityData>(loaded: Result<Option<TableEntity<D>>, StorageError>) -> (r: Result<IdentityEntity<D>, IAMError>)
        ensures
            spec_identity_found(loaded, r),
    {
        match loaded {
            Ok(Some(e)) => Ok(IdentityEntity::from_entity(e)),
            Ok(None) => Err(IAMError::IdentityNotFound),
            Err(err) => Err(IAMError::from_storage_error(&err)),
        }
    }

    /// The keys of the name index entry that a new identity name would take.
    pub fn is_name_available(&self, name: &EncodedName) -> (r: (String, String))
        ensures
            (r.0@, r.1@) == spec_name_index_keys(name@),
    {
        IndexName::entity_keys(name)
    }

    /// The keys of the email index entry that an email would take.
    pub fn is_email_available(&self, cat: IdentityCategory, email: &EncodedEmail) -> (r: (String, String))
        ensures
            (r.0@, r.1@) == spec_email_index_keys(cat, email@),
    {
        IndexEmail::entity_keys(cat, email)
    }

    /// Whether the name or email can be used, from whether its index entry
    /// was found.
    pub fn availability(found: Result<bool, StorageError>) -> (r: Result<bool, IAMError>)
        ensures
            match found {
                Ok(f) => r == Ok::<bool, IAMError>(!f),
                Err(err) => r matches Err(IAMError::Internal(m)) && m@ == err.spec_describe(),
            },
    {
        match found {
            Ok(f) => Ok(!f),
            Err(err) => Err(IAMError::from_storage_error(&err)),
        }
    }
}

} // verus!
