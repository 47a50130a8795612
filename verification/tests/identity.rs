use shine_auth::auth::iam::identity::manager::{
    random_identity_id, random_salt, CreateUserAction, CreateUserEvent, CreateUserStage, FindUserAction,
    FindUserEvent, IdentityManager, ID_LEN, MAX_SALT_LEN,
};
use shine_auth::auth::iam::identity::{
    EmailValidationError, EncodedEmail, EncodedName, IdentityCategory, IndexEmail, IndexName, IndexSequence,
    NameValidationError, PasswordValidationError, UserIdentity, ValidatedEmail, ValidatedName, ValidatedPassword,
};
use shine_auth::auth::iam::identity::index_identity::CoreIdentityIndexedData;
use shine_auth::auth::iam::{IAMConfig, IAMError};
use shine_auth::azure_utils::{StorageError, TableEntity};
use shine_auth::idsequence::IdSequenceError;

fn config() -> IAMConfig {
    IAMConfig {
        password_pepper: "pepper".to_owned(),
        storage_account: "account".to_owned(),
        storage_account_key: "key".to_owned(),
        graph_db_host: "graph".to_owned(),
        graph_db_port: 443,
        graph_db_user: "user".to_owned(),
        graph_db_password: "secret".to_owned(),
        ipdataco_key: "ip".to_owned(),
        session_time_to_live_h: 24,
        test_token: "tt".to_owned(),
    }
}

fn message(e: &IAMError) -> String {
    match e {
        IAMError::NameInvalid(m) | IAMError::EmailInvalid(m) | IAMError::Internal(m) => m.clone(),
        _ => String::new(),
    }
}

#[test]
fn encoded_name_validation() {
    let name = EncodedName::from_raw("alice").unwrap();
    assert_eq!(name.as_str(), "alice");
    assert_eq!(name.prefix(2), "al");
    assert_eq!(name.to_raw(), "alice");
    assert_eq!(message(&EncodedName::from_raw("al").unwrap_err()), "Too short, required min length: 3");
    assert_eq!(
        message(&EncodedName::from_raw("abcdefghijklmnopqrstuvwxyz01234").unwrap_err()),
        "Too long, required max length: 30"
    );
    assert_eq!(message(&EncodedName::from_raw("a b c").unwrap_err()), "Contains disallowed characters");
    assert!(EncodedName::from_raw("abcdefghijklmnopqrstuvwxyz0123").is_ok());
}

#[test]
fn encoded_email_validation() {
    let email = EncodedEmail::from_raw("bob@example.com").unwrap();
    assert_eq!(email.as_str(), "bob@example.com");
    assert_eq!(email.to_raw(), "bob@example.com");
    assert_eq!(email.prefix(2), "bo");
    assert_eq!(message(&EncodedEmail::from_raw("not an email").unwrap_err()), "Invalid email");
}

#[test]
fn validated_name_flags_allowed_characters() {
    match ValidatedName::from_raw("abc") {
        Err(NameValidationError::InvalidCharacter(v)) => assert_eq!(v, vec!['c', 'b', 'a']),
        other => panic!("unexpected {:?}", other),
    }
    assert!(matches!(ValidatedName::from_raw(""), Err(NameValidationError::TooShort)));
    assert!(matches!(ValidatedName::from_raw("   "), Ok(_)));
}

#[test]
fn validated_email_and_password() {
    assert!(matches!(ValidatedEmail::from_raw("x"), Err(EmailValidationError::InvalidFormat)));
    let e = ValidatedEmail::from_raw("a@b.com").unwrap();
    assert_eq!(e.as_str(), "a@b.com");
    assert!(matches!(ValidatedPassword::from_raw("ab"), Err(PasswordValidationError::TooShort)));
    assert!(matches!(
        ValidatedPassword::from_raw("0123456789012345678901234567890"),
        Err(PasswordValidationError::TooLong)
    ));
    assert_eq!(ValidatedPassword::from_raw("secret").unwrap().as_str(), "secret");
}

#[test]
fn generated_ids_and_salts_use_their_alphabets() {
    let id = random_identity_id();
    assert_eq!(id.len(), ID_LEN);
    assert!(id.chars().all(|c| c.is_ascii_lowercase() || c.is_ascii_digit()));
    let salt = random_salt();
    assert_eq!(salt.len(), MAX_SALT_LEN);
    assert!(salt.chars().all(|c| c.is_ascii_alphanumeric()));
    let mut chars: Vec<char> = salt.chars().collect();
    chars.sort();
    chars.dedup();
    assert_eq!(chars.len(), MAX_SALT_LEN);
}

#[test]
fn index_keys() {
    let name = EncodedName::from_raw("alice").unwrap();
    assert_eq!(IndexName::entity_keys(&name), ("x_name-al".to_owned(), "alice".to_owned()));
    let email = EncodedEmail::from_raw("bob@example.com").unwrap();
    assert_eq!(
        IndexEmail::entity_keys(IdentityCategory::User, &email),
        ("x_user_email-bo".to_owned(), "bob@example.com".to_owned())
    );
    assert_eq!(IndexSequence::entity_keys(1_000_042), ("x_seq-42".to_owned(), "1000042".to_owned()));
    assert_eq!(UserIdentity::entity_keys("abcdefgh"), ("id-ab".to_owned(), "abcdefgh".to_owned()));
    let user = UserIdentity::new("abcdefgh".to_owned(), 1_234_567, "salt".to_owned(), name, None, "hash".to_owned());
    let sequence_index = IndexSequence::from_identity(&user);
    assert_eq!(sequence_index.0.partition_key, "x_seq-67");
    assert_eq!(sequence_index.index_key(), "1234567");
    assert_eq!(IndexName::from_identity(&user).index_key(), "alice");
}

#[test]
fn create_user_refuses_invalid_input() {
    let manager = IdentityManager::new(&config());
    let err = manager.create_user("x", None, "pw").unwrap_err();
    assert_eq!(message(&err), "Too short, required min length: 3");
    let err = manager.create_user("alice", Some("nope"), "pw").unwrap_err();
    assert!(matches!(err, IAMError::EmailInvalid(_)));
}

/// Walks a registration with an email through all its steps and returns the
/// stored identity entity.
fn register(password: &str) -> UserIdentity {
    let manager = IdentityManager::new(&config());
    let (mut flow, action) = manager.create_user("alice", Some("alice@example.com"), password).unwrap();
    match action {
        CreateUserAction::CheckName { partition_key, row_key } => {
            assert_eq!(partition_key, "x_name-al");
            assert_eq!(row_key, "alice");
        }
        other => panic!("unexpected {:?}", other),
    }
    match flow.step(CreateUserEvent::NameChecked(Ok(false))) {
        CreateUserAction::CheckEmail { partition_key, row_key } => {
            assert_eq!(partition_key, "x_user_email-al");
            assert_eq!(row_key, "alice@example.com");
        }
        other => panic!("unexpected {:?}", other),
    }
    assert!(matches!(flow.step(CreateUserEvent::EmailChecked(Ok(false))), CreateUserAction::AllocateSequenceId));
    let identity = match flow.step(CreateUserEvent::SequenceIdAllocated(Ok(1_000_007))) {
        CreateUserAction::InsertIdentity(e) => e,
        other => panic!("unexpected {:?}", other),
    };
    let core = &identity.payload.core;
    assert_eq!(core.sequence_id, 1_000_007);
    assert_eq!(core.name.as_str(), "alice");
    assert_eq!(core.email.as_ref().unwrap().as_str(), "alice@example.com");
    assert_eq!(identity.partition_key, format!("id-{}", &core.id[0..2]));
    assert_eq!(identity.row_key, core.id);
    assert_ne!(identity.payload.password_hash, password);
    assert!(identity.payload.password_hash.starts_with("$argon2"));
    let stored = identity;
    let sequence_index = match flow.step(CreateUserEvent::IdentityInserted(Ok(stored_copy(&stored)))) {
        CreateUserAction::InsertSequenceIndex(s) => s,
        other => panic!("unexpected {:?}", other),
    };
    assert_eq!(sequence_index.partition_key, "x_seq-7");
    assert_eq!(sequence_index.row_key, "1000007");
    assert_eq!(sequence_index.payload.indexed_id.identity_id, stored.row_key);
    let name_index = match flow.step(CreateUserEvent::SequenceIndexInserted(Ok(sequence_index))) {
        CreateUserAction::InsertNameIndex(n) => n,
        other => panic!("unexpected {:?}", other),
    };
    assert_eq!(name_index.partition_key, "x_name-al");
    let email_index = match flow.step(CreateUserEvent::NameIndexInserted(Ok(name_index))) {
        CreateUserAction::InsertEmailIndex(x) => x,
        other => panic!("unexpected {:?}", other),
    };
    assert_eq!(email_index.partition_key, "x_user_email-al");
    match flow.step(CreateUserEvent::EmailIndexInserted(Ok(email_index))) {
        CreateUserAction::Finish(Ok(identity)) => identity,
        other => panic!("unexpected {:?}", other),
    }
}

fn stored_copy(e: &TableEntity<shine_auth::auth::iam::identity::UserIdentityData>) -> TableEntity<shine_auth::auth::iam::identity::UserIdentityData> {
    let core = &e.payload.core;
    TableEntity {
        partition_key: e.partition_key.clone(),
        row_key: e.row_key.clone(),
        etag: Some("etag".to_owned()),
        timestamp: Some(1),
        payload: shine_auth::auth::iam::identity::UserIdentityData {
            core: shine_auth::auth::iam::identity::CoreIdentityData {
                id: core.id.clone(),
                sequence_id: core.sequence_id,
                salt: core.salt.clone(),
                category: core.category,
                name: core.name.clone(),
                email: core.email.clone(),
                email_validated: core.email_validated,
            },
            password_hash: e.payload.password_hash.clone(),
        },
    }
}

#[test]
fn create_user_stores_identity_and_indices() {
    let identity = register("password1");
    assert_eq!(identity.0.etag.as_deref(), Some("etag"));
    assert_eq!(identity.id().len(), ID_LEN);
}

#[test]
fn create_user_reports_taken_name_and_email() {
    let manager = IdentityManager::new(&config());
    let (mut flow, _) = manager.create_user("alice", None, "pw").unwrap();
    assert!(matches!(flow.step(CreateUserEvent::NameChecked(Ok(true))), CreateUserAction::Finish(Err(IAMError::NameTaken))));
    let (mut flow, _) = manager.create_user("alice", Some("a@b.com"), "pw").unwrap();
    flow.step(CreateUserEvent::NameChecked(Ok(false)));
    assert!(matches!(flow.step(CreateUserEvent::EmailChecked(Ok(true))), CreateUserAction::Finish(Err(IAMError::EmailTaken))));
}

#[test]
fn create_user_without_email_skips_its_check() {
    let manager = IdentityManager::new(&config());
    let (mut flow, _) = manager.create_user("alice", None, "pw").unwrap();
    assert!(matches!(flow.step(CreateUserEvent::NameChecked(Ok(false))), CreateUserAction::AllocateSequenceId));
    let err = flow.step(CreateUserEvent::SequenceIdAllocated(Err(IdSequenceError::SequenceEnded)));
    match err {
        CreateUserAction::Finish(Err(IAMError::Internal(m))) => assert_eq!(m, "ID sequence out of values"),
        other => panic!("unexpected {:?}", other),
    }
}

#[test]
fn create_user_retries_identity_id_conflicts() {
    let manager = IdentityManager::new(&config());
    let (mut flow, _) = manager.create_user("alice", None, "pw").unwrap();
    flow.step(CreateUserEvent::NameChecked(Ok(false)));
    flow.step(CreateUserEvent::SequenceIdAllocated(Ok(5)));
    let mut delays = Vec::new();
    for _ in 0..3 {
        match flow.step(CreateUserEvent::IdentityInserted(Err(StorageError::UnexpectedStatus(409)))) {
            CreateUserAction::Wait(d) => delays.push(d),
            other => panic!("unexpected {:?}", other),
        }
        assert!(matches!(flow.step(CreateUserEvent::Waited), CreateUserAction::InsertIdentity(_)));
    }
    assert_eq!(delays, vec![10, 20, 40]);
    assert!(matches!(
        flow.step(CreateUserEvent::IdentityInserted(Err(StorageError::UnexpectedStatus(409)))),
        CreateUserAction::Finish(Err(IAMError::IdentityIdConflict))
    ));
}

#[test]
fn create_user_rolls_back_on_taken_email_index() {
    let manager = IdentityManager::new(&config());
    let (mut flow, _) = manager.create_user("alice", Some("a@b.com"), "pw").unwrap();
    flow.step(CreateUserEvent::NameChecked(Ok(false)));
    flow.step(CreateUserEvent::EmailChecked(Ok(false)));
    let e = match flow.step(CreateUserEvent::SequenceIdAllocated(Ok(12))) {
        CreateUserAction::InsertIdentity(e) => e,
        other => panic!("unexpected {:?}", other),
    };
    let s = match flow.step(CreateUserEvent::IdentityInserted(Ok(e))) {
        CreateUserAction::InsertSequenceIndex(s) => s,
        other => panic!("unexpected {:?}", other),
    };
    let n = match flow.step(CreateUserEvent::SequenceIndexInserted(Ok(s))) {
        CreateUserAction::InsertNameIndex(n) => n,
        other => panic!("unexpected {:?}", other),
    };
    flow.step(CreateUserEvent::NameIndexInserted(Ok(n)));
    match flow.step(CreateUserEvent::EmailIndexInserted(Err(StorageError::UnexpectedStatus(409)))) {
        CreateUserAction::Rollback { identity, sequence_index, name_index } => {
            assert_eq!(identity.payload.core.sequence_id, 12);
            assert_eq!(sequence_index.unwrap().partition_key, "x_seq-12");
            assert_eq!(name_index.unwrap().row_key, "alice");
        }
        other => panic!("unexpected {:?}", other),
    }
    assert!(matches!(flow.stage, CreateUserStage::AwaitRollback { .. }));
    assert!(matches!(flow.step(CreateUserEvent::RolledBack), CreateUserAction::Finish(Err(IAMError::EmailTaken))));
}

#[test]
fn create_user_rolls_back_identity_on_failed_sequence_index() {
    let manager = IdentityManager::new(&config());
    let (mut flow, _) = manager.create_user("alice", None, "pw").unwrap();
    flow.step(CreateUserEvent::NameChecked(Ok(false)));
    let e = match flow.step(CreateUserEvent::SequenceIdAllocated(Ok(3))) {
        CreateUserAction::InsertIdentity(e) => e,
        other => panic!("unexpected {:?}", other),
    };
    flow.step(CreateUserEvent::IdentityInserted(Ok(e)));
    match flow.step(CreateUserEvent::SequenceIndexInserted(Err(StorageError::Other("down".to_owned())))) {
        CreateUserAction::Rollback { sequence_index: None, name_index: None, .. } => {}
        other => panic!("unexpected {:?}", other),
    }
    match flow.step(CreateUserEvent::RolledBack) {
        CreateUserAction::Finish(Err(IAMError::Internal(m))) => assert_eq!(m, "down"),
        other => panic!("unexpected {:?}", other),
    }
}

fn index_page(id: &str) -> Vec<TableEntity<CoreIdentityIndexedData>> {
    vec![TableEntity {
        partition_key: "x_name-al".to_owned(),
        row_key: "alice".to_owned(),
        etag: None,
        timestamp: None,
        payload: CoreIdentityIndexedData { identity_id: id.to_owned() },
    }]
}

#[test]
fn find_user_checks_the_password_hash() {
    let identity = register("password1");
    let manager = IdentityManager::new(&config());
    let raw = "alice@example.com";
    assert!(manager.find_user_by_name_email(raw, None).is_err());

    let name_and_email = "a@b";
    match manager.find_user_by_name_email(name_and_email, Some("password1")) {
        Err(IAMError::NameInvalid(_)) => {}
        other => panic!("unexpected {:?}", other.map(|_| ())),
    }

    let id = identity.id().to_owned();
    for (password, expect_ok) in [("password1", true), ("wrong", false)] {
        let mut flow = shine_auth::auth::iam::identity::manager::FindUserFlow {
            password: Some(password.to_owned()),
            stage: shine_auth::auth::iam::identity::manager::FindUserStage::AwaitIndices,
        };
        match flow.step(FindUserEvent::IndicesLoaded(Ok(Some(index_page(&id))))) {
            FindUserAction::GetIdentity { partition_key, row_key } => {
                assert_eq!(partition_key, format!("id-{}", &id[0..2]));
                assert_eq!(row_key, id);
            }
            other => panic!("unexpected {:?}", other),
        }
        let result = flow.step(FindUserEvent::IdentityLoaded(Ok(Some(stored_copy(&identity.0)))));
        match (result, expect_ok) {
            (FindUserAction::Finish(Ok(found)), true) => assert_eq!(found.id(), id),
            (FindUserAction::Finish(Err(IAMError::PasswordNotMatching)), false) => {}
            (other, _) => panic!("unexpected {:?}", other),
        }
    }
}

#[test]
fn find_user_needs_a_single_index_entry() {
    let mut flow = shine_auth::auth::iam::identity::manager::FindUserFlow {
        password: None,
        stage: shine_auth::auth::iam::identity::manager::FindUserStage::AwaitIndices,
    };
    let mut two = index_page("abcdefgh");
    two.extend(index_page("ijklmnop"));
    assert!(matches!(
        flow.step(FindUserEvent::IndicesLoaded(Ok(Some(two)))),
        FindUserAction::Finish(Err(IAMError::IdentityNotFound))
    ));
    let mut flow = shine_auth::auth::iam::identity::manager::FindUserFlow {
        password: None,
        stage: shine_auth::auth::iam::identity::manager::FindUserStage::AwaitIndices,
    };
    assert!(matches!(
        flow.step(FindUserEvent::IndicesLoaded(Ok(None))),
        FindUserAction::Finish(Err(IAMError::IdentityNotFound))
    ));
}

#[test]
fn name_availability() {
    assert_eq!(IdentityManager::availability(Ok(false)).unwrap(), true);
    assert_eq!(IdentityManager::availability(Ok(true)).unwrap(), false);
    assert!(matches!(
        IdentityManager::availability(Err(StorageError::Other("x".to_owned()))),
        Err(IAMError::Internal(_))
    ));
}
