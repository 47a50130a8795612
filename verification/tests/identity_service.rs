use shine_auth::auth::identity::identity_manager;
use shine_auth::auth::user::ignore_409;
use shine_auth::auth::identity::identitydb::{
    availability, interleave, validate_username, zero_padded, CreateIdentityAction, CreateIdentityEvent,
    CreateLoginAction, CreateLoginEvent, FindLoginAction, FindLoginEvent, IdentityDB,
};
use shine_auth::auth::identity::identityentry::{IdentityEntry, IdentityIndex};
use shine_auth::auth::identity::sessionentry::{SessionEntry, SessionIndexEntry};
use shine_auth::auth::identity::{IdentityConfig, IdentityError, SiteInfo};
use shine_auth::azure_utils::{StorageError, TableEntity};
use shine_auth::backoff::BackoffError;
use shine_auth::idsequence::IdSequenceError;

// base64 of the 16 bytes "0123456789abcdef"
const SECRET: &str = "MDEyMzQ1Njc4OWFiY2RlZg==";

fn db() -> IdentityDB {
    IdentityDB::new("pepper", SECRET, SECRET).unwrap()
}

fn config(secret: &str) -> IdentityConfig {
    IdentityConfig {
        password_pepper: "pepper".to_owned(),
        identity_id_secret: secret.to_owned(),
        storage_account: "account".to_owned(),
        storage_account_key: "key".to_owned(),
    }
}

fn site() -> SiteInfo {
    SiteInfo::new("10.0.0.1".to_owned(), "agent/1.0".to_owned())
}

fn conflict() -> StorageError {
    StorageError::UnexpectedStatus(409)
}

/// Runs a registration up to the insertion of the user.
fn register(db: &IdentityDB, name: &str, email: Option<&str>, password: &str) -> TableEntity<shine_auth::auth::identity::identityentry::Identity> {
    let (mut flow, action) = db.create(name, email, password).unwrap();
    assert!(matches!(action, CreateIdentityAction::CheckName { .. }));
    let mut action = flow.step(&db.user_id_secret, CreateIdentityEvent::NameChecked(Ok(false)));
    if email.is_some() {
        assert!(matches!(action, CreateIdentityAction::CheckEmail { .. }));
        action = flow.step(&db.user_id_secret, CreateIdentityEvent::EmailChecked(Ok(false)));
    }
    assert!(matches!(action, CreateIdentityAction::AllocateSequenceId));
    match flow.step(&db.user_id_secret, CreateIdentityEvent::SequenceIdAllocated(Ok(7))) {
        CreateIdentityAction::InsertUser(e) => e,
        other => panic!("unexpected {:?}", other),
    }
}

#[test]
fn identity_error_texts_and_statuses() {
    assert_eq!(IdentityError::NameTaken.to_display_string(), "Name already taken");
    assert_eq!(IdentityError::NameTaken.status_code(), 409);
    assert_eq!(IdentityError::DB("down".to_owned()).to_display_string(), "DB, down");
    assert_eq!(IdentityError::DB("down".to_owned()).status_code(), 500);
    assert_eq!(IdentityError::SessionKeyConflict.to_display_string(), "Login key already in use");
    assert_eq!(IdentityError::SessionKeyConflict.status_code(), 429);
    assert_eq!(IdentityError::PasswordNotMatching.status_code(), 403);
    assert_eq!(IdentityError::SessionExpired.status_code(), 401);
    assert!(matches!(IdentityError::IdentityIdConflict.into_backoff(), BackoffError::Transient(IdentityError::IdentityIdConflict)));
    assert!(matches!(IdentityError::NameTaken.into_backoff(), BackoffError::Permanent(IdentityError::NameTaken)));
    let e = IdentityError::from_storage_error(&StorageError::UnexpectedStatus(500));
    assert_eq!(e.to_display_string(), "DB, Unexpected HTTP status: 500");
    let e = IdentityError::from_id_sequence_error(&IdSequenceError::SequenceEnded);
    assert_eq!(e.to_display_string(), "DB, ID sequence out of values");
}

#[test]
fn usernames_padding_and_interleaving() {
    assert!(validate_username("abc123"));
    assert!(validate_username("árvíztűrő"));
    assert!(!validate_username("a b"));
    assert!(!validate_username("a-b"));
    assert_eq!(zero_padded(42), "0000000042");
    assert_eq!(zero_padded(12345678901), "12345678901");
    let mixed: String = interleave(&['1', '2'], &['a', 'b', 'c']).into_iter().collect();
    assert_eq!(mixed, "1a2bc");
    assert_eq!(availability(Ok(true)).unwrap(), false);
    assert_eq!(availability(Ok(false)).unwrap(), true);
    assert!(matches!(availability(Err(conflict())), Err(IdentityError::DB(_))));
}

#[test]
fn user_id_decodes_to_its_sequence() {
    let db = db();
    let (id, sequence, salt) = db.generate_user_id(42).unwrap();
    assert_eq!(sequence, "0000000042");
    assert_eq!(salt.len(), 32);
    assert!(salt.chars().all(|c| c.is_ascii_alphanumeric()));
    assert_eq!(db.decode_user_id(&id, &salt).unwrap(), "0000000042");
    // another salt gives another id of the same sequence
    let (id2, _, salt2) = db.generate_user_id(42).unwrap();
    assert_ne!((id.clone(), salt.clone()), (id2, salt2));
    match db.decode_user_id("!!", &salt) {
        Err(IdentityError::Encryption(m)) => assert_eq!(m, "invalid symbol at 0"),
        other => panic!("unexpected {:?}", other),
    }
    // an id of the other secret does not decode to its sequence
    let other = IdentityDB::new("pepper", "c2VjcmV0c2VjcmV0", "c2VjcmV0c2VjcmV0").unwrap();
    assert_ne!(other.decode_user_id(&id, &salt).ok(), Some("0000000042".to_owned()));
}

#[test]
fn login_key_decodes_to_its_sequence_and_letters() {
    let db = db();
    let salt = "abcdefghABCDEFGHabcdefghABCDEFGH";
    let key = db.genrate_login_key(salt, 12345).unwrap();
    let text = db.decode_login_key(&key, salt).unwrap();
    assert_eq!(text.len(), 32);
    let digits: String = text.chars().step_by(2).take(5).collect();
    assert_eq!(digits, "12345");
    assert!(text.chars().skip(10).all(|c| c.is_ascii_alphabetic()));
}

#[test]
fn secrets_must_be_base64() {
    match IdentityDB::new("pepper", "@@@@", SECRET) {
        Err(IdentityError::Encryption(m)) => assert_eq!(m, "invalid symbol at 0"),
        other => panic!("unexpected {:?}", other.map(|_| ())),
    }
    match identity_manager::IdentityManager::new(&config("abc")) {
        Err(IdentityError::Encryption(m)) => assert_eq!(m, "invalid length at 0"),
        other => panic!("unexpected {:?}", other.map(|_| ())),
    }
    let manager = identity_manager::IdentityManager::new(&config(SECRET)).unwrap();
    assert_eq!(manager.user_id_secret, b"0123456789abcdef".to_vec());
    assert_eq!(manager.password_pepper, "pepper");
}

#[test]
fn registration_is_refused_for_invalid_input() {
    let db = db();
    assert!(matches!(db.create("bad name", None, "pw"), Err(IdentityError::InvalidName)));
    assert!(matches!(db.create("alice", Some("nope"), "pw"), Err(IdentityError::InvalidEmail)));
    match db.create("alice", Some("alice@example.com"), "pw") {
        Ok((_, CreateIdentityAction::CheckName { partition_key, row_key })) => {
            assert_eq!(partition_key, "name_al");
            assert_eq!(row_key, "alice");
        },
        other => panic!("unexpected {:?}", other.map(|(_, a)| a)),
    }
}

#[test]
fn registration_stores_user_then_indices() {
    let db = db();
    let (mut flow, _) = db.create("alice", Some("alice@example.com"), "secret").unwrap();
    flow.step(&db.user_id_secret, CreateIdentityEvent::NameChecked(Ok(false)));
    match flow.step(&db.user_id_secret, CreateIdentityEvent::EmailChecked(Ok(true))) {
        CreateIdentityAction::Finish(Err(IdentityError::EmailTaken)) => {},
        other => panic!("unexpected {:?}", other),
    }

    let user = register(&db, "alice", Some("alice@example.com"), "secret");
    assert_eq!(user.payload.name, "alice");
    assert_eq!(user.payload.sequence_id, "0000000007");
    assert_eq!(db.decode_user_id(&user.row_key, &user.payload.salt).unwrap(), "0000000007");

    let (mut flow, _) = db.create("alice", Some("alice@example.com"), "secret").unwrap();
    flow.step(&db.user_id_secret, CreateIdentityEvent::NameChecked(Ok(false)));
    flow.step(&db.user_id_secret, CreateIdentityEvent::EmailChecked(Ok(false)));
    flow.step(&db.user_id_secret, CreateIdentityEvent::SequenceIdAllocated(Ok(7)));
    let name_index = match flow.step(&db.user_id_secret, CreateIdentityEvent::UserInserted(Ok(user.clone()))) {
        CreateIdentityAction::InsertNameIndex(n) => n,
        other => panic!("unexpected {:?}", other),
    };
    assert_eq!(name_index.partition_key, "name_al");
    assert_eq!(name_index.row_key, "alice");
    assert_eq!(name_index.payload.identity_id.user_id, user.row_key);
    let email_index = match flow.step(&db.user_id_secret, CreateIdentityEvent::NameIndexInserted(Ok(name_index))) {
        CreateIdentityAction::InsertEmailIndex(x) => x,
        other => panic!("unexpected {:?}", other),
    };
    assert_eq!(email_index.partition_key, "email_al");
    assert_eq!(email_index.row_key, "alice@example.com");
    match flow.step(&db.user_id_secret, CreateIdentityEvent::EmailIndexInserted(Ok(email_index))) {
        CreateIdentityAction::Finish(Ok(identity)) => assert_eq!(identity.user_id(), user.row_key),
        other => panic!("unexpected {:?}", other),
    }
}

#[test]
fn registration_rolls_back_when_an_index_is_taken() {
    let db = db();
    let user = register(&db, "bob", Some("bob@example.com"), "pw");
    let (mut flow, _) = db.create("bob", Some("bob@example.com"), "pw").unwrap();
    flow.step(&db.user_id_secret, CreateIdentityEvent::NameChecked(Ok(false)));
    flow.step(&db.user_id_secret, CreateIdentityEvent::EmailChecked(Ok(false)));
    flow.step(&db.user_id_secret, CreateIdentityEvent::SequenceIdAllocated(Ok(7)));
    let name_index = match flow.step(&db.user_id_secret, CreateIdentityEvent::UserInserted(Ok(user.clone()))) {
        CreateIdentityAction::InsertNameIndex(n) => n,
        other => panic!("unexpected {:?}", other),
    };
    match flow.step(&db.user_id_secret, CreateIdentityEvent::NameIndexInserted(Ok(name_index))) {
        CreateIdentityAction::InsertEmailIndex(_) => {},
        other => panic!("unexpected {:?}", other),
    }
    match flow.step(&db.user_id_secret, CreateIdentityEvent::EmailIndexInserted(Err(conflict()))) {
        CreateIdentityAction::Rollback { user: u, name_index: Some(n) } => {
            assert_eq!(u.row_key, user.row_key);
            assert_eq!(n.row_key, "bob");
        },
        other => panic!("unexpected {:?}", other),
    }
    match flow.step(&db.user_id_secret, CreateIdentityEvent::RolledBack) {
        CreateIdentityAction::Finish(Err(IdentityError::EmailTaken)) => {},
        other => panic!("unexpected {:?}", other),
    }
}

#[test]
fn a_failed_user_insertion_is_a_storage_failure_without_retries() {
    let db = db();
    let (mut flow, _) = db.create("carol", None, "pw").unwrap();
    flow.step(&db.user_id_secret, CreateIdentityEvent::NameChecked(Ok(false)));
    flow.step(&db.user_id_secret, CreateIdentityEvent::SequenceIdAllocated(Ok(3)));
    match flow.step(&db.user_id_secret, CreateIdentityEvent::UserInserted(Err(conflict()))) {
        CreateIdentityAction::Finish(Err(IdentityError::DB(m))) => assert_eq!(m, "Unexpected HTTP status: 409"),
        other => panic!("unexpected {:?}", other),
    }
}

#[test]
fn manager_retries_an_id_collision_three_times() {
    let manager = identity_manager::IdentityManager::new(&config(SECRET)).unwrap();
    let (mut flow, _) = manager.create_user("dave", None, "pw").unwrap();
    assert_eq!(flow.id_conflict_retries, Some(3));
    flow.step(&manager.user_id_secret, CreateIdentityEvent::NameChecked(Ok(false)));
    let mut action = flow.step(&manager.user_id_secret, CreateIdentityEvent::SequenceIdAllocated(Ok(9)));
    let mut ids = Vec::new();
    for _ in 0..3 {
        match action {
            CreateIdentityAction::InsertUser(e) => {
                assert_eq!(manager.decode_user_id(&e.row_key, &e.payload.salt).unwrap(), "0000000009");
                ids.push(e.row_key.clone());
            },
            other => panic!("unexpected {:?}", other),
        }
        action = flow.step(&manager.user_id_secret, CreateIdentityEvent::UserInserted(Err(conflict())));
    }
    assert!(matches!(action, CreateIdentityAction::InsertUser(_)));
    match flow.step(&manager.user_id_secret, CreateIdentityEvent::UserInserted(Err(conflict()))) {
        CreateIdentityAction::Finish(Err(IdentityError::IdentityIdConflict)) => {},
        other => panic!("unexpected {:?}", other),
    }
    ids.dedup();
    assert_eq!(ids.len(), 3);
}

#[test]
fn login_checks_the_registered_password() {
    let db = db();
    let user = register(&db, "erin", None, "correct horse");
    let index = TableEntity {
        partition_key: "name_er".to_owned(),
        row_key: "erin".to_owned(),
        etag: None,
        timestamp: None,
        payload: IdentityIndex { user_id: user.row_key.clone() },
    };
    for (password, ok) in [("correct horse", true), ("wrong", false)] {
        let (mut flow, action) = db.find_by_login("erin", Some(password));
        match action {
            FindLoginAction::QueryIndices(q) => assert!(q.starts_with("$filter=%28%28PartitionKey%20eq%20%27name%5Fer%27")),
            other => panic!("unexpected {:?}", other),
        }
        match flow.step(FindLoginEvent::IndicesLoaded(Ok(vec![index.clone()]))) {
            FindLoginAction::GetUser { row_key, .. } => assert_eq!(row_key, user.row_key),
            other => panic!("unexpected {:?}", other),
        }
        match flow.step(FindLoginEvent::UserLoaded(Ok(Some(user.clone())))) {
            FindLoginAction::Finish(Ok(identity)) => {
                assert!(ok);
                assert_eq!(identity.user_id(), user.row_key);
            },
            FindLoginAction::Finish(Err(IdentityError::PasswordNotMatching)) => assert!(!ok),
            other => panic!("unexpected {:?}", other),
        }
    }
    let (mut flow, _) = db.find_by_login("erin", None);
    match flow.step(FindLoginEvent::IndicesLoaded(Ok(vec![]))) {
        FindLoginAction::Finish(Err(IdentityError::IdentityNotFound)) => {},
        other => panic!("unexpected {:?}", other),
    }
}

#[test]
fn login_stores_an_encrypted_key_and_its_index() {
    let db = db();
    let user = register(&db, "frank", None, "pw");
    let identity = IdentityEntry::from_entry(user);
    let (mut flow, action) = db.create_login(&identity, site());
    assert!(matches!(action, CreateLoginAction::AllocateKeySequence));
    let login = match flow.step(&db, CreateLoginEvent::KeySequenceAllocated(Ok(5))) {
        CreateLoginAction::InsertLogin(e) => e,
        other => panic!("unexpected {:?}", other),
    };
    assert_eq!(login.partition_key, identity.user_id());
    let text = db.decode_login_key(&login.row_key, &identity.data().salt).unwrap();
    assert!(text.starts_with('5'));
    match flow.step(&db, CreateLoginEvent::LoginInserted(Err(conflict()))) {
        CreateLoginAction::AllocateKeySequence => {},
        other => panic!("unexpected {:?}", other),
    }
    flow.step(&db, CreateLoginEvent::KeySequenceAllocated(Ok(6)));
    let index = match flow.step(&db, CreateLoginEvent::LoginInserted(Ok(login.clone()))) {
        CreateLoginAction::InsertLoginIndex(x) => x,
        other => panic!("unexpected {:?}", other),
    };
    assert_eq!(index.row_key, login.row_key);
    assert_eq!(index.partition_key, format!("login_{}", &login.row_key[0..2]));
    match flow.step(&db, CreateLoginEvent::LoginIndexInserted(Err(conflict()))) {
        CreateLoginAction::Rollback(l) => assert_eq!(l.row_key, login.row_key),
        other => panic!("unexpected {:?}", other),
    }
    match flow.step(&db, CreateLoginEvent::RolledBack) {
        CreateLoginAction::Finish(Err(IdentityError::SessionKeyConflict)) => {},
        other => panic!("unexpected {:?}", other),
    }
}

#[test]
fn session_entry_key_roundtrip() {
    let session = SessionEntry::new("uid42".to_owned(), "Key-With-Dash".to_owned(), &site());
    assert_eq!(session.user_id(), "uid42");
    assert_eq!(session.entry().row_key, "session-Key-With-Dash");
    assert_eq!(session.key(), "Key-With-Dash");
    assert_eq!(session.data().remote, "10.0.0.1");
    assert!(session.data().issued > 0);
    let index = SessionIndexEntry::from_identity(&session);
    assert_eq!(index.entry().partition_key, "session_Ke");
    assert_eq!(index.key(), "Key-With-Dash");
    assert_eq!(index.user_id(), "uid42");
}

#[test]
fn manager_session_creation_retries_key_collisions() {
    let manager = identity_manager::IdentityManager::new(&config(SECRET)).unwrap();
    let db = db();
    let identity = IdentityEntry::from_entry(register(&db, "gina", None, "pw"));
    let (mut flow, action) = manager.create_session(&identity, site(), 1_600_000_000_000);
    assert_eq!(flow.retries, 2);
    let first = match action {
        identity_manager::CreateSessionAction::InsertSession(e) => e,
        other => panic!("unexpected {:?}", other),
    };
    assert_eq!(first.partition_key, identity.user_id());
    assert_eq!(first.payload.issued, 1_600_000_000_000);
    assert!(first.row_key.starts_with("session-"));
    assert_eq!(first.row_key.len(), "session-".len() + 43);
    let second = match flow.step(&manager, identity_manager::CreateSessionEvent::SessionInserted(Err(conflict())), 1_600_000_000_500) {
        identity_manager::CreateSessionAction::InsertSession(e) => e,
        other => panic!("unexpected {:?}", other),
    };
    assert_ne!(first.row_key, second.row_key);
    assert_eq!(second.payload.issued, 1_600_000_000_500);
    let index = match flow.step(&manager, identity_manager::CreateSessionEvent::SessionInserted(Ok(second.clone())), 1_600_000_000_500) {
        identity_manager::CreateSessionAction::InsertIndex(x) => x,
        other => panic!("unexpected {:?}", other),
    };
    assert_eq!(index.row_key, second.row_key["session-".len()..]);
    match flow.step(&manager, identity_manager::CreateSessionEvent::IndexInserted(Err(conflict())), 1_600_000_000_500) {
        identity_manager::CreateSessionAction::RemoveSession(e) => assert_eq!(e.row_key, second.row_key),
        other => panic!("unexpected {:?}", other),
    }
    match flow.step(&manager, identity_manager::CreateSessionEvent::SessionRemoved, 1_600_000_000_500) {
        identity_manager::CreateSessionAction::InsertSession(_) => {},
        other => panic!("unexpected {:?}", other),
    }
    match flow.step(&manager, identity_manager::CreateSessionEvent::SessionInserted(Err(conflict())), 1_600_000_000_500) {
        identity_manager::CreateSessionAction::Finish(Err(IdentityError::SessionKeyConflict)) => {},
        other => panic!("unexpected {:?}", other),
    }
}

#[test]
fn manager_finds_the_session_of_a_key() {
    let manager = identity_manager::IdentityManager::new(&config(SECRET)).unwrap();
    let db = db();
    let user = register(&db, "hank", None, "pw");
    let (mut flow, action) = manager.find_identity_by_session("abcdef");
    match action {
        identity_manager::FindSessionAction::QueryIndices(q) => {
            assert_eq!(q, "$filter=PartitionKey%20eq%20%27name%5Fab%27%20and%20RowKey%20eq%20%27abcdef%27")
        },
        other => panic!("unexpected {:?}", other),
    }
    let index = TableEntity {
        partition_key: "name_ab".to_owned(),
        row_key: "abcdef".to_owned(),
        etag: None,
        timestamp: None,
        payload: IdentityIndex { user_id: user.row_key.clone() },
    };
    flow.step(identity_manager::FindSessionEvent::IndicesLoaded(Ok(vec![index])));
    match flow.step(identity_manager::FindSessionEvent::UserLoaded(Ok(Some(user.clone())))) {
        identity_manager::FindSessionAction::GetSession { partition_key, row_key } => {
            assert_eq!(partition_key, user.row_key);
            assert_eq!(row_key, "session-abcdef");
        },
        other => panic!("unexpected {:?}", other),
    }
    match flow.step(identity_manager::FindSessionEvent::SessionLoaded(Ok(None))) {
        identity_manager::FindSessionAction::Finish(Err(IdentityError::IdentityNotFound)) => {},
        other => panic!("unexpected {:?}", other),
    }
}

#[test]
fn name_and_email_availability_keys() {
    let db = db();
    assert_eq!(db.is_user_name_available("alice"), ("name_al".to_owned(), "alice".to_owned()));
    assert_eq!(db.is_email_available("al@x.com"), ("email_al".to_owned(), "al@x.com".to_owned()));
    let manager = identity_manager::IdentityManager::new(&config(SECRET)).unwrap();
    assert_eq!(manager.is_user_name_available("bob"), ("name_bo".to_owned(), "bob".to_owned()));
    let key = manager.genrate_session_key();
    assert_eq!(key.len(), 43);
    assert!(key.chars().all(|c| c.is_ascii_alphanumeric() || c == '-' || c == '_'));
}

#[test]
fn table_creation_ignores_an_existing_table() {
    assert!(ignore_409(StorageError::UnexpectedStatus(409)).is_ok());
    assert!(matches!(ignore_409(StorageError::UnexpectedStatus(404)), Err(StorageError::UnexpectedStatus(404))));
    assert!(matches!(ignore_409(StorageError::Other("x".to_owned())), Err(StorageError::Other(_))));
}
