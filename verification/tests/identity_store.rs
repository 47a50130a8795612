use shine_auth::auth::identity::manager::identity::{
    CreateUserAction, CreateUserEvent, FindUserAction, FindUserEvent,
};
use shine_auth::auth::identity::manager::session::{
    CreateSessionAction, CreateSessionEvent, FindSessionAction, FindSessionEvent, InvalidateAllAction,
    InvalidateAllEvent, InvalidateByKeyAction, InvalidateByKeyEvent, InvalidateSessionAction, InvalidateSessionEvent,
    RefreshSessionAction, RefreshSessionEvent,
};
use shine_auth::auth::identity::manager::{
    EmailIndex, IdentityIndexedId, IdentityManager, NameIndex, Session, SessionData, SessionIndex, UserIdentity,
    UserIdentityData,
};
use shine_auth::auth::identity::{IdentityConfig, IdentityError, SiteInfo};
use shine_auth::auth::iam::identity::{EncodedEmail, EncodedName};
use shine_auth::auth::iam::identity::email_index::EmailIndex as IamEmailIndex;
use shine_auth::auth::iam::identity::name_index::NameIndex as IamNameIndex;
use shine_auth::auth::iam::identity::sequence_index::SequenceIndex as IamSequenceIndex;
use shine_auth::auth::iam::identity::IdentityCategory as IamCategory;
use shine_auth::azure_utils::{StorageError, TableEntity};
use shine_auth::backoff::Exponential;

const SECRET: &str = "MDEyMzQ1Njc4OWFiY2RlZg==";

fn manager() -> IdentityManager {
    IdentityManager::new(&IdentityConfig {
        password_pepper: "pepper".to_owned(),
        identity_id_secret: SECRET.to_owned(),
        storage_account: "account".to_owned(),
        storage_account_key: "key".to_owned(),
    })
    .unwrap()
}

fn policy() -> Exponential {
    Exponential::new(3, 10)
}

fn site() -> SiteInfo {
    SiteInfo::new("10.0.0.1".to_owned(), "agent/1.0".to_owned())
}

fn conflict() -> StorageError {
    StorageError::UnexpectedStatus(409)
}

fn inserted_identity(name: &str, email: Option<&str>, password: &str) -> TableEntity<UserIdentityData> {
    let m = manager();
    let (mut flow, _) = m.create_user(name, email, password, policy()).unwrap();
    flow.step(CreateUserEvent::NameChecked(Ok(false)));
    if email.is_some() {
        flow.step(CreateUserEvent::EmailChecked(Ok(false)));
    }
    match flow.step(CreateUserEvent::SequenceIdAllocated(Ok(11))) {
        CreateUserAction::InsertIdentity(e) => e,
        other => panic!("unexpected {:?}", other),
    }
}

/// When the test sessions were opened, in milliseconds since the epoch.
const OPENED: i64 = 1_600_000_000_000;
/// When the test sessions are looked at: one second later.
const NOW: i64 = OPENED + 1_000;

fn session_entity(user_id: &str, key: &str, remote: &str, disabled: Option<i64>) -> TableEntity<SessionData> {
    let s = SiteInfo::new(remote.to_owned(), "agent/1.0".to_owned());
    let mut e = Session::new_at(user_id.to_owned(), key.to_owned(), &s, OPENED).into_entity();
    e.payload.disabled = disabled;
    e
}

#[test]
fn store_identity_keys() {
    let identity = UserIdentity::new(
        "abcdefgh".to_owned(),
        5,
        "salt".to_owned(),
        "alice".to_owned(),
        Some("alice@example.com".to_owned()),
        "hash".to_owned(),
    );
    assert_eq!(identity.0.partition_key, "ab");
    assert_eq!(identity.0.row_key, "abcdefgh");
    assert_eq!(identity.id(), "abcdefgh");
    assert_eq!(identity.name(), "alice");
    assert!(!identity.data().email_validated);
    let name_index = NameIndex::from_identity(&identity);
    assert_eq!(name_index.0.partition_key, "name-al");
    assert_eq!(name_index.index_key(), "alice");
    assert_eq!(name_index.id(), "abcdefgh");
    let email_index = EmailIndex::from_identity(&identity).unwrap();
    assert_eq!(email_index.0.partition_key, "email-al");
    assert_eq!(email_index.index_key(), "alice@example.com");
    assert_eq!(email_index.id(), "abcdefgh");
}

#[test]
fn store_registration_validates_and_checks_the_name() {
    let m = manager();
    assert!(matches!(m.create_user("bad name", None, "pw", policy()), Err(IdentityError::InvalidName)));
    assert!(matches!(m.create_user("alice", Some("x"), "pw", policy()), Err(IdentityError::InvalidEmail)));
    match m.create_user("alice", None, "pw", policy()) {
        Ok((_, CreateUserAction::CheckName { partition_key, row_key })) => {
            assert_eq!(partition_key, "name-al");
            assert_eq!(row_key, "alice");
        },
        other => panic!("unexpected {:?}", other.map(|(_, a)| a)),
    }
    assert_eq!(IdentityManager::availability(Ok(false)).unwrap(), true);
    assert_eq!(m.is_email_available("bo@x.y"), ("email-bo".to_owned(), "bo@x.y".to_owned()));
}

#[test]
fn store_registration_retries_an_id_collision_after_a_wait() {
    let m = manager();
    let (mut flow, _) = m.create_user("bob", Some("bob@example.com"), "pw", policy()).unwrap();
    match flow.step(CreateUserEvent::NameChecked(Ok(false))) {
        CreateUserAction::CheckEmail { partition_key, row_key } => {
            assert_eq!(partition_key, "email-bo");
            assert_eq!(row_key, "bob@example.com");
        },
        other => panic!("unexpected {:?}", other),
    }
    flow.step(CreateUserEvent::EmailChecked(Ok(false)));
    let first = match flow.step(CreateUserEvent::SequenceIdAllocated(Ok(11))) {
        CreateUserAction::InsertIdentity(e) => e,
        other => panic!("unexpected {:?}", other),
    };
    assert_eq!(first.payload.core.sequence_id, 11);
    assert_eq!(first.payload.core.id.len(), 8);
    assert_eq!(first.payload.core.salt.len(), 32);
    let mut delays = Vec::new();
    let mut action = flow.step(CreateUserEvent::IdentityInserted(Err(conflict())));
    loop {
        match action {
            CreateUserAction::Wait(d) => delays.push(d),
            CreateUserAction::Finish(Err(IdentityError::IdentityIdConflict)) => break,
            other => panic!("unexpected {:?}", other),
        }
        match flow.step(CreateUserEvent::Waited) {
            CreateUserAction::InsertIdentity(e) => assert_eq!(e.payload.core.sequence_id, 11),
            other => panic!("unexpected {:?}", other),
        }
        action = flow.step(CreateUserEvent::IdentityInserted(Err(conflict())));
    }
    assert_eq!(delays, vec![10, 20, 40]);
}

#[test]
fn store_registration_rolls_back_on_a_taken_email() {
    let m = manager();
    let (mut flow, _) = m.create_user("carl", Some("carl@example.com"), "pw", policy()).unwrap();
    flow.step(CreateUserEvent::NameChecked(Ok(false)));
    flow.step(CreateUserEvent::EmailChecked(Ok(false)));
    let e = match flow.step(CreateUserEvent::SequenceIdAllocated(Ok(1))) {
        CreateUserAction::InsertIdentity(e) => e,
        other => panic!("unexpected {:?}", other),
    };
    let n = match flow.step(CreateUserEvent::IdentityInserted(Ok(e))) {
        CreateUserAction::InsertNameIndex(n) => n,
        other => panic!("unexpected {:?}", other),
    };
    assert_eq!(n.partition_key, "name-ca");
    match flow.step(CreateUserEvent::NameIndexInserted(Ok(n))) {
        CreateUserAction::InsertEmailIndex(x) => assert_eq!(x.row_key, "carl@example.com"),
        other => panic!("unexpected {:?}", other),
    }
    match flow.step(CreateUserEvent::EmailIndexInserted(Err(StorageError::UnexpectedStatus(412)))) {
        CreateUserAction::Rollback { name_index: Some(n), .. } => assert_eq!(n.row_key, "carl"),
        other => panic!("unexpected {:?}", other),
    }
    match flow.step(CreateUserEvent::RolledBack) {
        CreateUserAction::Finish(Err(IdentityError::EmailTaken)) => {},
        other => panic!("unexpected {:?}", other),
    }
}

#[test]
fn store_lookup_verifies_the_registered_password() {
    let m = manager();
    let e = inserted_identity("dora", None, "s3cret");
    let (mut flow, action) = m.find_user_by_name_email("dora", Some("s3cret"));
    match action {
        FindUserAction::QueryIndices(q) => assert!(q.starts_with("$filter=%28%28PartitionKey%20eq%20%27name%2Ddo%27")),
        other => panic!("unexpected {:?}", other),
    }
    let index = TableEntity {
        partition_key: "name-do".to_owned(),
        row_key: "dora".to_owned(),
        etag: None,
        timestamp: None,
        payload: IdentityIndexedId { identity_id: e.payload.core.id.clone() },
    };
    match flow.step(FindUserEvent::IndicesLoaded(Ok(vec![index]))) {
        FindUserAction::GetIdentity { partition_key, row_key } => {
            assert_eq!(partition_key, e.partition_key);
            assert_eq!(row_key, e.row_key);
        },
        other => panic!("unexpected {:?}", other),
    }
    let hash = e.payload.password_hash.clone();
    let id = e.payload.core.id.clone();
    match flow.step(FindUserEvent::IdentityLoaded(Ok(Some(e)))) {
        FindUserAction::Finish(Ok(identity)) => assert_eq!(identity.id(), id),
        other => panic!("unexpected {:?}", other),
    }
    let (mut flow, _) = m.find_user_by_index("q", Some("wrong"));
    flow.step(FindUserEvent::IndicesLoaded(Ok(vec![TableEntity {
        partition_key: "p".to_owned(),
        row_key: "r".to_owned(),
        etag: None,
        timestamp: None,
        payload: IdentityIndexedId { identity_id: id.clone() },
    }])));
    let again = UserIdentity::new(id.clone(), 11, "x".to_owned(), "dora".to_owned(), None, hash);
    match flow.step(FindUserEvent::IdentityLoaded(Ok(Some(again.into_entity())))) {
        FindUserAction::Finish(Err(IdentityError::PasswordNotMatching)) => {},
        other => panic!("unexpected {:?}", other),
    }
}

#[test]
fn store_session_creation_removes_a_session_without_index() {
    let m = manager();
    let identity = UserIdentity::new("abcdefgh".to_owned(), 1, "s".to_owned(), "eve".to_owned(), None, "h".to_owned());
    let (mut flow, action) = m.create_session(&identity, site(), policy(), NOW);
    let session = match action {
        CreateSessionAction::InsertSession(e) => e,
        other => panic!("unexpected {:?}", other),
    };
    assert_eq!(session.partition_key, "abcdefgh");
    assert!(session.row_key.starts_with("session-"));
    assert_eq!(session.payload.refresh_count, 0);
    assert_eq!(session.payload.issued, NOW);
    assert_eq!(session.payload.refreshed, NOW);
    let key = session.row_key["session-".len()..].to_owned();
    let index = match flow.step(&m, CreateSessionEvent::SessionInserted(Ok(session.clone()))) {
        CreateSessionAction::InsertIndex(x) => x,
        other => panic!("unexpected {:?}", other),
    };
    assert_eq!(index.partition_key, format!("session-{}", &key[0..2]));
    assert_eq!(index.row_key, key);
    assert_eq!(index.payload.indexed_id.identity_id, "abcdefgh");
    match flow.step(&m, CreateSessionEvent::IndexInserted(Err(conflict()))) {
        CreateSessionAction::RemoveSession(e) => assert_eq!(e.row_key, session.row_key),
        other => panic!("unexpected {:?}", other),
    }
    match flow.step(&m, CreateSessionEvent::SessionRemoved) {
        CreateSessionAction::Wait(10) => {},
        other => panic!("unexpected {:?}", other),
    }
    match flow.step(&m, CreateSessionEvent::Waited(NOW + 10)) {
        CreateSessionAction::InsertSession(e) => {
            assert_ne!(e.row_key, session.row_key);
            assert_eq!(e.payload.issued, NOW + 10);
        },
        other => panic!("unexpected {:?}", other),
    }
    match flow.step(&m, CreateSessionEvent::SessionInserted(Err(StorageError::UnexpectedStatus(500)))) {
        CreateSessionAction::Finish(Err(IdentityError::DB(_))) => {},
        other => panic!("unexpected {:?}", other),
    }
}

#[test]
fn store_finds_the_user_of_a_session() {
    let m = manager();
    let (mut flow, action) = m.find_user_by_session("KeyKey");
    match action {
        FindSessionAction::QueryIndices(q) => {
            assert_eq!(q, "$filter=PartitionKey%20eq%20%27session%2DKe%27%20and%20RowKey%20eq%20%27KeyKey%27")
        },
        other => panic!("unexpected {:?}", other),
    }
    let index = TableEntity {
        partition_key: "session-Ke".to_owned(),
        row_key: "KeyKey".to_owned(),
        etag: None,
        timestamp: None,
        payload: IdentityIndexedId { identity_id: "abcdefgh".to_owned() },
    };
    match flow.step(FindSessionEvent::IndicesLoaded(Ok(vec![index]))) {
        FindSessionAction::GetIdentity { partition_key, .. } => assert_eq!(partition_key, "ab"),
        other => panic!("unexpected {:?}", other),
    }
    let identity = UserIdentity::new("abcdefgh".to_owned(), 1, "s".to_owned(), "eve".to_owned(), None, "h".to_owned());
    match flow.step(FindSessionEvent::IdentityLoaded(Ok(Some(identity.into_entity())))) {
        FindSessionAction::GetSession { partition_key, row_key } => {
            assert_eq!(partition_key, "abcdefgh");
            assert_eq!(row_key, "session-KeyKey");
        },
        other => panic!("unexpected {:?}", other),
    }
    let s = session_entity("abcdefgh", "KeyKey", "10.0.0.1", None);
    match flow.step(FindSessionEvent::SessionLoaded(Ok(Some(s)))) {
        FindSessionAction::Finish(Ok((identity, session))) => {
            assert_eq!(identity.id(), "abcdefgh");
            assert_eq!(session.key(), "KeyKey");
        },
        other => panic!("unexpected {:?}", other),
    }
    let (mut flow, _) = m.find_user_by_session("KeyKey");
    match flow.step(FindSessionEvent::IndicesLoaded(Ok(vec![]))) {
        FindSessionAction::Finish(Err(IdentityError::IdentityNotFound)) => {},
        other => panic!("unexpected {:?}", other),
    }
}

fn found(remote: &str, disabled: Option<i64>) -> Result<(UserIdentity, Session), IdentityError> {
    let identity = UserIdentity::new("abcdefgh".to_owned(), 1, "s".to_owned(), "eve".to_owned(), None, "h".to_owned());
    Ok((identity, Session::from_entity(session_entity("abcdefgh", "KeyKey", remote, disabled))))
}

#[test]
fn store_refresh_counts_a_refresh_from_the_same_site() {
    let m = manager();
    let (mut flow, action) = m.refresh_session("KeyKey", site(), policy());
    assert!(matches!(action, RefreshSessionAction::FindSession(ref k) if k == "KeyKey"));
    let updated = match flow.step(RefreshSessionEvent::Found(found("10.0.0.1", None), NOW)) {
        RefreshSessionAction::UpdateSession(e) => e,
        other => panic!("unexpected {:?}", other),
    };
    assert_eq!(updated.payload.refresh_count, 1);
    assert_eq!(updated.payload.refreshed, NOW);
    assert_eq!(updated.payload.issued, OPENED);
    assert!(updated.payload.disabled.is_none());
    match flow.step(RefreshSessionEvent::Updated(Err(StorageError::UnexpectedStatus(412)))) {
        RefreshSessionAction::Wait(10) => {},
        other => panic!("unexpected {:?}", other),
    }
    assert!(matches!(flow.step(RefreshSessionEvent::Waited), RefreshSessionAction::FindSession(_)));
    let updated = match flow.step(RefreshSessionEvent::Found(found("10.0.0.1", None), NOW)) {
        RefreshSessionAction::UpdateSession(e) => e,
        other => panic!("unexpected {:?}", other),
    };
    match flow.step(RefreshSessionEvent::Updated(Ok(updated))) {
        RefreshSessionAction::Finish(Ok((_, session))) => assert_eq!(session.data().refresh_count, 1),
        other => panic!("unexpected {:?}", other),
    }
}

#[test]
fn store_refresh_expires_a_disabled_or_moved_session() {
    let m = manager();
    let (mut flow, _) = m.refresh_session("KeyKey", site(), policy());
    match flow.step(RefreshSessionEvent::Found(found("10.0.0.1", Some(5)), NOW)) {
        RefreshSessionAction::Finish(Err(IdentityError::SessionExpired)) => {},
        other => panic!("unexpected {:?}", other),
    }
    let (mut flow, _) = m.refresh_session("KeyKey", site(), policy());
    let disabled = match flow.step(RefreshSessionEvent::Found(found("192.168.0.9", None), NOW)) {
        RefreshSessionAction::UpdateSession(e) => e,
        other => panic!("unexpected {:?}", other),
    };
    assert_eq!(disabled.payload.disabled, Some(NOW));
    assert_eq!(disabled.payload.refreshed, OPENED);
    assert_eq!(disabled.payload.refresh_count, 0);
    match flow.step(RefreshSessionEvent::Updated(Ok(disabled))) {
        RefreshSessionAction::Finish(Err(IdentityError::SessionExpired)) => {},
        other => panic!("unexpected {:?}", other),
    }
    let (mut flow, _) = m.refresh_session("KeyKey", site(), policy());
    match flow.step(RefreshSessionEvent::Found(Err(IdentityError::IdentityNotFound), NOW)) {
        RefreshSessionAction::Finish(Err(IdentityError::IdentityNotFound)) => {},
        other => panic!("unexpected {:?}", other),
    }
}

#[test]
fn store_invalidate_session_disables_it() {
    let m = manager();
    let (mut flow, _) = m.invalidate_session("KeyKey", policy());
    match flow.step(InvalidateSessionEvent::Found(found("10.0.0.1", None), NOW)) {
        InvalidateSessionAction::UpdateSession(e) => assert_eq!(e.payload.disabled, Some(NOW)),
        other => panic!("unexpected {:?}", other),
    }
    match flow.step(InvalidateSessionEvent::Updated(Ok(session_entity("abcdefgh", "KeyKey", "x", Some(1))))) {
        InvalidateSessionAction::Finish(Ok(())) => {},
        other => panic!("unexpected {:?}", other),
    }
}

#[test]
fn store_invalidate_by_key_keeps_an_earlier_disable() {
    let m = manager();
    let (mut flow, action) = m.invalidate_session_by_pr_key("abcdefgh", "session-KeyKey", policy());
    assert!(matches!(action, InvalidateByKeyAction::GetSession { .. }));
    match flow.step(InvalidateByKeyEvent::SessionLoaded(Ok(Some(session_entity("abcdefgh", "KeyKey", "x", Some(7)))), NOW)) {
        InvalidateByKeyAction::UpdateSession(e) => assert_eq!(e.payload.disabled, Some(7)),
        other => panic!("unexpected {:?}", other),
    }
    match flow.step(InvalidateByKeyEvent::Updated(Err(conflict()))) {
        InvalidateByKeyAction::Wait(10) => {},
        other => panic!("unexpected {:?}", other),
    }
    match flow.step(InvalidateByKeyEvent::Waited) {
        InvalidateByKeyAction::GetSession { partition_key, row_key } => {
            assert_eq!(partition_key, "abcdefgh");
            assert_eq!(row_key, "session-KeyKey");
        },
        other => panic!("unexpected {:?}", other),
    }
    match flow.step(InvalidateByKeyEvent::SessionLoaded(Ok(None), NOW)) {
        InvalidateByKeyAction::Finish(Ok(())) => {},
        other => panic!("unexpected {:?}", other),
    }
    let (mut flow, _) = m.invalidate_session_by_pr_key("abcdefgh", "session-KeyKey", policy());
    match flow.step(InvalidateByKeyEvent::SessionLoaded(Ok(Some(session_entity("abcdefgh", "KeyKey", "x", None))), NOW)) {
        InvalidateByKeyAction::UpdateSession(e) => assert_eq!(e.payload.disabled, Some(NOW)),
        other => panic!("unexpected {:?}", other),
    }
}

#[test]
fn store_invalidate_all_visits_each_session_in_turn() {
    let m = manager();
    let (mut flow, _) = m.invalidate_all_sessions("KeyKey");
    match flow.step(InvalidateAllEvent::Found(found("10.0.0.1", None))) {
        InvalidateAllAction::QuerySessions(q) => assert_eq!(
            q,
            "$filter=PartitionKey%20eq%20%27abcdefgh%27%20and%20RowKey%20gt%20%27session%2D%27%20and%20RowKey%20lt%20%27session%5F%27"
        ),
        other => panic!("unexpected {:?}", other),
    }
    let keys = vec![
        ("abcdefgh".to_owned(), "session-a".to_owned()),
        ("abcdefgh".to_owned(), "session-b".to_owned()),
    ];
    match flow.step(InvalidateAllEvent::SessionsLoaded(Ok(keys))) {
        InvalidateAllAction::InvalidateSession { row_key, .. } => assert_eq!(row_key, "session-a"),
        other => panic!("unexpected {:?}", other),
    }
    match flow.step(InvalidateAllEvent::Invalidated(Err(IdentityError::SessionKeyConflict))) {
        InvalidateAllAction::InvalidateSession { row_key, .. } => assert_eq!(row_key, "session-b"),
        other => panic!("unexpected {:?}", other),
    }
    match flow.step(InvalidateAllEvent::Invalidated(Ok(()))) {
        InvalidateAllAction::Finish(Ok(())) => {},
        other => panic!("unexpected {:?}", other),
    }
}

#[test]
fn store_session_index_of_a_session() {
    let s = Session::new("uid".to_owned(), "Zx-9".to_owned(), &site());
    assert_eq!(s.key(), "Zx-9");
    assert_eq!(s.id(), "uid");
    let index = SessionIndex::from_identity(&s);
    assert_eq!(index.0.partition_key, "session-Zx");
    assert_eq!(index.index_key(), "Zx-9");
    assert_eq!(index.id(), "uid");
}

#[test]
fn earlier_index_entries_of_identities() {
    let identity = shine_auth::auth::iam::identity::UserIdentity::new(
        "abcdefgh".to_owned(),
        1234,
        "salt".to_owned(),
        EncodedName::from_raw("alice").unwrap(),
        Some(EncodedEmail::from_raw("alice@example.com").unwrap()),
        "hash".to_owned(),
    );
    let e = IamEmailIndex::from_identity(&identity).unwrap();
    assert_eq!(e.0.partition_key, "x_user_email-al");
    assert_eq!(e.index_key(), "alice@example.com");
    let (p, _) = IamEmailIndex::entity_keys(IamCategory::User, &EncodedEmail::from_raw("bob@example.com").unwrap());
    assert_eq!(p, "x_user_email-bo");
    let n = IamNameIndex::from_identity(&identity);
    assert_eq!(n.0.partition_key, "x_name-al");
    assert_eq!(n.data().indexed_id.identity_id, "abcdefgh");
    let s = IamSequenceIndex::from_identity(&identity);
    assert_eq!(s.0.partition_key, "x_seq-34");
    assert_eq!(s.index_key(), "1234");
}

#[test]
fn store_session_dates_are_the_given_times() {
    let s = Session::new_at("uid".to_owned(), "Zx-9".to_owned(), &site(), OPENED);
    assert_eq!(s.data().issued, OPENED);
    assert_eq!(s.data().refreshed, OPENED);
    assert_eq!(s.data().refresh_count, 0);
    assert!(s.data().disabled.is_none());
}
