use shine_auth::auth::iam::fingerprint::{Fingerprint, FingerprintLookup, IpLocation};
use shine_auth::auth::iam::identity::{CoreIdentityData, EncodedName, IdentityCategory, UserIdentity, UserIdentityData};
use shine_auth::auth::iam::session::manager::{
    CreateSessionAction, CreateSessionEvent, InvalidateAllAction, InvalidateAllEvent, SessionCheckAction,
    SessionCheckEvent, SessionCheckOutcome, SessionManager,
};
use shine_auth::auth::iam::session::{Session, SessionData, SessionIndex};
use shine_auth::auth::iam::{IAMConfig, IAMError};
use shine_auth::azure_utils::{StorageError, TableEntity};

fn config() -> IAMConfig {
    IAMConfig {
        password_pepper: "pepper".to_owned(),
        storage_account: "account".to_owned(),
        storage_account_key: "key".to_owned(),
        graph_db_host: "graph".to_owned(),
        graph_db_port: 443,
        graph_db_user: "user".to_owned(),
        graph_db_password: "secret".to_owned(),
        ipdataco_key: "ip".to_owned(),
        session_time_to_live_h: 24,
        test_token: "tt".to_owned(),
    }
}

fn fingerprint() -> Fingerprint {
    Fingerprint::new(
        "agent/1.0",
        Some("10.0.0.1".to_owned()),
        Some(IpLocation { continent: "EU".to_owned(), country: "HU".to_owned() }),
    )
}

fn user() -> UserIdentity {
    UserIdentity::new(
        "abcdefgh".to_owned(),
        1,
        "salt".to_owned(),
        EncodedName::from_raw("alice").unwrap(),
        None,
        "hash".to_owned(),
    )
}

/// When the test sessions were opened, in milliseconds since the epoch.
const OPENED: i64 = 1_600_000_000_000;
/// When the test sessions are checked: one second later.
const NOW: i64 = OPENED + 1_000;
/// A day, the time to live of `config()`, in milliseconds.
const DAY_MS: i64 = 86_400_000;

fn session_entity(id: &str, key: &str, disabled: Option<i64>) -> TableEntity<SessionData> {
    let mut s = Session::new_at(id.to_owned(), key.to_owned(), &fingerprint(), OPENED).into_entity();
    s.payload.disabled = disabled;
    s
}

#[test]
fn session_keys_are_43_url_safe_characters() {
    let manager = SessionManager::new(&config());
    assert_eq!(manager.time_to_live_ms, 24 * 3_600_000);
    let key = manager.genrate_session_key();
    assert_eq!(key.len(), 43);
    assert!(key.chars().all(|c| c.is_ascii_alphanumeric() || c == '-' || c == '_'));
    assert_ne!(manager.genrate_session_key(), key);
}

#[test]
fn session_and_index_keys() {
    assert_eq!(Session::entity_keys("abcdefgh", "KEY"), ("id-abcdefgh".to_owned(), "KEY".to_owned()));
    assert_eq!(SessionIndex::entity_keys("KEY"), ("x_key-KE".to_owned(), "KEY".to_owned()));
    let s = Session::from_entity(session_entity("abcdefgh", "KEY", None));
    assert_eq!(s.id(), "abcdefgh");
    assert_eq!(s.key(), "KEY");
    assert_eq!(s.data().remote_ip, "10.0.0.1");
    assert_eq!(s.data().remote_country, "HU");
}

#[test]
fn disabling_keeps_the_first_date_and_refresh_counts() {
    let mut s = Session::from_entity(session_entity("abcdefgh", "KEY", None));
    assert!(!s.is_disabled());
    s.disable();
    let first = s.data().disabled;
    assert!(first.is_some());
    s.disable();
    assert_eq!(s.data().disabled, first);
    let mut r = Session::from_entity(session_entity("abcdefgh", "KEY", None));
    r.refresh();
    r.refresh();
    assert_eq!(r.data().refresh_count, 2);
}

#[test]
fn create_session_inserts_index_then_session() {
    let manager = SessionManager::new(&config());
    let (mut flow, action) = manager.create_session(&user(), &fingerprint());
    let index = match action {
        CreateSessionAction::InsertIndex(index) => index,
        other => panic!("unexpected {:?}", other),
    };
    assert_eq!(index.payload.identity_id, "abcdefgh");
    assert_eq!(index.partition_key, format!("x_key-{}", &index.row_key[0..2]));
    let key = index.row_key.clone();
    let session = match flow.step(&manager, CreateSessionEvent::IndexInserted(Ok(index), NOW)) {
        CreateSessionAction::InsertSession(s) => s,
        other => panic!("unexpected {:?}", other),
    };
    assert_eq!(session.partition_key, "id-abcdefgh");
    assert_eq!(session.row_key, key);
    assert_eq!(session.payload.agent, "agent/1.0");
    assert_eq!(session.payload.remote_continent, "EU");
    match flow.step(&manager, CreateSessionEvent::SessionInserted(Ok(session))) {
        CreateSessionAction::Finish(Ok(s)) => assert_eq!(s.key(), key),
        other => panic!("unexpected {:?}", other),
    }
}

#[test]
fn create_session_removes_the_index_when_the_session_fails() {
    let manager = SessionManager::new(&config());
    let (mut flow, action) = manager.create_session(&user(), &fingerprint());
    let index = match action {
        CreateSessionAction::InsertIndex(index) => index,
        other => panic!("unexpected {:?}", other),
    };
    let key = index.row_key.clone();
    flow.step(&manager, CreateSessionEvent::IndexInserted(Ok(index), NOW));
    match flow.step(&manager, CreateSessionEvent::SessionInserted(Err(StorageError::UnexpectedStatus(500)))) {
        CreateSessionAction::RemoveIndex(i) => assert_eq!(i.row_key, key),
        other => panic!("unexpected {:?}", other),
    }
    match flow.step(&manager, CreateSessionEvent::IndexRemoved) {
        CreateSessionAction::Finish(Err(IAMError::Internal(m))) => assert_eq!(m, "Unexpected HTTP status: 500"),
        other => panic!("unexpected {:?}", other),
    }
}

#[test]
fn create_session_retries_a_key_collision_with_a_new_key() {
    let manager = SessionManager::new(&config());
    let (mut flow, action) = manager.create_session(&user(), &fingerprint());
    let first = match action {
        CreateSessionAction::InsertIndex(index) => index.row_key,
        other => panic!("unexpected {:?}", other),
    };
    assert!(matches!(
        flow.step(&manager, CreateSessionEvent::IndexInserted(Err(StorageError::UnexpectedStatus(409)), NOW)),
        CreateSessionAction::Wait(10)
    ));
    match flow.step(&manager, CreateSessionEvent::Waited) {
        CreateSessionAction::InsertIndex(index) => assert_ne!(index.row_key, first),
        other => panic!("unexpected {:?}", other),
    }
}

#[test]
fn validate_session_accepts_a_fresh_session_from_the_same_remote() {
    let manager = SessionManager::new(&config());
    let (mut flow, action) = manager.validate_session_with_id_key("abcdefgh", "KEY", &fingerprint());
    match action {
        SessionCheckAction::GetSession { partition_key, row_key } => {
            assert_eq!(partition_key, "id-abcdefgh");
            assert_eq!(row_key, "KEY");
        }
        other => panic!("unexpected {:?}", other),
    }
    match flow.step(&manager, SessionCheckEvent::SessionLoaded(Ok(Some(session_entity("abcdefgh", "KEY", None))), NOW)) {
        SessionCheckAction::Finish(Ok(SessionCheckOutcome::Session(s))) => assert_eq!(s.key(), "KEY"),
        other => panic!("unexpected {:?}", other),
    }
}

#[test]
fn validate_session_disables_a_session_used_from_elsewhere() {
    let manager = SessionManager::new(&config());
    let other = Fingerprint::new("agent/1.0", Some("10.9.9.9".to_owned()), None);
    let (mut flow, _) = manager.validate_session_with_id_key("abcdefgh", "KEY", &other);
    let updated = match flow.step(&manager, SessionCheckEvent::SessionLoaded(Ok(Some(session_entity("abcdefgh", "KEY", None))), NOW)) {
        SessionCheckAction::UpdateSession(u) => u,
        other => panic!("unexpected {:?}", other),
    };
    assert!(updated.payload.disabled.is_some());
    assert!(matches!(
        flow.step(&manager, SessionCheckEvent::SessionUpdated(Ok(updated))),
        SessionCheckAction::Finish(Err(IAMError::SessionExpired))
    ));
}

#[test]
fn refresh_session_counts_the_refresh() {
    let manager = SessionManager::new(&config());
    let (mut flow, _) = manager.refresh_session_with_id_key("abcdefgh", "KEY", &fingerprint());
    let updated = match flow.step(&manager, SessionCheckEvent::SessionLoaded(Ok(Some(session_entity("abcdefgh", "KEY", None))), NOW)) {
        SessionCheckAction::UpdateSession(u) => u,
        other => panic!("unexpected {:?}", other),
    };
    assert_eq!(updated.payload.refresh_count, 1);
    assert!(updated.payload.disabled.is_none());
}

#[test]
fn refresh_by_key_goes_through_the_index() {
    let manager = SessionManager::new(&config());
    let (mut flow, action) = manager.refresh_session_with_key("KEY", &fingerprint());
    match action {
        SessionCheckAction::GetIndex { partition_key, row_key } => {
            assert_eq!(partition_key, "x_key-KE");
            assert_eq!(row_key, "KEY");
        }
        other => panic!("unexpected {:?}", other),
    }
    let index = SessionIndex::new("KEY", "abcdefgh").into_entity();
    match flow.step(&manager, SessionCheckEvent::IndexLoaded(Ok(Some(index)))) {
        SessionCheckAction::GetSession { partition_key, .. } => assert_eq!(partition_key, "id-abcdefgh"),
        other => panic!("unexpected {:?}", other),
    }
    let refreshed = match flow.step(&manager, SessionCheckEvent::SessionLoaded(Ok(Some(session_entity("abcdefgh", "KEY", None))), NOW)) {
        SessionCheckAction::UpdateSession(e) => e,
        other => panic!("unexpected {:?}", other),
    };
    assert_eq!(refreshed.payload.refresh_count, 1);
    assert!(refreshed.payload.disabled.is_none());
    match flow.step(&manager, SessionCheckEvent::SessionUpdated(Ok(refreshed))) {
        SessionCheckAction::Finish(Ok(SessionCheckOutcome::KeyedSession(id, s))) => {
            assert_eq!(id, "abcdefgh");
            assert_eq!(s.key(), "KEY");
        }
        other => panic!("unexpected {:?}", other),
    }
}

#[test]
fn refresh_by_key_disables_a_session_used_from_elsewhere() {
    let manager = SessionManager::new(&config());
    let (mut flow, _) = manager.refresh_session_with_key("KEY", &fingerprint());
    let index = SessionIndex::new("KEY", "abcdefgh").into_entity();
    flow.step(&manager, SessionCheckEvent::IndexLoaded(Ok(Some(index))));
    let mut moved = session_entity("abcdefgh", "KEY", None);
    moved.payload.agent = "other/2.0".to_owned();
    let disabled = match flow.step(&manager, SessionCheckEvent::SessionLoaded(Ok(Some(moved)), NOW)) {
        SessionCheckAction::UpdateSession(e) => e,
        other => panic!("unexpected {:?}", other),
    };
    assert!(disabled.payload.disabled.is_some());
    assert_eq!(disabled.payload.refresh_count, 0);
    match flow.step(&manager, SessionCheckEvent::SessionUpdated(Ok(disabled))) {
        SessionCheckAction::Finish(Err(IAMError::SessionExpired)) => {}
        other => panic!("unexpected {:?}", other),
    }
}

#[test]
fn a_disabled_or_missing_session_is_expired() {
    let manager = SessionManager::new(&config());
    let (mut flow, _) = manager.validate_session_with_id_key("abcdefgh", "KEY", &fingerprint());
    assert!(matches!(
        flow.step(&manager, SessionCheckEvent::SessionLoaded(Ok(Some(session_entity("abcdefgh", "KEY", Some(5)))), NOW)),
        SessionCheckAction::Finish(Err(IAMError::SessionExpired))
    ));
    let (mut flow, _) = manager.validate_session_with_id_key("abcdefgh", "KEY", &fingerprint());
    assert!(matches!(
        flow.step(&manager, SessionCheckEvent::SessionLoaded(Ok(None), NOW)),
        SessionCheckAction::Finish(Err(IAMError::SessionExpired))
    ));
}

#[test]
fn invalidate_session_disables_it() {
    let manager = SessionManager::new(&config());
    let (mut flow, _) = manager.invalidate_session("abcdefgh", "KEY");
    let updated = match flow.step(&manager, SessionCheckEvent::SessionLoaded(Ok(Some(session_entity("abcdefgh", "KEY", None))), NOW)) {
        SessionCheckAction::UpdateSession(u) => u,
        other => panic!("unexpected {:?}", other),
    };
    assert!(updated.payload.disabled.is_some());
    assert!(matches!(
        flow.step(&manager, SessionCheckEvent::SessionUpdated(Ok(updated))),
        SessionCheckAction::Finish(Ok(SessionCheckOutcome::Invalidated))
    ));
}

#[test]
fn invalidate_all_skips_the_active_key_until_the_end() {
    let manager = SessionManager::new(&config());
    let (mut flow, action) = manager.invalidate_all_session("abcdefgh", Some("ACTIVE"));
    match action {
        InvalidateAllAction::Query(q) => assert_eq!(
            q,
            "$filter=PartitionKey%20eq%20%27id%2Dabcdefgh%27%20and%20Disabled%20eq%20%27%27"
        ),
        other => panic!("unexpected {:?}", other),
    }
    let page = vec![
        session_entity("abcdefgh", "K1", None),
        session_entity("abcdefgh", "ACTIVE", None),
        session_entity("abcdefgh", "K2", None),
    ];
    match flow.step(InvalidateAllEvent::Page(page)) {
        InvalidateAllAction::Invalidate { id, key } => {
            assert_eq!(id, "abcdefgh");
            assert_eq!(key, "K1");
        }
        other => panic!("unexpected {:?}", other),
    }
    match flow.step(InvalidateAllEvent::Invalidated(Ok(()))) {
        InvalidateAllAction::Invalidate { key, .. } => assert_eq!(key, "K2"),
        other => panic!("unexpected {:?}", other),
    }
    assert!(matches!(flow.step(InvalidateAllEvent::Invalidated(Ok(()))), InvalidateAllAction::NextPage));
    match flow.step(InvalidateAllEvent::QueryEnded) {
        InvalidateAllAction::Invalidate { id, key } => {
            assert_eq!(id, "abcdefgh");
            assert_eq!(key, "ACTIVE");
        }
        other => panic!("unexpected {:?}", other),
    }
    assert!(matches!(flow.step(InvalidateAllEvent::Invalidated(Ok(()))), InvalidateAllAction::Finish(Ok(()))));
}

#[test]
fn invalidate_all_reports_conflicts_and_keeps_the_active_session() {
    let manager = SessionManager::new(&config());
    let (mut flow, _) = manager.invalidate_all_session("abcdefgh", Some("ACTIVE"));
    flow.step(InvalidateAllEvent::Page(vec![session_entity("abcdefgh", "K1", None)]));
    assert!(matches!(
        flow.step(InvalidateAllEvent::Invalidated(Err(IAMError::SessionKeyConflict))),
        InvalidateAllAction::NextPage
    ));
    assert!(matches!(
        flow.step(InvalidateAllEvent::QueryEnded),
        InvalidateAllAction::Finish(Err(IAMError::SessionKeyConflict))
    ));
    let (mut flow, _) = manager.invalidate_all_session("abcdefgh", None);
    flow.step(InvalidateAllEvent::Page(vec![session_entity("abcdefgh", "K1", None)]));
    assert!(matches!(
        flow.step(InvalidateAllEvent::Invalidated(Err(IAMError::SessionExpired))),
        InvalidateAllAction::Finish(Err(IAMError::SessionExpired))
    ));
    let (mut flow, _) = manager.invalidate_all_session("abcdefgh", None);
    assert!(matches!(flow.step(InvalidateAllEvent::QueryEnded), InvalidateAllAction::Finish(Ok(()))));
}

#[test]
fn user_identity_new_sets_keys_and_data() {
    let u = user();
    assert_eq!(u.0.partition_key, "id-ab");
    assert_eq!(u.0.row_key, "abcdefgh");
    let core: &CoreIdentityData = u.core_data();
    assert_eq!(core.category, IdentityCategory::User);
    assert!(!core.email_validated);
    let data: &UserIdentityData = u.data();
    assert_eq!(data.password_hash, "hash");
}

#[test]
fn invalidate_all_fails_when_the_query_fails() {
    let manager = SessionManager::new(&config());
    let (mut flow, _) = manager.invalidate_all_session("abcdefgh", Some("ACTIVE"));
    flow.step(InvalidateAllEvent::Page(vec![session_entity("abcdefgh", "K1", None)]));
    assert!(matches!(flow.step(InvalidateAllEvent::Invalidated(Ok(()))), InvalidateAllAction::NextPage));
    match flow.step(InvalidateAllEvent::QueryFailed(StorageError::UnexpectedStatus(503))) {
        InvalidateAllAction::Finish(Err(IAMError::Internal(m))) => assert_eq!(m, "Unexpected HTTP status: 503"),
        other => panic!("unexpected {:?}", other),
    }
}

#[test]
fn create_session_removes_exactly_the_stored_index() {
    let manager = SessionManager::new(&config());
    let (mut flow, action) = manager.create_session(&user(), &fingerprint());
    let index = match action {
        CreateSessionAction::InsertIndex(x) => x,
        other => panic!("unexpected {:?}", other),
    };
    let mut stored = index.clone();
    stored.etag = Some("W/1".to_owned());
    flow.step(&manager, CreateSessionEvent::IndexInserted(Ok(stored), NOW));
    match flow.step(&manager, CreateSessionEvent::SessionInserted(Err(StorageError::UnexpectedStatus(500)))) {
        CreateSessionAction::RemoveIndex(x) => {
            assert_eq!(x.row_key, index.row_key);
            assert_eq!(x.etag, Some("W/1".to_owned()));
        }
        other => panic!("unexpected {:?}", other),
    }
}

#[test]
fn fingerprint_looks_up_only_a_known_address() {
    match Fingerprint::start("agent/1.0", None) {
        FingerprintLookup::Ready(f) => {
            assert_eq!(f.agent(), "agent/1.0");
            assert!(f.remote().is_none());
            assert!(f.location().is_none());
        }
        other => panic!("unexpected {:?}", other),
    }
    match Fingerprint::start("agent/1.0", Some("10.0.0.1".to_owned())) {
        FingerprintLookup::Locate { agent, remote } => {
            assert_eq!(agent, "agent/1.0");
            assert_eq!(remote, "10.0.0.1");
        }
        other => panic!("unexpected {:?}", other),
    }
    let found = Fingerprint::locate::<String>(
        "agent/1.0",
        "10.0.0.1".to_owned(),
        Ok(IpLocation { continent: "EU".to_owned(), country: "HU".to_owned() }),
    );
    assert_eq!(found.location().unwrap().country, "HU");
    assert_eq!(found.remote().unwrap(), "10.0.0.1");
    let missing = Fingerprint::locate("agent/1.0", "10.0.0.1".to_owned(), Err("no such address"));
    assert!(missing.location().is_none());
    assert_eq!(missing.remote().unwrap(), "10.0.0.1");
}

#[test]
fn session_dates_are_the_given_times() {
    let s = Session::new_at("abcdefgh".to_owned(), "KEY".to_owned(), &fingerprint(), OPENED);
    assert_eq!(s.data().issued, OPENED);
    assert_eq!(s.data().refreshed, OPENED);
    assert_eq!(s.data().refresh_count, 0);
    assert!(s.data().disabled.is_none());
    let mut r = Session::from_entity(session_entity("abcdefgh", "KEY", None));
    r.refresh_at(NOW);
    assert_eq!(r.data().refreshed, NOW);
    assert_eq!(r.data().refresh_count, 1);
    assert_eq!(r.data().issued, OPENED);
    r.disable_at(NOW + 5);
    assert_eq!(r.data().disabled, Some(NOW + 5));
    r.disable_at(NOW + 9);
    assert_eq!(r.data().disabled, Some(NOW + 5));
    assert_eq!(r.data().refreshed, NOW);
}

#[test]
fn the_refresh_limit_is_the_time_to_live_before_now() {
    let manager = SessionManager::new(&config());
    assert_eq!(manager.minimum_refresh_date(NOW), NOW - DAY_MS);
    assert_eq!(manager.minimum_refresh_date(0), -DAY_MS);
    let limit = manager.get_minimum_refresh_date();
    assert!(limit >= OPENED - DAY_MS);
}

#[test]
fn create_session_issues_the_session_at_the_reported_time() {
    let manager = SessionManager::new(&config());
    let (mut flow, action) = manager.create_session(&user(), &fingerprint());
    let index = match action {
        CreateSessionAction::InsertIndex(index) => index,
        other => panic!("unexpected {:?}", other),
    };
    match flow.step(&manager, CreateSessionEvent::IndexInserted(Ok(index), NOW)) {
        CreateSessionAction::InsertSession(s) => {
            assert_eq!(s.payload.issued, NOW);
            assert_eq!(s.payload.refreshed, NOW);
        }
        other => panic!("unexpected {:?}", other),
    }
}

#[test]
fn refresh_session_refreshes_at_the_reported_time() {
    let manager = SessionManager::new(&config());
    let (mut flow, _) = manager.refresh_session_with_id_key("abcdefgh", "KEY", &fingerprint());
    let updated = match flow.step(&manager, SessionCheckEvent::SessionLoaded(Ok(Some(session_entity("abcdefgh", "KEY", None))), NOW)) {
        SessionCheckAction::UpdateSession(u) => u,
        other => panic!("unexpected {:?}", other),
    };
    assert_eq!(updated.payload.refreshed, NOW);
    assert_eq!(updated.payload.issued, OPENED);
    assert_eq!(updated.payload.refresh_count, 1);
    match flow.step(&manager, SessionCheckEvent::SessionUpdated(Ok(updated))) {
        SessionCheckAction::Finish(Ok(SessionCheckOutcome::Session(s))) => {
            assert_eq!(s.id(), "abcdefgh");
            assert_eq!(s.key(), "KEY");
            assert_eq!(s.data().refresh_date(), NOW);
        }
        other => panic!("unexpected {:?}", other),
    }
}

#[test]
fn a_session_is_valid_for_exactly_its_time_to_live() {
    let manager = SessionManager::new(&config());
    let last_valid = OPENED + DAY_MS;
    let (mut flow, _) = manager.refresh_session_with_id_key("abcdefgh", "KEY", &fingerprint());
    match flow.step(&manager, SessionCheckEvent::SessionLoaded(Ok(Some(session_entity("abcdefgh", "KEY", None))), last_valid)) {
        SessionCheckAction::UpdateSession(u) => {
            assert!(u.payload.disabled.is_none());
            assert_eq!(u.payload.refreshed, last_valid);
            assert_eq!(u.payload.refresh_count, 1);
        }
        other => panic!("unexpected {:?}", other),
    }
    let expired_at = last_valid + 1;
    let (mut flow, _) = manager.refresh_session_with_id_key("abcdefgh", "KEY", &fingerprint());
    let disabled = match flow.step(&manager, SessionCheckEvent::SessionLoaded(Ok(Some(session_entity("abcdefgh", "KEY", None))), expired_at)) {
        SessionCheckAction::UpdateSession(u) => u,
        other => panic!("unexpected {:?}", other),
    };
    assert_eq!(disabled.payload.disabled, Some(expired_at));
    assert_eq!(disabled.payload.refreshed, OPENED);
    assert_eq!(disabled.payload.refresh_count, 0);
    assert!(matches!(
        flow.step(&manager, SessionCheckEvent::SessionUpdated(Ok(disabled))),
        SessionCheckAction::Finish(Err(IAMError::SessionExpired))
    ));
}

#[test]
fn validate_session_leaves_a_fresh_session_unchanged_and_expires_a_stale_one() {
    let manager = SessionManager::new(&config());
    let (mut flow, _) = manager.validate_session_with_id_key("abcdefgh", "KEY", &fingerprint());
    match flow.step(&manager, SessionCheckEvent::SessionLoaded(Ok(Some(session_entity("abcdefgh", "KEY", None))), NOW)) {
        SessionCheckAction::Finish(Ok(SessionCheckOutcome::Session(s))) => {
            assert_eq!(s.data().refresh_count, 0);
            assert_eq!(s.data().refresh_date(), OPENED);
            assert!(s.data().disable_date().is_none());
        }
        other => panic!("unexpected {:?}", other),
    }
    let stale = OPENED + 2 * DAY_MS;
    let (mut flow, _) = manager.validate_session_with_id_key("abcdefgh", "KEY", &fingerprint());
    match flow.step(&manager, SessionCheckEvent::SessionLoaded(Ok(Some(session_entity("abcdefgh", "KEY", None))), stale)) {
        SessionCheckAction::UpdateSession(u) => assert_eq!(u.payload.disabled, Some(stale)),
        other => panic!("unexpected {:?}", other),
    }
}

#[test]
fn refresh_by_key_expires_a_stale_session() {
    let manager = SessionManager::new(&config());
    let (mut flow, _) = manager.refresh_session_with_key("KEY", &fingerprint());
    let index = SessionIndex::new("KEY", "abcdefgh").into_entity();
    flow.step(&manager, SessionCheckEvent::IndexLoaded(Ok(Some(index))));
    let stale = OPENED + DAY_MS + 1;
    let disabled = match flow.step(&manager, SessionCheckEvent::SessionLoaded(Ok(Some(session_entity("abcdefgh", "KEY", None))), stale)) {
        SessionCheckAction::UpdateSession(e) => e,
        other => panic!("unexpected {:?}", other),
    };
    assert_eq!(disabled.payload.disabled, Some(stale));
    assert!(matches!(
        flow.step(&manager, SessionCheckEvent::SessionUpdated(Ok(disabled))),
        SessionCheckAction::Finish(Err(IAMError::SessionExpired))
    ));
}

#[test]
fn invalidate_session_disables_it_at_the_reported_time() {
    let manager = SessionManager::new(&config());
    let (mut flow, _) = manager.invalidate_session("abcdefgh", "KEY");
    match flow.step(&manager, SessionCheckEvent::SessionLoaded(Ok(Some(session_entity("abcdefgh", "KEY", None))), NOW)) {
        SessionCheckAction::UpdateSession(u) => {
            assert_eq!(u.payload.disabled, Some(NOW));
            assert_eq!(u.payload.refreshed, OPENED);
        }
        other => panic!("unexpected {:?}", other),
    }
}

#[test]
fn a_refresh_renews_the_time_to_live() {
    let manager = SessionManager::new(&config());
    let (mut flow, _) = manager.refresh_session_with_id_key("abcdefgh", "KEY", &fingerprint());
    let renewed = match flow.step(&manager, SessionCheckEvent::SessionLoaded(Ok(Some(session_entity("abcdefgh", "KEY", None))), NOW)) {
        SessionCheckAction::UpdateSession(u) => u,
        other => panic!("unexpected {:?}", other),
    };
    let (mut flow, _) = manager.validate_session_with_id_key("abcdefgh", "KEY", &fingerprint());
    match flow.step(&manager, SessionCheckEvent::SessionLoaded(Ok(Some(renewed.clone())), NOW + DAY_MS)) {
        SessionCheckAction::Finish(Ok(SessionCheckOutcome::Session(s))) => assert_eq!(s.data().refresh_date(), NOW),
        other => panic!("unexpected {:?}", other),
    }
    let (mut flow, _) = manager.validate_session_with_id_key("abcdefgh", "KEY", &fingerprint());
    match flow.step(&manager, SessionCheckEvent::SessionLoaded(Ok(Some(renewed)), NOW + DAY_MS + 1)) {
        SessionCheckAction::UpdateSession(u) => assert_eq!(u.payload.disabled, Some(NOW + DAY_MS + 1)),
        other => panic!("unexpected {:?}", other),
    }
}
