use shine_auth::azure_utils::{
    decode_safe_key, encode_safe_key, filter_query, is_precodition_error, StorageError,
};
use shine_auth::backoff::{BackoffError, BackoffStep, Exponential};
use shine_auth::idsequence::{IdSequenceError, SyncCounterStore};
use shine_auth::text::{concat3, decimal_string, str_equal};

#[test]
fn safe_key_escapes_reserved_characters() {
    assert_eq!(encode_safe_key("a/b#c?d\\e%f"), "a%2Fb%23c%3Fd%5Ce%25f");
    assert_eq!(encode_safe_key("plain-name_1"), "plain-name_1");
    assert_eq!(encode_safe_key("\t"), "%09");
}

#[test]
fn safe_key_roundtrip() {
    for raw in ["", "abc", "a/b", "100%", "x?y#z", "tab\there", "üñí/çødé"] {
        let key = encode_safe_key(raw);
        assert_eq!(decode_safe_key(&key), Some(raw.to_owned()));
    }
}

#[test]
fn safe_key_decode_refuses_malformed_escape() {
    assert_eq!(decode_safe_key("%2"), None);
    assert_eq!(decode_safe_key("%zz"), None);
    assert_eq!(decode_safe_key("%2f"), Some("/".to_owned()));
}

#[test]
fn filter_query_percent_encodes_the_condition() {
    assert_eq!(filter_query("a b"), "$filter=a%20b");
    assert_eq!(
        filter_query("PartitionKey eq 'id-x'"),
        "$filter=PartitionKey%20eq%20%27id%2Dx%27"
    );
    assert_eq!(filter_query("é"), "$filter=%C3%A9");
}

#[test]
fn precondition_errors_are_conflicts() {
    assert!(is_precodition_error(&StorageError::UnexpectedStatus(409)));
    assert!(is_precodition_error(&StorageError::UnexpectedStatus(412)));
    assert!(!is_precodition_error(&StorageError::UnexpectedStatus(404)));
    assert!(!is_precodition_error(&StorageError::Other("x".to_owned())));
    assert_eq!(StorageError::UnexpectedStatus(503).describe(), "Unexpected HTTP status: 503");
}

#[test]
fn exponential_backoff_doubles_the_delay() {
    let policy = Exponential::new(3, 10);
    assert_eq!(policy.delay(0), 10);
    assert_eq!(policy.delay(1), 20);
    assert_eq!(policy.delay(2), 40);
    assert_eq!(Exponential::new(70, u64::MAX / 2 + 1).delay(1), u64::MAX);
}

#[test]
fn backoff_retries_transient_failures_only() {
    let policy = Exponential::new(3, 10);
    match policy.step::<u32, &str>(0, Err(BackoffError::Transient("t"))) {
        BackoffStep::Retry { attempt, delay_micros } => {
            assert_eq!(attempt, 1);
            assert_eq!(delay_micros, 10);
        }
        _ => panic!("expected a retry"),
    }
    match policy.step::<u32, &str>(3, Err(BackoffError::Transient("t"))) {
        BackoffStep::Done(Err(e)) => assert_eq!(e, "t"),
        _ => panic!("expected the end"),
    }
    match policy.step::<u32, &str>(0, Err(BackoffError::Permanent("p"))) {
        BackoffStep::Done(Err(e)) => assert_eq!(e, "p"),
        _ => panic!("expected the end"),
    }
    match policy.step::<u32, &str>(0, Ok(7)) {
        BackoffStep::Done(Ok(v)) => assert_eq!(v, 7),
        _ => panic!("expected the end"),
    }
}

#[test]
fn counter_store_hands_out_the_range_start() {
    assert_eq!(SyncCounterStore::get(5, 10).unwrap(), 5);
    assert!(matches!(SyncCounterStore::get(10, 10), Err(IdSequenceError::SequenceEnded)));
    assert_eq!(IdSequenceError::SequenceEnded.to_display_string(), "Sequence is out of id");
    assert_eq!(IdSequenceError::DB("down".to_owned()).to_display_string(), "DB, down");
}

#[test]
fn text_helpers() {
    assert_eq!(decimal_string(0), "0");
    assert_eq!(decimal_string(1234567890), "1234567890");
    assert_eq!(concat3("a", "bc", "d"), "abcd");
    assert!(str_equal("x", "x"));
    assert!(!str_equal("x", "y"));
}
