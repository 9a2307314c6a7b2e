use krumnet::jobs::{Job, JobError, JobStatus, JobStore};
use krumnet::text::{decimal, parse_decimal};

fn create_game(lobby: &str) -> Job {
    Job::CreateGame { creator: "U1".to_string(), lobby_id: lobby.to_string() }
}

#[test]
fn enqueue_hands_out_distinct_ids_and_pending_status() {
    let mut store = JobStore::new();
    let a = store.queue(create_game("L1"), 100).unwrap();
    let b = store.queue(create_game("L1"), 100).unwrap();
    assert_ne!(a, b);
    assert_eq!(store.len(), 2);
    for id in [a, b] {
        let handle = store.status(id).unwrap();
        assert_eq!(handle.id, id);
        assert!(handle.result.is_none());
        let record = store.record(id).unwrap();
        assert!(matches!(record.status, JobStatus::Pending));
        assert_eq!(record.created, 100);
        assert_eq!(record.settled, None);
    }
}

#[test]
fn completed_result_is_read_back_unchanged() {
    let mut store = JobStore::new();
    let id = store.queue(Job::CheckRoundFulfillment { round_id: "R1".to_string() }, 100).unwrap();
    store.complete(id, "{\"fulfilled\":true}".to_string(), 200).unwrap();
    for _ in 0..3 {
        let handle = store.status(id).unwrap();
        assert_eq!(handle.result.as_deref(), Some("{\"fulfilled\":true}"));
    }
    assert_eq!(store.complete(id, "other".to_string(), 200), Err(JobError::AlreadyTerminal));
    assert_eq!(store.fail(id, 300), Err(JobError::AlreadyTerminal));
    store.queue(create_game("L2"), 100).unwrap();
    assert_eq!(store.status(id).unwrap().result.as_deref(), Some("{\"fulfilled\":true}"));
}

#[test]
fn failed_job_has_no_result() {
    let mut store = JobStore::new();
    let id = store.queue(create_game("L1"), 100).unwrap();
    assert_eq!(store.fail(id, 300), Ok(()));
    assert!(store.status(id).unwrap().result.is_none());
    let record = store.record(id).unwrap();
    assert!(matches!(record.status, JobStatus::Failed));
    assert_eq!(record.created, 100);
    assert_eq!(record.settled, Some(300));
}

#[test]
fn unknown_job_is_not_found() {
    let mut store = JobStore::new();
    assert!(store.status(0).is_none());
    assert!(store.record(7).is_none());
    assert_eq!(store.complete(3, "x".to_string(), 200), Err(JobError::UnknownJob));
    assert_eq!(store.fail(3, 300), Err(JobError::UnknownJob));
}

#[test]
fn handle_json_framing() {
    let mut store = JobStore::new();
    for _ in 0..12 {
        store.queue(create_game("L1"), 100).unwrap();
    }
    assert_eq!(store.status(11).unwrap().to_json(), "{\"id\":\"11\",\"result\":null}");
    store.complete(11, "{\"game\":\"G1\"}".to_string(), 200).unwrap();
    assert_eq!(
        store.status(11).unwrap().to_json(),
        "{\"id\":\"11\",\"result\":{\"game\":\"G1\"}}"
    );
}

#[test]
fn decimal_numerals() {
    assert_eq!(decimal(0), "0");
    assert_eq!(decimal(7), "7");
    assert_eq!(decimal(1204), "1204");
    assert_eq!(decimal(u64::MAX), "18446744073709551615");
    assert_eq!(parse_decimal("1204"), Some(1204));
    assert_eq!(parse_decimal("007"), Some(7));
    assert_eq!(parse_decimal("18446744073709551615"), Some(u64::MAX));
    assert_eq!(parse_decimal("18446744073709551616"), None);
    assert_eq!(parse_decimal(""), None);
    assert_eq!(parse_decimal("12a"), None);
    assert_eq!(parse_decimal("-1"), None);
}
