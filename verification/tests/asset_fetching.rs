use mc_launcher::assets::{
    after_attempt, asset_url, AssetAction, AssetEvent, AssetFetch, AssetObject, AssetPhase,
    AssetProgress, AssetQueue, InstallError, OnDisk, QueueStep, RetryStep, ASSET_CONCURRENCY,
    ASSET_RETRIES,
};

fn object(hash: &str, size: u64) -> AssetObject {
    AssetObject { hash: hash.to_string(), size }
}

#[test]
fn asset_urls_are_sharded_by_the_first_two_characters() {
    assert_eq!(
        asset_url("abcdef0123"),
        "https://resources.download.minecraft.net/ab/abcdef0123"
    );
    assert_eq!(asset_url("a"), "https://resources.download.minecraft.net/a/a");
}

#[test]
fn a_file_of_the_expected_size_needs_no_request() {
    let (mut fetch, first) = AssetFetch::start(object("abcd1234", 10));
    assert!(matches!(first, AssetAction::Inspect));
    assert!(matches!(fetch.step(AssetEvent::Inspected(OnDisk::Sized(10))), AssetAction::Satisfied));
    assert_eq!(fetch.phase, AssetPhase::Settled);
}

#[test]
fn a_short_download_is_deleted_and_reported_as_integrity_error() {
    let (mut fetch, _) = AssetFetch::start(object("abcd1234", 10));
    match fetch.step(AssetEvent::Inspected(OnDisk::Absent)) {
        AssetAction::Request { url, remove_stale } => {
            assert_eq!(url, "https://resources.download.minecraft.net/ab/abcd1234");
            assert!(!remove_stale);
        }
        other => panic!("unexpected: {:?}", other),
    }
    assert!(matches!(
        fetch.step(AssetEvent::Answered { success: true, status: "200 OK".to_string() }),
        AssetAction::Receive
    ));
    assert!(matches!(fetch.step(AssetEvent::Written), AssetAction::Measure));
    match fetch.step(AssetEvent::Measured(8)) {
        AssetAction::Fail { error: InstallError::Integrity(m), delete_partial } => {
            assert!(delete_partial);
            assert_eq!(m, "size mismatch for abcd1234 (expected 10, got 8)");
        }
        other => panic!("unexpected: {:?}", other),
    }
    assert_eq!(fetch.phase, AssetPhase::Settled);
}

#[test]
fn a_complete_download_completes() {
    let (mut fetch, _) = AssetFetch::start(object("abcd1234", 10));
    fetch.step(AssetEvent::Inspected(OnDisk::Absent));
    fetch.step(AssetEvent::Answered { success: true, status: "200 OK".to_string() });
    fetch.step(AssetEvent::Written);
    assert!(matches!(fetch.step(AssetEvent::Measured(10)), AssetAction::Complete));
}

#[test]
fn a_stale_file_is_removed_before_the_request() {
    for found in [OnDisk::Sized(9), OnDisk::Sized(11), OnDisk::Unreadable] {
        let (mut fetch, _) = AssetFetch::start(object("abcd1234", 10));
        match fetch.step(AssetEvent::Inspected(found)) {
            AssetAction::Request { remove_stale, .. } => assert!(remove_stale),
            other => panic!("unexpected: {:?}", other),
        }
    }
}

#[test]
fn a_failure_status_is_a_network_error() {
    let (mut fetch, _) = AssetFetch::start(object("abcd1234", 10));
    fetch.step(AssetEvent::Inspected(OnDisk::Absent));
    match fetch.step(AssetEvent::Answered { success: false, status: "404 Not Found".to_string() }) {
        AssetAction::Fail { error: InstallError::Network(m), delete_partial } => {
            assert!(!delete_partial);
            assert_eq!(
                m,
                "HTTP 404 Not Found for https://resources.download.minecraft.net/ab/abcd1234"
            );
        }
        other => panic!("unexpected: {:?}", other),
    }
}

#[test]
fn a_broken_transfer_deletes_the_partial_file() {
    let (mut fetch, _) = AssetFetch::start(object("abcd1234", 10));
    fetch.step(AssetEvent::Inspected(OnDisk::Absent));
    fetch.step(AssetEvent::Answered { success: true, status: "200 OK".to_string() });
    match fetch.step(AssetEvent::TransferFailed("connection reset".to_string())) {
        AssetAction::Fail { error: InstallError::Network(m), delete_partial } => {
            assert!(delete_partial);
            assert_eq!(m, "connection reset");
        }
        other => panic!("unexpected: {:?}", other),
    }
    let (mut fetch, _) = AssetFetch::start(object("abcd1234", 10));
    fetch.step(AssetEvent::Inspected(OnDisk::Absent));
    fetch.step(AssetEvent::Answered { success: true, status: "200 OK".to_string() });
    match fetch.step(AssetEvent::FlushFailed("io".to_string())) {
        AssetAction::Fail { delete_partial, .. } => assert!(!delete_partial),
        other => panic!("unexpected: {:?}", other),
    }
}

#[test]
fn other_failures_of_a_fetch_are_network_errors() {
    let (mut fetch, _) = AssetFetch::start(object("abcd1234", 10));
    fetch.step(AssetEvent::Inspected(OnDisk::Absent));
    match fetch.step(AssetEvent::RequestFailed("dns".to_string())) {
        AssetAction::Fail { error: InstallError::Network(m), delete_partial } => {
            assert_eq!(m, "dns");
            assert!(!delete_partial);
        }
        other => panic!("unexpected: {:?}", other),
    }
    let (mut fetch, _) = AssetFetch::start(object("abcd1234", 10));
    fetch.step(AssetEvent::Inspected(OnDisk::Absent));
    fetch.step(AssetEvent::Answered { success: true, status: "200 OK".to_string() });
    fetch.step(AssetEvent::Written);
    match fetch.step(AssetEvent::MeasureFailed("gone".to_string())) {
        AssetAction::Fail { error: InstallError::Network(m), delete_partial } => {
            assert_eq!(m, "gone");
            assert!(!delete_partial);
        }
        other => panic!("unexpected: {:?}", other),
    }
    assert!(matches!(fetch.step(AssetEvent::Written), AssetAction::Fail { .. }));
}

#[test]
fn a_failed_fetch_is_retried_within_the_budget() {
    let failure = || Err(InstallError::Network("timeout".to_string()));
    assert_eq!(ASSET_RETRIES, 3);
    match after_attempt(1, failure()) {
        RetryStep::Retry { attempt, delay_ms } => {
            assert_eq!(attempt, 2);
            assert_eq!(delay_ms, 500);
        }
        other => panic!("unexpected: {:?}", other),
    }
    assert!(matches!(after_attempt(2, failure()), RetryStep::Retry { attempt: 3, delay_ms: 500 }));
    match after_attempt(3, Err(InstallError::Integrity("last".to_string()))) {
        RetryStep::GiveUp(InstallError::Integrity(m)) => assert_eq!(m, "last"),
        other => panic!("unexpected: {:?}", other),
    }
    assert!(matches!(after_attempt(1, Ok(())), RetryStep::Done));
    assert!(matches!(after_attempt(3, Ok(())), RetryStep::Done));
}

#[test]
fn the_queue_keeps_a_sliding_window() {
    assert_eq!(ASSET_CONCURRENCY, 4);
    let mut q = AssetQueue::new(6);
    assert_eq!(q.started(), 4);
    assert_eq!(q.in_flight(), 4);
    assert_eq!(q.completed(true), QueueStep::Spawn(4));
    assert_eq!(q.in_flight(), 4);
    assert_eq!(q.completed(true), QueueStep::Spawn(5));
    assert_eq!(q.started(), 6);
    assert_eq!(q.completed(true), QueueStep::Wait);
    assert_eq!(q.in_flight(), 3);
    assert_eq!(q.completed(true), QueueStep::Wait);
    assert_eq!(q.completed(true), QueueStep::Wait);
    assert!(!q.is_finished());
    assert_eq!(q.completed(true), QueueStep::Finished);
    assert!(q.is_finished());
    assert_eq!(q.completed(true), QueueStep::Finished);
}

#[test]
fn a_small_queue_starts_everything_at_once() {
    let mut q = AssetQueue::new(2);
    assert_eq!(q.started(), 2);
    assert_eq!(q.in_flight(), 2);
    assert_eq!(q.completed(true), QueueStep::Wait);
    assert_eq!(q.completed(true), QueueStep::Finished);
    let mut empty = AssetQueue::new(0);
    assert_eq!(empty.started(), 0);
    assert!(empty.is_finished());
    assert_eq!(empty.completed(true), QueueStep::Finished);
}

#[test]
fn one_failure_ends_the_bulk_fetch() {
    let mut q = AssetQueue::new(10);
    assert_eq!(q.completed(true), QueueStep::Spawn(4));
    assert_eq!(q.completed(false), QueueStep::Failed);
    assert_eq!(q.in_flight(), 0);
    assert_eq!(q.completed(true), QueueStep::Failed);
    assert!(!q.is_finished());
    assert_eq!(q.started(), 5);
}

#[test]
fn progress_counts_bytes_and_files() {
    let mut p = AssetProgress::new();
    let report = p.record_chunk(4, 10);
    assert_eq!(report.downloaded_bytes, 4);
    assert_eq!(report.total_bytes, 10);
    assert_eq!(report.remaining_bytes, 6);
    let report = p.record_chunk(8, 10);
    assert_eq!(report.downloaded_bytes, 12);
    assert_eq!(report.remaining_bytes, 0);
    p.record_settled(&AssetAction::Complete);
    assert_eq!(p.downloaded_files, 1);
    assert_eq!(p.downloaded_bytes, 12);
}

#[test]
fn only_objects_that_are_there_are_counted() {
    let mut p = AssetProgress::new();
    p.record_settled(&AssetAction::Inspect);
    p.record_settled(&AssetAction::Request { url: "u".to_string(), remove_stale: false });
    p.record_settled(&AssetAction::Receive);
    p.record_settled(&AssetAction::Measure);
    p.record_settled(&AssetAction::Fail {
        error: InstallError::Integrity("short".to_string()),
        delete_partial: true,
    });
    assert_eq!(p.downloaded_files, 0);
    p.record_settled(&AssetAction::Satisfied);
    assert_eq!(p.downloaded_files, 1);
    p.record_settled(&AssetAction::Complete);
    assert_eq!(p.downloaded_files, 2);
    assert_eq!(p.downloaded_bytes, 0);
}

#[test]
fn install_errors_carry_their_detail() {
    assert_eq!(InstallError::Network("n".to_string()).message(), "n");
    assert_eq!(InstallError::Integrity("i".to_string()).message(), "i");
    assert_eq!(InstallError::Schema("s".to_string()).message(), "s");
}
