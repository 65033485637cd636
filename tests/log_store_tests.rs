use anduflow::create_table_sql;
use anduflow::LogStatus;
use anduflow::LogStore;
use anduflow::Ratio;

fn record() -> LogStore {
    LogStore::new("load users".to_string(), "extract".to_string(), "host-a".to_string(), 4242)
}

fn as_f64(r: Ratio) -> f64 {
    r.numerator as f64 / r.denominator as f64
}

#[test]
fn new_record_is_started() {
    let log = record();
    assert_eq!(log.operation, "load users");
    assert_eq!(log.operation_type, "extract");
    assert_eq!(log.status, LogStatus::Started);
    assert_eq!(log.started_at, Some(log.created_at));
    assert!(log.created_at > 1_500_000_000_000);
    assert!(log.completed_at.is_none());
    assert!(log.elapsed_ms.is_none());
    assert!(log.progress_percentage.is_none());
    assert!(log.metadata.is_null());
    assert!(log.tags.is_empty());
    assert_eq!(log.hostname.as_deref(), Some("host-a"));
    assert_eq!(log.process_id, Some(4242));
    assert!(log.parent_id.is_none());
}

#[test]
fn new_records_get_distinct_v4_ids() {
    let a = record();
    let b = record();
    assert_ne!(a.id, b.id);
    let uuid = uuid::Uuid::from_u128(a.id);
    assert_eq!(uuid.get_version_num(), 4);
    assert_eq!((a.id >> 62) & 0x3, 2);
}

#[test]
fn progress_half_done_is_fifty_percent() {
    let mut log = record();
    log.update_progress(5, 10);
    let p = log.progress_percentage.unwrap();
    assert_eq!(p, Ratio { numerator: 500, denominator: 10 });
    assert_eq!(as_f64(p), 50.0);
    assert_eq!(log.processed_items, Some(5));
    assert_eq!(log.total_items, Some(10));
}

#[test]
fn progress_with_zero_total_floors_to_one() {
    let mut log = record();
    log.update_progress(0, 0);
    let p = log.progress_percentage.unwrap();
    assert_eq!(p, Ratio { numerator: 0, denominator: 1 });
    assert_eq!(as_f64(p), 0.0);
    log.update_progress(3, 0);
    assert_eq!(as_f64(log.progress_percentage.unwrap()), 300.0);
}

#[test]
fn fast_progress_rate_uses_one_second_floor() {
    let mut log = record();
    log.update_progress(7, 10);
    assert_eq!(log.items_per_second, Some(Ratio { numerator: 7, denominator: 1 }));
}

#[test]
fn progress_without_start_leaves_rate() {
    let mut log = record();
    log.started_at = None;
    log.update_progress(7, 10);
    assert!(log.items_per_second.is_none());
}

#[test]
fn progress_rate_counts_whole_seconds() {
    let mut log = record();
    log.started_at = Some(log.created_at - 4_500);
    log.update_progress(90, 100);
    let rate = log.items_per_second.unwrap();
    assert_eq!(rate.numerator, 90);
    assert!(rate.denominator >= 4 && rate.denominator <= 5);
}

#[test]
fn completion_after_progress_mark_records_gap() {
    let mut log = record();
    log.mark_in_progress();
    assert_eq!(log.status, LogStatus::InProgress);
    let started = log.started_at.unwrap();
    let wait = std::time::Instant::now();
    while wait.elapsed() < std::time::Duration::from_millis(30) {}
    log.mark_completed();
    assert_eq!(log.status, LogStatus::Completed);
    let completed = log.completed_at.unwrap();
    let elapsed = log.elapsed_ms.unwrap();
    assert_eq!(elapsed as i64, completed - started);
    assert!(elapsed >= 30 && elapsed < 5_000);
}

#[test]
fn completion_before_start_records_zero() {
    let mut log = record();
    log.started_at = Some(i64::MAX);
    log.mark_completed();
    assert_eq!(log.elapsed_ms, Some(0));
}

#[test]
fn completion_without_start_keeps_elapsed() {
    let mut log = record();
    log.started_at = None;
    log.mark_completed();
    assert!(log.completed_at.is_some());
    assert!(log.elapsed_ms.is_none());
}

#[test]
fn failure_records_message_and_elapsed() {
    let mut log = record();
    log.mark_in_progress();
    log.mark_failed("connection reset".to_string());
    assert_eq!(log.status, LogStatus::Failed);
    assert_eq!(log.error_message.as_deref(), Some("connection reset"));
    let gap = log.completed_at.unwrap() - log.started_at.unwrap();
    assert_eq!(log.elapsed_ms, Some(gap as u64));
}

#[test]
fn tags_metadata_and_locations_are_replaced() {
    let mut log = record();
    log.add_tag("nightly".to_string());
    log.add_tag("users".to_string());
    assert_eq!(log.tags, vec!["nightly".to_string(), "users".to_string()]);
    log.set_metadata(serde_json::Value::from(3));
    assert_eq!(log.metadata, serde_json::Value::from(3));
    log.set_source_destination(Some("https://api".to_string()), None);
    assert_eq!(log.source_uri.as_deref(), Some("https://api"));
    assert!(log.destination_uri.is_none());
    log.set_source_destination(None, Some("sqlite://db".to_string()));
    assert!(log.source_uri.is_none());
    assert_eq!(log.destination_uri.as_deref(), Some("sqlite://db"));
}

#[test]
fn table_sql_declares_every_column() {
    let sql = create_table_sql();
    assert!(sql.contains("CREATE TABLE IF NOT EXISTS etl_logs"));
    for column in [
        "id TEXT PRIMARY KEY",
        "parent_id TEXT",
        "operation TEXT NOT NULL",
        "operation_type TEXT NOT NULL",
        "created_at TEXT NOT NULL",
        "elapsed_ms INTEGER",
        "progress_percentage REAL",
        "memory_usage_mb REAL",
        "tags TEXT",
        "process_id INTEGER",
    ] {
        assert!(sql.contains(column), "missing {}", column);
    }
}
