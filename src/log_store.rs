//! The execution record: telemetry for one extraction, transform or load
//! operation, from its start through progress updates to its completion or
//! failure.
//!
//! Times are milliseconds since the Unix epoch (UTC). Rates are kept as exact
//! fractions of integers; a consumer that wants a floating-point figure
//! divides the numerator by the denominator.

use vstd::prelude::*;
use vstd::string::*;

verus! {

/// The lifecycle state of an operation.
#[derive(Debug, Clone, Copy, PartialEq, Eq, Structural)]
pub enum LogStatus {
    Started,
    InProgress,
    Completed,
    Failed,
    Cancelled,
}

/// An exact non-negative rate: `numerator / denominator`.
#[derive(Debug, Clone, Copy, PartialEq, Eq, Structural)]
pub struct Ratio {
    pub numerator: u128,
    pub denominator: u64,
}

/// Relies on chrono::Utc::now and DateTime::timestamp_millis: the current
/// time in milliseconds since the Unix epoch. Nothing is promised of the
/// value: the clock may move either way between two calls.
#[verifier::external_body]
fn now_millis() -> (r: i64) {
    chrono::Utc::now().timestamp_millis()
}

/// Relies on uuid::Uuid::new_v4 and Uuid::as_u128: a random version-4 UUID,
/// whose version field is 4 and whose variant field is the RFC one.
#[verifier::external_body]
fn fresh_id() -> (r: u128)
    ensures
        (r >> 76u128) & 0xfu128 == 4,
        (r >> 62u128) & 0x3u128 == 2,
{
    uuid::Uuid::new_v4().as_u128()
}

/// Relies on serde_json's Default for Value, which is `Value::Null`.
pub assume_specification[ <serde_json::Value as core::default::Default>::default ]() -> serde_json::Value;

/// Relies on serde_json's Clone for Value, so that a record can be copied.
pub assume_specification[ <serde_json::Value as core::clone::Clone>::clone ](v: &serde_json::Value) -> serde_json::Value;

/// The share of `total` that `processed` makes, in percent; a total of zero
/// counts as one, so no division by zero arises.
pub open spec fn percentage_of(processed: usize, total: usize) -> Ratio {
    Ratio {
        numerator: (processed * 100) as u128,
        denominator: if total == 0 { 1 } else { total as u64 },
    }
}

/// The milliseconds from `start` to `end`; zero when the clock went back.
pub open spec fn gap_ms(start: i64, end: i64) -> u64 {
    if end >= start {
        (end - start) as u64
    } else {
        0
    }
}

/// The whole seconds from `start` to `now`, and at least one.
pub open spec fn whole_seconds_at_least_one(start: i64, now: i64) -> u64 {
    if now - start >= 1000 {
        ((now - start) / 1000) as u64
    } else {
        1
    }
}

/// The elapsed time that marking completion at `now` records: recomputed
/// from the start time when there is one, otherwise left as it was.
pub open spec fn elapsed_after(started_at: Option<i64>, now: i64, elapsed_ms: Option<u64>) -> Option<u64> {
    match started_at {
        Some(start) => Some(gap_ms(start, now)),
        None => elapsed_ms,
    }
}

/// The SQL that creates the table in which records are persisted.
pub open spec fn etl_logs_table_sql() -> Seq<char> {
    r#"
    CREATE TABLE IF NOT EXISTS etl_logs (
        id TEXT PRIMARY KEY,
        parent_id TEXT,
        operation TEXT NOT NULL,
        operation_type TEXT NOT NULL,
        status TEXT NOT NULL,
        error_message TEXT,
        created_at TEXT NOT NULL,
        started_at TEXT,
        completed_at TEXT,
        elapsed_ms INTEGER,
        total_items INTEGER,
        processed_items INTEGER,
        progress_percentage REAL,
        items_per_second REAL,
        memory_usage_mb REAL,
        source_uri TEXT,
        destination_uri TEXT,
        metadata TEXT,
        tags TEXT,
        hostname TEXT,
        process_id INTEGER
    )
    "#@
}

/// The record of one operation.
#[derive(Debug, Clone)]
pub struct LogStore {
    /// The operation's identity, a version-4 UUID as an integer.
    pub id: u128,
    /// The identity of the enclosing operation, if any.
    pub parent_id: Option<u128>,
    pub operation: String,
    /// The category of the operation, e.g. "extract", "transform", "load".
    pub operation_type: String,
    pub status: LogStatus,
    pub error_message: Option<String>,
    pub created_at: i64,
    pub started_at: Option<i64>,
    pub completed_at: Option<i64>,
    pub elapsed_ms: Option<u64>,
    pub total_items: Option<usize>,
    pub processed_items: Option<usize>,
    pub progress_percentage: Option<Ratio>,
    pub items_per_second: Option<Ratio>,
    pub source_uri: Option<String>,
    pub destination_uri: Option<String>,
    /// Free-form structured context.
    pub metadata: serde_json::Value,
    pub tags: Vec<String>,
    pub hostname: Option<String>,
    pub process_id: Option<u32>,
}

/// Whether `post` is `pre` marked in progress at time `now`.
pub open spec fn marked_in_progress(pre: LogStore, post: LogStore, now: i64) -> bool {
    post == (LogStore { status: LogStatus::InProgress, started_at: Some(now), ..pre })
}

/// Whether `post` is `pre` marked completed at time `now`.
pub open spec fn marked_completed(pre: LogStore, post: LogStore, now: i64) -> bool {
    post == (LogStore {
        status: LogStatus::Completed,
        completed_at: Some(now),
        elapsed_ms: elapsed_after(pre.started_at, now, pre.elapsed_ms),
        ..pre
    })
}

/// Whether `post` is `pre` marked failed with `message` at time `now`.
pub open spec fn marked_failed(pre: LogStore, post: LogStore, message: String, now: i64) -> bool {
    post == (LogStore {
        status: LogStatus::Failed,
        error_message: Some(message),
        completed_at: Some(now),
        elapsed_ms: elapsed_after(pre.started_at, now, pre.elapsed_ms),
        ..pre
    })
}

impl LogStore {
    /// Whether the derived fields agree with what they derive from: an
    /// elapsed time exists only once start and completion are both stamped,
    /// and the progress percentage is the one of the recorded counts.
    pub open spec fn wf(&self) -> bool {
        &&& self.elapsed_ms is Some ==> self.started_at is Some && self.completed_at is Some
        &&& self.progress_percentage is Some <==> self.processed_items is Some
        &&& self.processed_items is Some <==> self.total_items is Some
        &&& self.processed_items is Some ==> self.progress_percentage == Some(
            percentage_of(self.processed_items->0, self.total_items->0),
        )
    }

    /// Starts the record of an operation named `operation` of category
    /// `operation_type`, run on host `hostname` by process `process_id`: a
    /// fresh identity, creation and start stamped now, status Started.
    pub fn new(operation: String, operation_type: String, hostname: String, process_id: u32) -> (r: Self)
        ensures
            r.wf(),
            r.operation == operation,
            r.operation_type == operation_type,
            r.status == LogStatus::Started,
            r.parent_id is None,
            r.error_message is None,
            r.started_at == Some(r.created_at),
            r.completed_at is None,
            r.elapsed_ms is None,
            r.total_items is None,
            r.processed_items is None,
            r.progress_percentage is None,
            r.items_per_second is None,
            r.source_uri is None,
            r.destination_uri is None,
            r.tags@.len() == 0,
            r.hostname == Some(hostname),
            r.process_id == Some(process_id),
            (r.id >> 76u128) & 0xfu128 == 4,
            (r.id >> 62u128) & 0x3u128 == 2,
    {
        let now = now_millis();
        LogStore {
            id: fresh_id(),
            parent_id: None,
            operation,
            operation_type,
            status: LogStatus::Started,
            error_message: None,
            created_at: now,
            started_at: Some(now),
            completed_at: None,
            elapsed_ms: None,
            total_items: None,
            processed_items: None,
            progress_percentage: None,
            items_per_second: None,
            source_uri: None,
            destination_uri: None,
            metadata: serde_json::Value::default(),
            tags: Vec::new(),
            hostname: Some(hostname),
            process_id: Some(process_id),
        }
    }

    /// Marks the operation in progress and restarts its clock: elapsed time
    /// and rates are measured from now on.
    pub fn mark_in_progress(&mut self)
        ensures
            final(self).started_at is Some,
            marked_in_progress(*old(self), *final(self), final(self).started_at->0),
            old(self).wf() ==> final(self).wf(),
    {
        self.status = LogStatus::InProgress;
        self.started_at = Some(now_millis());
    }

    fn stamp_completion(&mut self)
        ensures
            final(self).completed_at is Some,
            *final(self) == (LogStore {
                completed_at: final(self).completed_at,
                elapsed_ms: elapsed_after(old(self).started_at, final(self).completed_at->0, old(self).elapsed_ms),
                ..*old(self)
            }),
    {
        let now = now_millis();
        self.completed_at = Some(now);
        match self.started_at {
            Some(start) => {
                let gap: u64 = if now >= start {
                    (now as i128 - start as i128) as u64
                } else {
                    0
                };
                self.elapsed_ms = Some(gap);
            },
            None => {},
        }
    }

    /// Marks the operation completed now and recomputes its elapsed time.
    pub fn mark_completed(&mut self)
        ensures
            final(self).completed_at is Some,
            marked_completed(*old(self), *final(self), final(self).completed_at->0),
            old(self).wf() ==> final(self).wf(),
    {
        self.status = LogStatus::Completed;
        self.stamp_completion();
    }

    /// Marks the operation failed now with `error`, and recomputes its
    /// elapsed time.
    pub fn mark_failed(&mut self, error: String)
        ensures
            final(self).completed_at is Some,
            marked_failed(*old(self), *final(self), error, final(self).completed_at->0),
            old(self).wf() ==> final(self).wf(),
    {
        self.status = LogStatus::Failed;
        self.error_message = Some(error);
        self.stamp_completion();
    }
}

impl LogStore {
    /// Records that `processed` of `total` items are done: the counts, the
    /// percentage `processed / max(total, 1) * 100`, and, when a start time
    /// exists, the rate `processed / max(whole seconds since start, 1)` as of
    /// now.
    pub fn update_progress(&mut self, processed: usize, total: usize)
        ensures
            final(self).processed_items == Some(processed),
            final(self).total_items == Some(total),
            final(self).progress_percentage == Some(percentage_of(processed, total)),
            final(self).progress_percentage->0.denominator >= 1,
            old(self).started_at is None ==> final(self).items_per_second == old(self).items_per_second,
            old(self).started_at is Some ==> exists|now: i64|
                final(self).items_per_second == Some(
                    Ratio {
                        numerator: processed as u128,
                        denominator: whole_seconds_at_least_one(old(self).started_at->0, now),
                    },
                ),
            *final(self) == (LogStore {
                processed_items: Some(processed),
                total_items: Some(total),
                progress_percentage: Some(percentage_of(processed, total)),
                items_per_second: final(self).items_per_second,
                ..*old(self)
            }),
            old(self).wf() ==> final(self).wf(),
    {
        self.processed_items = Some(processed);
        self.total_items = Some(total);
        let denominator: u64 = if total == 0 { 1 } else { total as u64 };
        self.progress_percentage = Some(Ratio { numerator: processed as u128 * 100, denominator });
        match self.started_at {
            Some(start) => {
                let now = now_millis();
                let gap: i128 = now as i128 - start as i128;
                let seconds: u64 = if gap >= 1000 { (gap / 1000) as u64 } else { 1 };
                self.items_per_second = Some(Ratio { numerator: processed as u128, denominator: seconds });
                assert(seconds == whole_seconds_at_least_one(start, now));
            },
            None => {},
        }
    }

    /// Adds a classification tag.
    pub fn add_tag(&mut self, tag: String)
        ensures
            final(self).tags@ == old(self).tags@.push(tag),
            *final(self) == (LogStore { tags: final(self).tags, ..*old(self) }),
            old(self).wf() ==> final(self).wf(),
    {
        self.tags.push(tag);
    }

    /// Replaces the free-form metadata.
    pub fn set_metadata(&mut self, metadata: serde_json::Value)
        ensures
            *final(self) == (LogStore { metadata, ..*old(self) }),
            old(self).wf() ==> final(self).wf(),
    {
        self.metadata = metadata;
    }

    /// Replaces the source and destination locations.
    pub fn set_source_destination(&mut self, source: Option<String>, destination: Option<String>)
        ensures
            *final(self) == (LogStore { source_uri: source, destination_uri: destination, ..*old(self) }),
            old(self).wf() ==> final(self).wf(),
    {
        self.source_uri = source;
        self.destination_uri = destination;
    }
}

/// The SQL that creates the table in which records are persisted, unless it
/// exists already.
pub fn create_table_sql() -> (r: String)
    ensures
        r@ == etl_logs_table_sql(),
{
    String::from_str(
        r#"
    CREATE TABLE IF NOT EXISTS etl_logs (
        id TEXT PRIMARY KEY,
        parent_id TEXT,
        operation TEXT NOT NULL,
        operation_type TEXT NOT NULL,
        status TEXT NOT NULL,
        error_message TEXT,
        created_at TEXT NOT NULL,
        started_at TEXT,
        completed_at TEXT,
        elapsed_ms INTEGER,
        total_items INTEGER,
        processed_items INTEGER,
        progress_percentage REAL,
        items_per_second REAL,
        memory_usage_mb REAL,
        source_uri TEXT,
        destination_uri TEXT,
        metadata TEXT,
        tags TEXT,
        hostname TEXT,
        process_id INTEGER
    )
    "#,
    )
}

/// Marking an operation completed after marking it in progress records as
/// elapsed time exactly the milliseconds between the two marks, never a
/// negative amount: the difference of the two stamps when the clock moved
/// forward, zero when it went back.
pub proof fn lemma_elapsed_is_gap(
    s0: LogStore,
    s1: LogStore,
    s2: LogStore,
    started: i64,
    completed: i64,
)
    requires
        marked_in_progress(s0, s1, started),
        marked_completed(s1, s2, completed),
    ensures
        s2.elapsed_ms == Some(gap_ms(started, completed)),
        completed >= started ==> s2.elapsed_ms->0 == completed - started,
        s2.status == LogStatus::Completed,
{
}

/// A failure marked after the operation was put in progress records the
/// milliseconds between the two marks in the same way, and keeps the error.
pub proof fn lemma_failure_elapsed_is_gap(
    s0: LogStore,
    s1: LogStore,
    s2: LogStore,
    message: String,
    started: i64,
    failed: i64,
)
    requires
        marked_in_progress(s0, s1, started),
        marked_failed(s1, s2, message, failed),
    ensures
        s2.elapsed_ms == Some(gap_ms(started, failed)),
        failed >= started ==> s2.elapsed_ms->0 == failed - started,
        s2.status == LogStatus::Failed,
        s2.error_message == Some(message),
{
}

} // verus!
