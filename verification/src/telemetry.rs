use vstd::prelude::*;
use std::collections::HashMap;
use std::time::Instant;
use crate::error::{ConstellationError, ErrorCategory, ErrorSeverity};
use crate::ident::{NodeId, new_uuid, uuid_hyphenated, uuid_text};
use crate::text::same_text;

verus! {

broadcast use vstd::std_specs::hash::group_hash_axioms;

/// A point of the monotonic clock of std.
#[verifier::external_type_specification]
#[verifier::external_body]
pub struct ExInstant(std::time::Instant);

/// The monotonic clock now, from `std::time::Instant::now`. Nothing is
/// claimed of the value: it depends on when the call is made.
#[verifier::external_body]
fn clock_now() -> Instant {
    Instant::now()
}

/// Whole microseconds since `start`, from `Instant::elapsed` and
/// `Duration::as_micros`, cut to 64 bits. Nothing is claimed of the value:
/// it depends on when the call is made.
#[verifier::external_body]
fn micros_since(start: &Instant) -> u64 {
    start.elapsed().as_micros() as u64
}

/// Milliseconds since the Unix epoch by the wall clock, from
/// `SystemTime::now().duration_since(UNIX_EPOCH)` (zero for a clock set
/// before the epoch), cut to 64 bits. Nothing is claimed of the value.
#[verifier::external_body]
fn unix_millis() -> u64 {
    std::time::SystemTime::now().duration_since(std::time::UNIX_EPOCH).unwrap_or_default().as_millis() as u64
}

/// The name under which errors of this library are counted: the path of
/// the error type.
pub open spec fn error_type_path() -> Seq<char> {
    "constellation::error::ConstellationError"@
}

/// The last `n` items of `s` (all of them when there are fewer).
pub open spec fn keep_last<T>(s: Seq<T>, n: nat) -> Seq<T> {
    if s.len() > n {
        s.subrange(s.len() - n, s.len() as int)
    } else {
        s
    }
}

/// Append `x` and, once the list is longer than `cap`, drop the oldest item.
pub open spec fn push_capped<T>(s: Seq<T>, x: T, cap: nat) -> Seq<T> {
    if s.len() + 1 > cap {
        s.push(x).drop_first()
    } else {
        s.push(x)
    }
}

/// A bounded history stays bounded: appending to a list of at most `cap`
/// items (with `cap` positive) keeps at most `cap` items, the new item last
/// and the others in their order.
pub proof fn lemma_push_capped_bounded<T>(s: Seq<T>, x: T, cap: nat)
    requires
        s.len() <= cap,
        cap > 0,
    ensures
        push_capped(s, x, cap).len() <= cap,
        push_capped(s, x, cap).last() == x,
        push_capped(s, x, cap).drop_last() =~= (if s.len() == cap {
            s.drop_first()
        } else {
            s
        }),
{
}

/// The event log keeps the newest `n` events in their order: the kept list
/// is a suffix of what was recorded, of length the smaller of the two.
pub proof fn lemma_keep_last_suffix<T>(s: Seq<T>, n: nat)
    ensures
        keep_last(s, n).len() == (if s.len() > n {
            n
        } else {
            s.len()
        }),
        forall|i: int| 0 <= i < keep_last(s, n).len() ==> #[trigger] keep_last(s, n)[i] == s[s.len() - keep_last(
            s,
            n,
        ).len() + i],
{
}

/// Importance of a log event.
#[derive(Debug, Clone, Copy, PartialEq, Eq, Structural)]
pub enum LogLevel {
    Trace,
    Debug,
    Info,
    Warn,
    Error,
    Critical,
}

/// Area of the system a log event concerns.
#[derive(Debug, Clone, Copy, PartialEq, Eq, Structural)]
pub enum LogCategory {
    System,
    Engine,
    Node,
    Frame,
    Resource,
    Network,
    Hardware,
    Security,
    Performance,
    User,
}

/// A value attached to an event: a text or a flag.
#[derive(Debug, Clone)]
pub enum ContextValue {
    Text(String),
    Flag(bool),
}

/// A structured log event; the timestamp is in milliseconds since the Unix epoch.
#[derive(Debug, Clone)]
pub struct LogEvent {
    pub timestamp: u64,
    pub level: LogLevel,
    pub category: LogCategory,
    pub message: String,
    pub context: Vec<(String, ContextValue)>,
    pub session_id: NodeId,
    pub node_id: Option<NodeId>,
    pub correlation_id: Option<NodeId>,
}

/// An error as the tracker keeps it.
#[derive(Debug, Clone)]
pub struct TrackedError {
    pub timestamp: u64,
    pub error_type: String,
    pub message: String,
    pub severity: ErrorSeverity,
    pub category: ErrorCategory,
    pub context: Vec<(String, ContextValue)>,
    pub node_id: Option<NodeId>,
    pub stack_trace: Option<String>,
}

/// A recurring error text and when it was seen.
#[derive(Debug)]
pub struct ErrorPattern {
    pub pattern: String,
    pub count: u64,
    pub first_seen: Instant,
    pub last_seen: Instant,
}

/// A bounded buffer of log events: it keeps the newest `max_buffer_size`.
#[derive(Debug)]
pub struct EventLogger {
    buffer: Vec<LogEvent>,
    max_buffer_size: usize,
}

impl EventLogger {
    /// The events kept, oldest first.
    pub closed spec fn spec_events(&self) -> Seq<LogEvent> {
        self.buffer@
    }

    /// How many events are kept at most.
    pub closed spec fn spec_capacity(&self) -> nat {
        self.max_buffer_size as nat
    }

    /// An empty buffer that keeps up to `max_buffer_size` events.
    pub fn new(max_buffer_size: usize) -> (l: Self)
        ensures
            l.spec_events() == Seq::<LogEvent>::empty(),
            l.spec_capacity() == max_buffer_size,
    {
        EventLogger { buffer: Vec::new(), max_buffer_size }
    }

    /// Append `event`, dropping the oldest events beyond the capacity.
    pub fn record_event(&mut self, event: LogEvent)
        ensures
            final(self).spec_events() == keep_last(old(self).spec_events().push(event), old(self).spec_capacity()),
            final(self).spec_capacity() == old(self).spec_capacity(),
    {
        let ghost full = self.buffer@.push(event);
        self.buffer.push(event);
        while self.buffer.len() > self.max_buffer_size
            invariant
                self.buffer@.len() <= full.len(),
                self.buffer@ == full.subrange(full.len() - self.buffer@.len(), full.len() as int),
                self.max_buffer_size == old(self).max_buffer_size,
                full.len() > self.max_buffer_size ==> self.buffer@.len() >= self.max_buffer_size,
                full.len() <= self.max_buffer_size ==> self.buffer@.len() == full.len(),
            decreases self.buffer@.len(),
        {
            self.buffer.remove(0);
            proof {
                assert(self.buffer@ =~= full.subrange(full.len() - self.buffer@.len(), full.len() as int));
            }
        }
        proof {
            assert(full.subrange(0, full.len() as int) =~= full);
        }
    }

    /// The events kept, oldest first.
    pub fn get_events(&self) -> (v: &Vec<LogEvent>)
        ensures
            v@ == self.spec_events(),
    {
        &self.buffer
    }
}

/// A span that has started and not yet ended.
#[derive(Debug)]
pub struct PerformanceSpan {
    pub id: NodeId,
    pub name: String,
    pub start_time: Instant,
    pub parent_id: Option<NodeId>,
    pub tags: Vec<(String, String)>,
}

/// A finished span; the duration is in microseconds, the start timestamp in
/// milliseconds since the Unix epoch.
#[derive(Debug)]
pub struct CompletedSpan {
    pub id: NodeId,
    pub name: String,
    pub duration_us: u64,
    pub start_timestamp: u64,
    pub parent_id: Option<NodeId>,
    pub tags: Vec<(String, String)>,
    pub events: Vec<SpanEvent>,
}

/// An event inside a span.
#[derive(Debug)]
pub struct SpanEvent {
    pub timestamp: u64,
    pub name: String,
    pub attributes: Vec<(String, ContextValue)>,
}

/// Open spans by identifier and the newest finished spans (at most 1000).
#[derive(Debug)]
pub struct PerformanceTracer {
    spans: HashMap<NodeId, PerformanceSpan>,
    completed_spans: Vec<CompletedSpan>,
}

/// How many finished spans are kept.
pub const MAX_COMPLETED_SPANS: usize = 1000;

impl PerformanceTracer {
    /// The open spans, by identifier.
    pub closed spec fn spec_open(&self) -> Map<NodeId, PerformanceSpan> {
        self.spans@
    }

    /// The finished spans kept, oldest first.
    pub closed spec fn spec_completed(&self) -> Seq<CompletedSpan> {
        self.completed_spans@
    }

    /// Each open span is filed under its own identifier.
    pub closed spec fn wf(&self) -> bool {
        forall|k: NodeId| #[trigger] self.spans@.contains_key(k) ==> self.spans@[k].id == k
    }

    /// No spans.
    pub fn new() -> (t: Self)
        ensures
            t.wf(),
            t.spec_open() == Map::<NodeId, PerformanceSpan>::empty(),
            t.spec_completed() == Seq::<CompletedSpan>::empty(),
    {
        PerformanceTracer { spans: HashMap::new(), completed_spans: Vec::new() }
    }

    /// Open a span under a fresh identifier, which is returned.
    pub fn start_span(&mut self, name: String, parent_id: Option<NodeId>, tags: Vec<(String, String)>) -> (id: NodeId)
        requires
            old(self).wf(),
        ensures
            final(self).wf(),
            final(self).spec_open().dom() == old(self).spec_open().dom().insert(id),
            final(self).spec_open()[id].id == id,
            final(self).spec_open()[id].name == name,
            final(self).spec_open()[id].parent_id == parent_id,
            final(self).spec_open()[id].tags == tags,
            forall|k: NodeId| k != id && old(self).spec_open().contains_key(k) ==> final(self).spec_open()[k] == old(self).spec_open()[k],
            final(self).spec_completed() == old(self).spec_completed(),
    {
        let span_id = new_uuid();
        let span = PerformanceSpan { id: span_id, name, start_time: clock_now(), parent_id, tags };
        self.spans.insert(span_id, span);
        span_id
    }

    /// Close the span `span_id`, if open: it moves to the finished spans with
    /// the time it took, and the oldest finished span goes once more than
    /// 1000 are kept. An unknown identifier changes nothing.
    pub fn end_span(&mut self, span_id: NodeId)
        requires
            old(self).wf(),
        ensures
            final(self).wf(),
            final(self).spec_open() == old(self).spec_open().remove(span_id),
            !old(self).spec_open().contains_key(span_id) ==> final(self).spec_completed() == old(self).spec_completed(),
            old(self).spec_open().contains_key(span_id) ==> {
                let c = final(self).spec_completed().last();
                &&& final(self).spec_completed() == push_capped(old(self).spec_completed(), c, MAX_COMPLETED_SPANS as nat)
                &&& c.id == span_id
                &&& c.name == old(self).spec_open()[span_id].name
                &&& c.parent_id == old(self).spec_open()[span_id].parent_id
                &&& c.tags == old(self).spec_open()[span_id].tags
                &&& c.events@.len() == 0
            },
    {
        let ghost open = self.spans@;
        match self.spans.remove(&span_id) {
            Some(span) => {
                assert(span == open[span_id]);
                let duration_us = micros_since(&span.start_time);
                let start_timestamp = unix_millis();
                let completed_span = CompletedSpan {
                    id: span.id,
                    name: span.name,
                    duration_us,
                    start_timestamp,
                    parent_id: span.parent_id,
                    tags: span.tags,
                    events: Vec::new(),
                };
                let ghost c = completed_span;
                self.completed_spans.push(completed_span);
                if self.completed_spans.len() > MAX_COMPLETED_SPANS {
                    self.completed_spans.remove(0);
                }
                assert(self.completed_spans@ == push_capped(old(self).completed_spans@, c, MAX_COMPLETED_SPANS as nat));
                assert(c.id == open[span_id].id && c.name == open[span_id].name);
                assert(c.events@.len() == 0);
            },
            None => {},
        }
    }

    /// Events inside a span are not kept: this changes nothing.
    pub fn add_span_event(&self, span_id: NodeId, name: String, attributes: Vec<(String, ContextValue)>) {
    }

    /// The finished spans kept, oldest first.
    pub fn get_completed_spans(&self) -> (v: &Vec<CompletedSpan>)
        ensures
            v@ == self.spec_completed(),
    {
        &self.completed_spans
    }
}

/// How many recent errors are kept.
pub const MAX_RECENT_ERRORS: usize = 100;

/// Error counts by type name and the newest errors (at most 100).
#[derive(Debug)]
pub struct ErrorTracker {
    error_counts: Vec<(String, u64)>,
    recent_errors: Vec<TrackedError>,
    error_patterns: Vec<ErrorPattern>,
}

/// The count recorded for `name` in an association list (0 when absent).
pub open spec fn count_of(counts: Seq<(String, u64)>, name: Seq<char>) -> u64
    decreases counts.len(),
{
    if counts.len() == 0 {
        0
    } else if counts.last().0@ == name {
        counts.last().1
    } else {
        count_of(counts.drop_last(), name)
    }
}

/// Each name occurs at most once in the association list.
pub open spec fn names_unique(counts: Seq<(String, u64)>) -> bool {
    forall|i: int, j: int| 0 <= i < j < counts.len() ==> (#[trigger] counts[i]).0@ != (#[trigger] counts[j]).0@
}

proof fn lemma_count_of_unique(counts: Seq<(String, u64)>, k: int)
    requires
        names_unique(counts),
        0 <= k < counts.len(),
    ensures
        count_of(counts, counts[k].0@) == counts[k].1,
    decreases counts.len(),
{
    if k < counts.len() - 1 {
        assert(counts.last().0@ != counts[k].0@);
        assert(counts.drop_last()[k] == counts[k]);
        lemma_count_of_unique(counts.drop_last(), k);
    }
}

proof fn lemma_count_of_absent(counts: Seq<(String, u64)>, name: Seq<char>)
    requires
        forall|i: int| 0 <= i < counts.len() ==> (#[trigger] counts[i]).0@ != name,
    ensures
        count_of(counts, name) == 0,
    decreases counts.len(),
{
    if counts.len() > 0 {
        assert(counts.last() == counts[counts.len() - 1]);
        lemma_count_of_absent(counts.drop_last(), name);
    }
}

proof fn lemma_count_of_update(counts: Seq<(String, u64)>, k: int, entry: (String, u64), other: Seq<char>)
    requires
        names_unique(counts),
        0 <= k < counts.len(),
        entry.0@ == counts[k].0@,
        other != counts[k].0@,
    ensures
        count_of(counts.update(k, entry), other) == count_of(counts, other),
    decreases counts.len(),
{
    if counts.len() > 0 {
        if k == counts.len() - 1 {
            assert(counts.update(k, entry).drop_last() =~= counts.drop_last());
        } else {
            assert(counts.update(k, entry).drop_last() =~= counts.drop_last().update(k, entry));
            assert(names_unique(counts.drop_last()));
            lemma_count_of_update(counts.drop_last(), k, entry, other);
        }
    }
}

impl ErrorTracker {
    /// How many errors of type `name` were recorded (counted modulo 2^64).
    pub closed spec fn spec_count(&self, name: Seq<char>) -> u64 {
        count_of(self.error_counts@, name)
    }

    /// The recent errors kept, oldest first.
    pub closed spec fn spec_recent(&self) -> Seq<TrackedError> {
        self.recent_errors@
    }

    /// The internal invariant: each type name is counted in one place.
    pub closed spec fn wf(&self) -> bool {
        names_unique(self.error_counts@)
    }

    /// No errors.
    pub fn new() -> (t: Self)
        ensures
            t.wf(),
            forall|name: Seq<char>| t.spec_count(name) == 0,
            t.spec_recent() == Seq::<TrackedError>::empty(),
    {
        ErrorTracker { error_counts: Vec::new(), recent_errors: Vec::new(), error_patterns: Vec::new() }
    }

    /// Count `error` under its type name and keep it among the recent errors,
    /// dropping the oldest once more than 100 are kept.
    pub fn record_error(&mut self, error: TrackedError)
        requires
            old(self).wf(),
        ensures
            final(self).wf(),
            final(self).spec_count(error.error_type@) == old(self).spec_count(error.error_type@).wrapping_add(1),
            forall|name: Seq<char>| name != error.error_type@ ==> final(self).spec_count(name) == old(self).spec_count(name),
            final(self).spec_recent() == push_capped(old(self).spec_recent(), error, MAX_RECENT_ERRORS as nat),
    {
        let ghost counts = self.error_counts@;
        let n = self.error_counts.len();
        let mut i: usize = 0;
        while i < n
            invariant
                n == self.error_counts@.len(),
                self.error_counts@ == counts,
                i <= n,
                forall|j: int| 0 <= j < i ==> (#[trigger] counts[j]).0@ != error.error_type@,
            ensures
                i <= n,
                forall|j: int| 0 <= j < i ==> (#[trigger] counts[j]).0@ != error.error_type@,
                i < n ==> counts[i as int].0@ == error.error_type@,
            decreases n - i,
        {
            if same_text(self.error_counts[i].0.as_str(), error.error_type.as_str()) {
                break;
            }
            i = i + 1;
        }
        if i < n {
            proof {
                lemma_count_of_unique(counts, i as int);
            }
            let name = self.error_counts[i].0.clone();
            let c = self.error_counts[i].1;
            let entry = (name, c.wrapping_add(1));
            let ghost e = entry;
            self.error_counts.set(i, entry);
            proof {
                assert(self.error_counts@ == counts.update(i as int, e));
                assert(names_unique(self.error_counts@)) by {
                    assert forall|a: int, b: int| 0 <= a < b < self.error_counts@.len() implies
                        (#[trigger] self.error_counts@[a]).0@ != (#[trigger] self.error_counts@[b]).0@ by {
                        assert(counts[a].0@ != counts[b].0@);
                    }
                }
                lemma_count_of_unique(self.error_counts@, i as int);
                assert forall|name: Seq<char>| name != error.error_type@ implies
                    count_of(self.error_counts@, name) == count_of(counts, name) by {
                    lemma_count_of_update(counts, i as int, e, name);
                }
            }
        } else {
            let entry = (error.error_type.clone(), 1u64);
            self.error_counts.push(entry);
            proof {
                lemma_count_of_absent(counts, error.error_type@);
                assert(self.error_counts@.drop_last() =~= counts);
                assert forall|name: Seq<char>| name != error.error_type@ implies
                    count_of(self.error_counts@, name) == count_of(counts, name) by {}
                assert(names_unique(self.error_counts@)) by {
                    assert forall|a: int, b: int| 0 <= a < b < self.error_counts@.len() implies
                        (#[trigger] self.error_counts@[a]).0@ != (#[trigger] self.error_counts@[b]).0@ by {
                        if b == counts.len() {
                            assert(counts[a].0@ != error.error_type@);
                        } else {
                            assert(counts[a].0@ != counts[b].0@);
                        }
                    }
                }
            }
        }
        self.recent_errors.push(error);
        if self.recent_errors.len() > MAX_RECENT_ERRORS {
            self.recent_errors.remove(0);
        }
    }

    /// The recent errors kept, oldest first.
    pub fn recent_errors(&self) -> (v: &Vec<TrackedError>)
        ensures
            v@ == self.spec_recent(),
    {
        &self.recent_errors
    }
}

/// How many utilisation samples are kept.
pub const MAX_GPU_SAMPLES: usize = 100;

/// Running counters of the session. Times are in microseconds; GPU
/// utilisation samples are in hundredths of a percent.
#[derive(Debug)]
pub struct MetricsCollector {
    pub frame_count: u64,
    pub error_count: u64,
    pub total_processing_time: u64,
    pub memory_usage_peak: u64,
    pub gpu_utilization_samples: Vec<u32>,
}

impl MetricsCollector {
    /// All counters at zero, no samples.
    pub fn new() -> (m: Self)
        ensures
            m.frame_count == 0 && m.error_count == 0 && m.total_processing_time == 0,
            m.memory_usage_peak == 0 && m.gpu_utilization_samples@.len() == 0,
    {
        MetricsCollector {
            frame_count: 0,
            error_count: 0,
            total_processing_time: 0,
            memory_usage_peak: 0,
            gpu_utilization_samples: Vec::new(),
        }
    }
}

/// Figures of the session; durations in microseconds except the average
/// frame time, in nanoseconds.
#[derive(Debug, Clone, Copy)]
pub struct SessionStats {
    pub session_id: NodeId,
    pub uptime_us: u64,
    pub frame_count: u64,
    pub error_count: u64,
    pub total_processing_time_us: u64,
    pub average_frame_time_ns: Option<u128>,
    pub memory_peak: u64,
}

/// The `Debug` name of a severity.
pub open spec fn severity_name(s: ErrorSeverity) -> Seq<char> {
    match s {
        ErrorSeverity::Info => "Info"@,
        ErrorSeverity::Warning => "Warning"@,
        ErrorSeverity::Error => "Error"@,
        ErrorSeverity::Critical => "Critical"@,
    }
}

/// The `Debug` name of a category.
pub open spec fn category_name(c: ErrorCategory) -> Seq<char> {
    match c {
        ErrorCategory::System => "System"@,
        ErrorCategory::Node => "Node"@,
        ErrorCategory::Frame => "Frame"@,
        ErrorCategory::Resource => "Resource"@,
        ErrorCategory::Hardware => "Hardware"@,
        ErrorCategory::Network => "Network"@,
        ErrorCategory::FileIo => "FileIo"@,
        ErrorCategory::Configuration => "Configuration"@,
        ErrorCategory::Platform => "Platform"@,
        ErrorCategory::Security => "Security"@,
        ErrorCategory::Unknown => "Unknown"@,
    }
}

/// The log level an error of severity `s` is logged at.
pub open spec fn level_of(s: ErrorSeverity) -> LogLevel {
    match s {
        ErrorSeverity::Critical => LogLevel::Critical,
        ErrorSeverity::Error => LogLevel::Error,
        ErrorSeverity::Warning => LogLevel::Warn,
        ErrorSeverity::Info => LogLevel::Info,
    }
}

/// The `Debug` name of a severity.
pub fn severity_text(s: ErrorSeverity) -> (t: String)
    ensures
        t@ == severity_name(s),
{
    match s {
        ErrorSeverity::Info => String::from_str("Info"),
        ErrorSeverity::Warning => String::from_str("Warning"),
        ErrorSeverity::Error => String::from_str("Error"),
        ErrorSeverity::Critical => String::from_str("Critical"),
    }
}

/// The `Debug` name of a category.
pub fn category_text(c: ErrorCategory) -> (t: String)
    ensures
        t@ == category_name(c),
{
    match c {
        ErrorCategory::System => String::from_str("System"),
        ErrorCategory::Node => String::from_str("Node"),
        ErrorCategory::Frame => String::from_str("Frame"),
        ErrorCategory::Resource => String::from_str("Resource"),
        ErrorCategory::Hardware => String::from_str("Hardware"),
        ErrorCategory::Network => String::from_str("Network"),
        ErrorCategory::FileIo => String::from_str("FileIo"),
        ErrorCategory::Configuration => String::from_str("Configuration"),
        ErrorCategory::Platform => String::from_str("Platform"),
        ErrorCategory::Security => String::from_str("Security"),
        ErrorCategory::Unknown => String::from_str("Unknown"),
    }
}

/// The text of a context entry.
pub open spec fn context_text(e: (String, ContextValue)) -> (Seq<char>, Option<Seq<char>>, Option<bool>) {
    match e.1 {
        ContextValue::Text(t) => (e.0@, Some(t@), None),
        ContextValue::Flag(b) => (e.0@, None, Some(b)),
    }
}

/// The error as the tracker keeps it.
pub open spec fn is_tracked_error(t: TrackedError, error: ConstellationError, node_id: Option<NodeId>, timestamp: u64) -> bool {
    &&& t.timestamp == timestamp
    &&& t.error_type@ == error_type_path()
    &&& t.message@ == error.spec_message()
    &&& t.severity == error.spec_severity()
    &&& t.category == error.spec_category()
    &&& t.context@.len() == 0
    &&& t.node_id == node_id
    &&& t.stack_trace is None
}

/// The log event written for an error.
pub open spec fn is_error_event(e: LogEvent, error: ConstellationError, node_id: Option<NodeId>, timestamp: u64, session_id: NodeId) -> bool {
    &&& e.timestamp == timestamp
    &&& e.level == level_of(error.spec_severity())
    &&& e.category == LogCategory::Engine
    &&& e.message@ == error.spec_user_message()
    &&& e.context@.map_values(|c: (String, ContextValue)| context_text(c)) =~= seq![
        ("error_type"@, Some(error_type_path()), None),
        ("severity"@, Some(severity_name(error.spec_severity())), None),
        ("category"@, Some(category_name(error.spec_category())), None),
        ("recoverable"@, None, Some(error.spec_is_recoverable())),
    ]
    &&& e.session_id == session_id
    &&& e.node_id == node_id
    &&& e.correlation_id is None
}

/// How many log events the telemetry keeps.
pub const EVENT_BUFFER_SIZE: usize = 1000;

/// Session telemetry: counters, a log of events, performance spans and
/// tracked errors.
pub struct TelemetryManager {
    metrics_collector: MetricsCollector,
    event_logger: EventLogger,
    performance_tracer: PerformanceTracer,
    error_tracker: ErrorTracker,
    session_id: NodeId,
    start_time: Instant,
}

/// The figures of a session from its counters and uptime.
pub open spec fn is_session_stats(
    st: SessionStats,
    m: MetricsCollector,
    session_id: NodeId,
    uptime_us: u64,
) -> bool {
    &&& st.session_id == session_id
    &&& st.uptime_us == uptime_us
    &&& st.frame_count == m.frame_count
    &&& st.error_count == m.error_count
    &&& st.total_processing_time_us == m.total_processing_time
    &&& st.average_frame_time_ns == (if m.frame_count > 0 {
        Some(((m.total_processing_time as nat * 1000) / ((m.frame_count as u32) as nat)) as u128)
    } else {
        None::<u128>
    })
    &&& st.memory_peak == m.memory_usage_peak
}

/// What recording `error` as of `ts` does to the telemetry `a`, giving `b`.
pub open spec fn is_recorded_error(a: TelemetryManager, b: TelemetryManager, error: ConstellationError, node_id: Option<NodeId>, ts: u64) -> bool {
    &&& exists|t: TrackedError| #[trigger] is_tracked_error(t, error, node_id, ts)
        && b.spec_recent_errors() == push_capped(a.spec_recent_errors(), t, MAX_RECENT_ERRORS as nat)
    &&& b.spec_error_count(error_type_path()) == a.spec_error_count(error_type_path()).wrapping_add(1)
    &&& forall|name: Seq<char>| name != error_type_path() ==> b.spec_error_count(name) == a.spec_error_count(name)
    &&& exists|e: LogEvent| #[trigger] is_error_event(e, error, node_id, ts, a.spec_session_id())
        && b.spec_events() == keep_last(a.spec_events().push(e), EVENT_BUFFER_SIZE as nat)
    &&& b.spec_metrics().error_count == a.spec_metrics().error_count.wrapping_add(1)
    &&& b.spec_metrics().frame_count == a.spec_metrics().frame_count
    &&& b.spec_metrics().total_processing_time == a.spec_metrics().total_processing_time
    &&& b.spec_metrics().memory_usage_peak == a.spec_metrics().memory_usage_peak
    &&& b.spec_metrics().gpu_utilization_samples == a.spec_metrics().gpu_utilization_samples
    &&& b.spec_session_id() == a.spec_session_id()
    &&& b.spec_open_spans() == a.spec_open_spans()
    &&& b.spec_completed_spans() == a.spec_completed_spans()
}

impl TelemetryManager {
    /// The counters.
    pub closed spec fn spec_metrics(&self) -> MetricsCollector {
        self.metrics_collector
    }

    /// The session identifier.
    pub closed spec fn spec_session_id(&self) -> NodeId {
        self.session_id
    }

    /// The log events kept, oldest first.
    pub closed spec fn spec_events(&self) -> Seq<LogEvent> {
        self.event_logger.spec_events()
    }

    /// The recent errors kept, oldest first.
    pub closed spec fn spec_recent_errors(&self) -> Seq<TrackedError> {
        self.error_tracker.spec_recent()
    }

    /// How many errors of type `name` were recorded.
    pub closed spec fn spec_error_count(&self, name: Seq<char>) -> u64 {
        self.error_tracker.spec_count(name)
    }

    /// The open spans.
    pub closed spec fn spec_open_spans(&self) -> Map<NodeId, PerformanceSpan> {
        self.performance_tracer.spec_open()
    }

    /// The finished spans kept.
    pub closed spec fn spec_completed_spans(&self) -> Seq<CompletedSpan> {
        self.performance_tracer.spec_completed()
    }

    /// The internal invariant.
    pub closed spec fn wf(&self) -> bool {
        &&& self.error_tracker.wf()
        &&& self.performance_tracer.wf()
        &&& self.event_logger.spec_capacity() == EVENT_BUFFER_SIZE
    }

    /// A new session with a fresh identifier and nothing recorded.
    pub fn new() -> (t: Self)
        ensures
            t.wf(),
            t.spec_metrics().frame_count == 0 && t.spec_metrics().error_count == 0,
            t.spec_metrics().total_processing_time == 0 && t.spec_metrics().memory_usage_peak == 0,
            t.spec_metrics().gpu_utilization_samples@.len() == 0,
            t.spec_events().len() == 0,
            t.spec_recent_errors().len() == 0,
            forall|name: Seq<char>| t.spec_error_count(name) == 0,
            t.spec_open_spans().dom().is_empty(),
            t.spec_completed_spans().len() == 0,
    {
        let session_id = new_uuid();
        TelemetryManager {
            metrics_collector: MetricsCollector::new(),
            event_logger: EventLogger::new(EVENT_BUFFER_SIZE),
            performance_tracer: PerformanceTracer::new(),
            error_tracker: ErrorTracker::new(),
            session_id,
            start_time: clock_now(),
        }
    }

    /// Open a span for processing frame `frame_id`, tagged with its identifier.
    pub fn start_frame_processing(&mut self, frame_id: NodeId) -> (id: NodeId)
        requires
            old(self).wf(),
        ensures
            final(self).wf(),
            final(self).spec_open_spans().dom() == old(self).spec_open_spans().dom().insert(id),
            final(self).spec_open_spans()[id].name@ == "frame_processing"@,
            final(self).spec_open_spans()[id].parent_id is None,
            final(self).spec_open_spans()[id].tags@.map_values(|t: (String, String)| (t.0@, t.1@))
                =~= seq![("frame_id"@, uuid_hyphenated(frame_id))],
            forall|k: NodeId| k != id && old(self).spec_open_spans().contains_key(k)
                ==> final(self).spec_open_spans()[k] == old(self).spec_open_spans()[k],
            final(self).spec_completed_spans() == old(self).spec_completed_spans(),
            final(self).spec_metrics() == old(self).spec_metrics(),
            final(self).spec_events() == old(self).spec_events(),
    {
        let tags = vec![(String::from_str("frame_id"), uuid_text(frame_id))];
        self.performance_tracer.start_span(String::from_str("frame_processing"), None, tags)
    }

    /// Open a span for processing node `node_id` of type `node_type` under
    /// `parent_span`, tagged with both.
    pub fn start_node_processing(&mut self, node_id: NodeId, node_type: &str, parent_span: Option<NodeId>) -> (id: NodeId)
        requires
            old(self).wf(),
        ensures
            final(self).wf(),
            final(self).spec_open_spans().dom() == old(self).spec_open_spans().dom().insert(id),
            final(self).spec_open_spans()[id].name@ == "node_processing:"@ + node_type@,
            final(self).spec_open_spans()[id].parent_id == parent_span,
            final(self).spec_open_spans()[id].tags@.map_values(|t: (String, String)| (t.0@, t.1@))
                =~= seq![("node_id"@, uuid_hyphenated(node_id)), ("node_type"@, node_type@)],
            final(self).spec_completed_spans() == old(self).spec_completed_spans(),
            final(self).spec_metrics() == old(self).spec_metrics(),
            final(self).spec_events() == old(self).spec_events(),
    {
        let mut name = String::from_str("node_processing:");
        name.append(node_type);
        let tags = vec![
            (String::from_str("node_id"), uuid_text(node_id)),
            (String::from_str("node_type"), node_type.to_string()),
        ];
        self.performance_tracer.start_span(name, parent_span, tags)
    }

    /// Close a span opened by `start_frame_processing` or `start_node_processing`.
    pub fn end_span(&mut self, span_id: NodeId)
        requires
            old(self).wf(),
        ensures
            final(self).wf(),
            final(self).spec_open_spans() == old(self).spec_open_spans().remove(span_id),
            !old(self).spec_open_spans().contains_key(span_id) ==> final(self).spec_completed_spans()
                == old(self).spec_completed_spans(),
            old(self).spec_open_spans().contains_key(span_id) ==> {
                let c = final(self).spec_completed_spans().last();
                &&& final(self).spec_completed_spans() == push_capped(
                    old(self).spec_completed_spans(),
                    c,
                    MAX_COMPLETED_SPANS as nat,
                )
                &&& c.id == span_id
                &&& c.name == old(self).spec_open_spans()[span_id].name
            },
            final(self).spec_metrics() == old(self).spec_metrics(),
            final(self).spec_events() == old(self).spec_events(),
    {
        self.performance_tracer.end_span(span_id);
    }

    /// Record an error now: see `record_error_at`.
    pub fn record_error(&mut self, error: &ConstellationError, node_id: Option<NodeId>)
        requires
            old(self).wf(),
        ensures
            final(self).wf(),
            exists|ts: u64| #[trigger] is_recorded_error(*old(self), *final(self), *error, node_id, ts),
    {
        let timestamp = unix_millis();
        self.record_error_at(error, node_id, timestamp);
    }

    /// Record `error` (from node `node_id`, if any) as of `timestamp`
    /// milliseconds since the Unix epoch: the error tracker counts and keeps
    /// it, the event log gets an entry at the level of its severity, and the
    /// error counter goes up by one.
    pub fn record_error_at(&mut self, error: &ConstellationError, node_id: Option<NodeId>, timestamp: u64)
        requires
            old(self).wf(),
        ensures
            final(self).wf(),
            is_recorded_error(*old(self), *final(self), *error, node_id, timestamp),
    {
        let tracked_error = TrackedError {
            timestamp,
            error_type: String::from_str("constellation::error::ConstellationError"),
            message: error.message(),
            severity: error.severity(),
            category: error.category(),
            context: Vec::new(),
            node_id,
            stack_trace: None,
        };
        let ghost t = tracked_error;
        self.error_tracker.record_error(tracked_error);
        let severity = error.severity();
        let level = match severity {
            ErrorSeverity::Critical => LogLevel::Critical,
            ErrorSeverity::Error => LogLevel::Error,
            ErrorSeverity::Warning => LogLevel::Warn,
            ErrorSeverity::Info => LogLevel::Info,
        };
        let context = vec![
            (String::from_str("error_type"), ContextValue::Text(String::from_str("constellation::error::ConstellationError"))),
            (String::from_str("severity"), ContextValue::Text(severity_text(severity))),
            (String::from_str("category"), ContextValue::Text(category_text(error.category()))),
            (String::from_str("recoverable"), ContextValue::Flag(error.is_recoverable())),
        ];
        let log_event = LogEvent {
            timestamp,
            level,
            category: LogCategory::Engine,
            message: error.user_message(),
            context,
            session_id: self.session_id,
            node_id,
            correlation_id: None,
        };
        let ghost e = log_event;
        self.event_logger.record_event(log_event);
        self.metrics_collector.error_count = self.metrics_collector.error_count.wrapping_add(1);
        proof {
            assert(is_tracked_error(t, *error, node_id, timestamp));
            assert(is_error_event(e, *error, node_id, timestamp, old(self).spec_session_id()));
            assert(self.spec_recent_errors() == push_capped(old(self).spec_recent_errors(), t, MAX_RECENT_ERRORS as nat));
            assert(self.spec_events() == keep_last(old(self).spec_events().push(e), EVENT_BUFFER_SIZE as nat));
            assert(self.spec_error_count(error_type_path()) == old(self).spec_error_count(error_type_path()).wrapping_add(1));
            assert(forall|name: Seq<char>| name != error_type_path() ==> self.spec_error_count(name) == old(self).spec_error_count(name));
            assert(self.spec_metrics().error_count == old(self).spec_metrics().error_count.wrapping_add(1));
            assert(self.spec_open_spans() == old(self).spec_open_spans());
            assert(self.spec_metrics().gpu_utilization_samples == old(self).spec_metrics().gpu_utilization_samples);
            assert(self.spec_completed_spans() == old(self).spec_completed_spans());
            assert(self.spec_session_id() == old(self).spec_session_id());
        }
    }

    /// Count one processed frame that took `processing_us` microseconds
    /// (both counters wrap around at 2^64).
    pub fn record_frame_processed(&mut self, processing_us: u64)
        requires
            old(self).wf(),
        ensures
            final(self).wf(),
            final(self).spec_metrics().frame_count == old(self).spec_metrics().frame_count.wrapping_add(1),
            final(self).spec_metrics().total_processing_time == old(self).spec_metrics().total_processing_time.wrapping_add(processing_us),
            final(self).spec_metrics().error_count == old(self).spec_metrics().error_count,
            final(self).spec_metrics().memory_usage_peak == old(self).spec_metrics().memory_usage_peak,
            final(self).spec_metrics().gpu_utilization_samples == old(self).spec_metrics().gpu_utilization_samples,
            final(self).spec_events() == old(self).spec_events(),
    {
        self.metrics_collector.frame_count = self.metrics_collector.frame_count.wrapping_add(1);
        self.metrics_collector.total_processing_time =
            self.metrics_collector.total_processing_time.wrapping_add(processing_us);
    }

    /// Record the state of the system: the GPU utilisation sample (in
    /// hundredths of a percent) joins the newest 100, and the memory peak
    /// rises to `memory_usage` if that is higher.
    pub fn record_system_state(&mut self, memory_usage: u64, gpu_usage: u32)
        requires
            old(self).wf(),
        ensures
            final(self).wf(),
            final(self).spec_metrics().gpu_utilization_samples@ == push_capped(
                old(self).spec_metrics().gpu_utilization_samples@,
                gpu_usage,
                MAX_GPU_SAMPLES as nat,
            ),
            final(self).spec_metrics().memory_usage_peak == (if memory_usage > old(self).spec_metrics().memory_usage_peak {
                memory_usage
            } else {
                old(self).spec_metrics().memory_usage_peak
            }),
            final(self).spec_metrics().frame_count == old(self).spec_metrics().frame_count,
            final(self).spec_metrics().error_count == old(self).spec_metrics().error_count,
            final(self).spec_metrics().total_processing_time == old(self).spec_metrics().total_processing_time,
            final(self).spec_events() == old(self).spec_events(),
    {
        self.metrics_collector.gpu_utilization_samples.push(gpu_usage);
        if self.metrics_collector.gpu_utilization_samples.len() > MAX_GPU_SAMPLES {
            self.metrics_collector.gpu_utilization_samples.remove(0);
        }
        if memory_usage > self.metrics_collector.memory_usage_peak {
            self.metrics_collector.memory_usage_peak = memory_usage;
        }
    }

    /// The figures of the session as of now.
    pub fn get_session_stats(&self) -> (st: SessionStats)
        requires
            self.spec_metrics().frame_count == 0 || (self.spec_metrics().frame_count as u32) != 0,
        ensures
            exists|up: u64| #[trigger] is_session_stats(st, self.spec_metrics(), self.spec_session_id(), up),
    {
        let uptime = micros_since(&self.start_time);
        self.session_stats_at(uptime)
    }

    /// The figures of the session after `uptime_us` microseconds. The average
    /// frame time divides by the frame count cut to 32 bits, and the call
    /// requires that cut to be nonzero whenever frames were counted.
    pub fn session_stats_at(&self, uptime_us: u64) -> (st: SessionStats)
        requires
            self.spec_metrics().frame_count == 0 || (self.spec_metrics().frame_count as u32) != 0,
        ensures
            is_session_stats(st, self.spec_metrics(), self.spec_session_id(), uptime_us),
    {
        let m = &self.metrics_collector;
        let average_frame_time_ns = if m.frame_count > 0 {
            let div = m.frame_count as u32;
            Some((m.total_processing_time as u128 * 1000) / (div as u128))
        } else {
            None
        };
        SessionStats {
            session_id: self.session_id,
            uptime_us,
            frame_count: m.frame_count,
            error_count: m.error_count,
            total_processing_time_us: m.total_processing_time,
            average_frame_time_ns,
            memory_peak: m.memory_usage_peak,
        }
    }

    /// The number of frames recorded as processed (wrapping at 64 bits).
    pub fn processed_frame_count(&self) -> (n: u64)
        ensures
            n == self.spec_metrics().frame_count,
    {
        self.metrics_collector.frame_count
    }

    /// The log events kept, oldest first.
    pub fn get_events(&self) -> (v: &Vec<LogEvent>)
        ensures
            v@ == self.spec_events(),
    {
        self.event_logger.get_events()
    }

    /// The finished spans kept, oldest first.
    pub fn get_completed_spans(&self) -> (v: &Vec<CompletedSpan>)
        ensures
            v@ == self.spec_completed_spans(),
    {
        self.performance_tracer.get_completed_spans()
    }
}

} // verus!
