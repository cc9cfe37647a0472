//! Per-query instrumentation: a scoped observer created right before a
//! query executes. When logging is enabled it records the query text and
//! start time; finishing it yields the log record — the query text and the
//! elapsed milliseconds. The trivial probe query used for liveness checks
//! is exempt, to avoid noise and recursion.

use vstd::prelude::*;

verus! {

#[verifier::external_type_specification]
#[verifier::external_body]
pub struct ExInstant(std::time::Instant);

/// The trivial probe query used for liveness checks; it is never logged
/// and never explained.
pub open spec fn spec_probe_query() -> Seq<char> {
    "SELECT 1"@
}

/// Relies on str's `==`: character-for-character equality of two strings.
#[verifier::external_body]
pub fn str_eq(a: &str, b: &str) -> (r: bool)
    ensures
        r == (a@ == b@),
{
    a == b
}

/// Relies on std::time::Instant::now: a reading of the monotonic clock.
#[verifier::external_body]
fn instant_now() -> (t: std::time::Instant) {
    std::time::Instant::now()
}

/// Relies on std::time::Instant::elapsed: the time since this reading.
#[verifier::external_body]
fn instant_elapsed(t: &std::time::Instant) -> (d: core::time::Duration) {
    t.elapsed()
}

/// Relies on core::time::Duration::as_secs: the whole seconds of the span.
#[verifier::external_body]
fn duration_secs(d: &core::time::Duration) -> (s: u64) {
    d.as_secs()
}

/// Relies on core::time::Duration::subsec_nanos: the fractional part in
/// nanoseconds, below one second.
#[verifier::external_body]
fn duration_subsec_nanos(d: &core::time::Duration) -> (n: u32)
    ensures
        n < 1000000000,
{
    d.subsec_nanos()
}

/// A time span in milliseconds: whole seconds at a thousand each plus the
/// milliseconds of the fraction, saturating at the largest representable
/// value.
pub open spec fn spec_duration_ms(secs: u64, nanos: u32) -> u64 {
    if secs * 1000 + nanos as int / 1000000 > u64::MAX {
        u64::MAX
    } else {
        (secs * 1000 + nanos as int / 1000000) as u64
    }
}

/// Milliseconds of a span given as whole seconds and fractional
/// nanoseconds.
pub fn get_duration_millisecond(secs: u64, nanos: u32) -> (ms: u64)
    ensures
        ms == spec_duration_ms(secs, nanos),
{
    let frac: u64 = (nanos / 1000000) as u64;
    match secs.checked_mul(1000) {
        Some(base) => base.saturating_add(frac),
        None => u64::MAX,
    }
}

/// A record emitted when an observed query finishes: its text and its cost
/// in milliseconds.
pub struct LogRecord {
    pub query: String,
    pub cost_ms: u64,
}

/// The scoped observer. An inactive observer — logging off, or the probe
/// query — costs nothing and emits nothing.
pub struct QueryLogger {
    query: Option<String>,
    started: Option<std::time::Instant>,
}

impl QueryLogger {
    /// Whether this observer will emit a record.
    pub closed spec fn active(&self) -> bool {
        self.started is Some
    }

    /// The text the observer records.
    pub closed spec fn query_text(&self) -> Seq<char> {
        match self.query {
            Some(q) => q@,
            None => Seq::empty(),
        }
    }

    /// Observes one query: active exactly when logging is on and the query
    /// is not the probe query.
    pub fn new(query: &str, is_log: bool) -> (l: QueryLogger)
        ensures
            l.active() <==> (is_log && query@ != spec_probe_query()),
            l.active() ==> l.query_text() == query@,
    {
        if str_eq(query, "SELECT 1") {
            QueryLogger { query: None, started: None }
        } else if is_log {
            QueryLogger { query: Some(query.to_owned()), started: Some(instant_now()) }
        } else {
            QueryLogger { query: None, started: None }
        }
    }

    /// Finishes the observation: an active observer emits exactly one
    /// record carrying the query text it recorded; an inactive one emits
    /// nothing.
    pub fn finish(self) -> (r: Option<LogRecord>)
        ensures
            r is Some <==> self.active(),
            r matches Some(rec) ==> rec.query@ == self.query_text(),
    {
        match self.started {
            Some(st) => {
                let d = instant_elapsed(&st);
                let ms = get_duration_millisecond(duration_secs(&d), duration_subsec_nanos(&d));
                let q = match self.query {
                    Some(q) => q,
                    None => String::new(),
                };
                Some(LogRecord { query: q, cost_ms: ms })
            },
            None => None,
        }
    }
}

} // verus!
