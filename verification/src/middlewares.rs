//! Request instrumentation middleware.
//!
//! Every inbound request is wrapped: its method, path and timing are
//! recorded, its outcome is classified by HTTP status, and one structured
//! log record is produced.  Telemetry is never load-bearing: whatever happens
//! to the emission of that record, the response handed back to the caller is
//! the downstream response, unchanged.

use vstd::prelude::*;

use crate::handlers::ResponseParts;

verus! {

/// Severity of a structured log record.
#[derive(Clone, Copy, PartialEq, Eq, Structural, Debug)]
pub enum Severity {
    Debug,
    Info,
    Error,
}

/// An HTTP status lies in the success range.
pub open spec fn is_success_status(status: u16) -> bool {
    200 <= status < 300
}

/// Runtime test for the success range of an HTTP status.
pub fn status_is_success(status: u16) -> (r: bool)
    ensures
        r == is_success_status(status),
{
    200 <= status && status < 300
}

/// Everything observed about one request while it was in flight.
pub struct RequestRecord {
    pub method: String,
    pub path: String,
    pub started_at_ms: u64,
    pub status: u16,
    pub elapsed_ms: u64,
}

/// One structured log record describing a completed request.
///
/// The status field is filled only for failures, as the log line for a
/// successful request does not repeat its status.
pub struct LogRecord {
    pub severity: Severity,
    pub method: String,
    pub path: String,
    pub elapsed_ms: u64,
    pub status: Option<u16>,
}

/// Elapsed time between two millisecond timestamps, clamped at zero if the
/// clock ran backwards.
pub open spec fn spec_elapsed_ms(started_at_ms: u64, finished_at_ms: u64) -> u64 {
    if finished_at_ms >= started_at_ms {
        (finished_at_ms - started_at_ms) as u64
    } else {
        0
    }
}

/// Severity of the log record for a request that finished with `status`.
pub open spec fn spec_outcome_severity(status: u16) -> Severity {
    if is_success_status(status) {
        Severity::Info
    } else {
        Severity::Error
    }
}

/// Close the instrumentation of one request: compute its elapsed time,
/// classify its outcome, and produce the request record together with the
/// one structured log record the middleware emits for it.
pub fn track_time(
    method: String,
    path: String,
    started_at_ms: u64,
    finished_at_ms: u64,
    status: u16,
) -> (r: (RequestRecord, LogRecord))
    ensures
        r.0.method@ == method@,
        r.0.path@ == path@,
        r.0.started_at_ms == started_at_ms,
        r.0.status == status,
        r.0.elapsed_ms == spec_elapsed_ms(started_at_ms, finished_at_ms),
        r.1.severity == spec_outcome_severity(status),
        r.1.method@ == method@,
        r.1.path@ == path@,
        r.1.elapsed_ms == spec_elapsed_ms(started_at_ms, finished_at_ms),
        r.1.status == (if is_success_status(status) {
            Option::<u16>::None
        } else {
            Option::<u16>::Some(status)
        }),
{
    let elapsed_ms: u64 = if finished_at_ms >= started_at_ms {
        finished_at_ms - started_at_ms
    } else {
        0
    };
    let severity = if status_is_success(status) {
        Severity::Info
    } else {
        Severity::Error
    };
    let log_status = if status_is_success(status) {
        None
    } else {
        Some(status)
    };
    let record = RequestRecord {
        method: method.clone(),
        path: path.clone(),
        started_at_ms,
        status,
        elapsed_ms,
    };
    let log = LogRecord { severity, method, path, elapsed_ms, status: log_status };
    (record, log)
}

/// Settle a request after its telemetry was (or was not) emitted.
///
/// The response is returned unchanged whatever the emission outcome; a
/// failed emission yields only a low-severity diagnostic note in its place.
pub fn on_emission_outcome(
    response: ResponseParts,
    emitted: bool,
    method: String,
    path: String,
) -> (r: (ResponseParts, Option<LogRecord>))
    ensures
        r.0.status == response.status,
        r.0.body@ == response.body@,
        emitted ==> r.1 is None,
        !emitted ==> (r.1 matches Some(note) && note.severity == Severity::Debug
            && note.method@ == method@ && note.path@ == path@ && note.status is None),
{
    if emitted {
        (response, None)
    } else {
        let note = LogRecord {
            severity: Severity::Debug,
            method,
            path,
            elapsed_ms: 0,
            status: None,
        };
        (response, Some(note))
    }
}

} // verus!
