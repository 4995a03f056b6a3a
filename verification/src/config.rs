//! Configuration of the telemetry subsystem.
//!
//! One collector endpoint and one service identity feed all three export
//! pipelines; the cadences are configurable and default to the ranges the
//! subsystem is designed for.

use vstd::prelude::*;
use vstd::string::StrSliceExecFns;

verus! {

/// Default batch-age bound for the trace and log pipelines, in
/// milliseconds; within the one-to-five-second design range.
pub const DEFAULT_BATCH_INTERVAL_MS: u64 = 5000;

/// Default collect-and-push interval for the metric pipeline, in
/// milliseconds.
pub const DEFAULT_METRIC_INTERVAL_MS: u64 = 5000;

/// A usable collector endpoint: non-empty, carries a port separator, and
/// holds no spaces.
pub open spec fn valid_endpoint(s: Seq<char>) -> bool {
    &&& s.len() > 0
    &&& exists|i: int| 0 <= i < s.len() && s[i] == ':'
    &&& forall|i: int| 0 <= i < s.len() ==> s[i] != ' '
}

/// Runtime test for `valid_endpoint`.
pub fn endpoint_is_valid(s: &str) -> (r: bool)
    ensures
        r == valid_endpoint(s@),
{
    let n = s.unicode_len();
    let mut has_colon = false;
    let mut i: usize = 0;
    while i < n
        invariant
            n == s@.len(),
            0 <= i <= n,
            has_colon == exists|j: int| 0 <= j < i && s@[j] == ':',
            forall|j: int| 0 <= j < i ==> s@[j] != ' ',
        decreases n - i,
    {
        let c = s.get_char(i);
        if c == ' ' {
            return false;
        }
        if c == ':' {
            has_colon = true;
        }
        i = i + 1;
    }
    n > 0 && has_colon
}

/// Everything the signal provider factory needs: the one collector
/// endpoint, the service identity, and the export cadences.
pub struct TelemetryConfig {
    pub endpoint: String,
    pub service_name: String,
    pub trace_batch_interval_ms: u64,
    pub log_batch_interval_ms: u64,
    pub metric_interval_ms: u64,
    pub shutdown_timeout_ms: u64,
}

impl TelemetryConfig {
    /// A configuration for the given collector endpoint and service name,
    /// with every cadence at its default.
    pub fn new(endpoint: String, service_name: String) -> (c: TelemetryConfig)
        ensures
            c.endpoint@ == endpoint@,
            c.service_name@ == service_name@,
            c.trace_batch_interval_ms == DEFAULT_BATCH_INTERVAL_MS,
            c.log_batch_interval_ms == DEFAULT_BATCH_INTERVAL_MS,
            c.metric_interval_ms == DEFAULT_METRIC_INTERVAL_MS,
            c.shutdown_timeout_ms == crate::shutdown::DEFAULT_SHUTDOWN_TIMEOUT_MS,
            1000 <= c.trace_batch_interval_ms <= 5000,
            1000 <= c.log_batch_interval_ms <= 5000,
    {
        TelemetryConfig {
            endpoint,
            service_name,
            trace_batch_interval_ms: DEFAULT_BATCH_INTERVAL_MS,
            log_batch_interval_ms: DEFAULT_BATCH_INTERVAL_MS,
            metric_interval_ms: DEFAULT_METRIC_INTERVAL_MS,
            shutdown_timeout_ms: crate::shutdown::DEFAULT_SHUTDOWN_TIMEOUT_MS,
        }
    }
}

} // verus!
