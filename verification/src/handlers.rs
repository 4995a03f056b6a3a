//! The two request handlers, reduced to their decision content.
//!
//! Each handler returns a success status and a fixed body shape, and bumps
//! its route's counter exactly once.  The ambient trace context is consumed
//! through a trusted accessor; everything built from its result is verified.

use vstd::prelude::*;

use crate::metrics::Metrics;
use crate::metrics::RequestCounters;
use crate::text::contains_seq;

verus! {

/// Relies on
/// `tracing_opentelemetry_instrumentation_sdk::find_current_trace_id`: the
/// trace identifier of the ambient span context, if a valid one is current;
/// a returned identifier is the 32-digit hexadecimal form of the trace id.
#[verifier::external_body]
fn current_trace_id() -> (r: Option<String>)
    ensures
        r matches Some(id) ==> id@.len() == 32,
{
    tracing_opentelemetry_instrumentation_sdk::find_current_trace_id()
}

/// The verified shape of an HTTP response: its status and its body text.
pub struct ResponseParts {
    pub status: u16,
    pub body: String,
}

/// Body of an index response carrying the given trace identifier, if any.
pub open spec fn index_body_view(trace_id: Option<Seq<char>>) -> Seq<char> {
    match trace_id {
        Some(id) => "{\"trace_id\":\""@ + id + "\"}"@,
        None => "{\"trace_id\":\""@ + "unknown"@ + "\"}"@,
    }
}

/// Body of every health response.
pub open spec fn health_body_view() -> Seq<char> {
    "{\"status\":\"UP\"}"@
}

/// Build the index response for a known trace-context lookup result.
pub fn index_response(trace_id: Option<String>) -> (r: ResponseParts)
    ensures
        r.status == 200,
        r.body@ == index_body_view(trace_id.deep_view()),
{
    let mut body = String::from_str("{\"trace_id\":\"");
    match &trace_id {
        Some(id) => body.append(id.as_str()),
        None => body.append("unknown"),
    }
    body.append("\"}");
    ResponseParts { status: 200, body }
}

/// Build the health response.
pub fn health_response() -> (r: ResponseParts)
    ensures
        r.status == 200,
        r.body@ == health_body_view(),
{
    ResponseParts { status: 200, body: String::from_str("{\"status\":\"UP\"}") }
}

/// Serve one index request: consume the ambient trace context, emit and
/// count one index increment, and answer with a success status and a body
/// naming the trace identifier.
pub fn index(metrics: &Metrics, counters: &mut RequestCounters) -> (r: ResponseParts)
    requires
        old(counters).index_total < u64::MAX,
    ensures
        r.status == 200,
        final(counters).index_total == old(counters).index_total + 1,
        final(counters).health_total == old(counters).health_total,
        exists|t: Option<Seq<char>>| r.body@ == index_body_view(t),
        contains_seq(r.body@, "trace_id"@),
{
    let trace_id = current_trace_id();
    metrics.emit_index();
    counters.record_index();
    let ghost t = trace_id.deep_view();
    let r = index_response(trace_id);
    proof {
        lemma_index_body_has_trace_field(t);
    }
    r
}

/// Serve one health request: emit and count one health increment, and
/// answer with a success status and the health body.
pub fn health(metrics: &Metrics, counters: &mut RequestCounters) -> (r: ResponseParts)
    requires
        old(counters).health_total < u64::MAX,
    ensures
        r.status == 200,
        final(counters).health_total == old(counters).health_total + 1,
        final(counters).index_total == old(counters).index_total,
        r.body@ == health_body_view(),
        contains_seq(r.body@, "UP"@),
{
    metrics.emit_health();
    counters.record_health();
    let r = health_response();
    proof {
        lemma_health_body_reports_up();
    }
    r
}

/// Whatever the trace-context lookup returned, the index body names its
/// trace identifier field.
pub proof fn lemma_index_body_has_trace_field(trace_id: Option<Seq<char>>)
    ensures
        contains_seq(index_body_view(trace_id), "trace_id"@),
{
    reveal_strlit("{\"trace_id\":\"");
    reveal_strlit("trace_id");
    let hay = index_body_view(trace_id);
    let needle = "trace_id"@;
    assert(hay.subrange(2, 2 + needle.len() as int) =~= needle);
}

/// The health body reports status `UP`.
pub proof fn lemma_health_body_reports_up()
    ensures
        contains_seq(health_body_view(), "UP"@),
{
    reveal_strlit("{\"status\":\"UP\"}");
    reveal_strlit("UP");
    let needle = "UP"@;
    assert(health_body_view().subrange(11, 11 + needle.len() as int) =~= needle);
}

} // verus!
