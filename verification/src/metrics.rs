//! Metric counters for the two routes.
//!
//! `Metrics` owns the two monotonic instruments registered against the
//! process-wide meter provider; emission through them is opaque.  What the
//! rest of the library reasons about is `RequestCounters`, the totals the
//! instruments are expected to report: each handler call adds exactly one,
//! and the total after any interleaving of calls is the initial total plus
//! the number of calls, with none lost.

use vstd::prelude::*;

verus! {

/// Declares `opentelemetry::metrics::Meter`, the factory for instruments;
/// its values are opaque here and only carried between the trusted calls.
#[verifier::external_type_specification]
#[verifier::external_body]
pub struct ExMeter(opentelemetry::metrics::Meter);

/// Declares `opentelemetry::metrics::Counter`, the monotonic instrument;
/// its values are opaque here, and nothing of what they have accumulated
/// can be read back through them.
#[verifier::external_type_specification]
#[verifier::external_body]
#[verifier::reject_recursive_types(T)]
pub struct ExCounter<T>(opentelemetry::metrics::Counter<T>);

/// Relies on `opentelemetry::global::meter_with_scope`: a meter named by the
/// given instrumentation scope, backed by whichever meter provider is the
/// process-wide default at the time of the call.
#[verifier::external_body]
fn otel_meter(
    name: &str,
    version: &str,
    schema_url: &str,
    attr_key: &str,
    attr_value: &str,
) -> opentelemetry::metrics::Meter {
    let scope = opentelemetry::InstrumentationScope::builder(name.to_owned())
        .with_version(version.to_owned())
        .with_schema_url(schema_url.to_owned())
        .with_attributes(vec![
            opentelemetry::KeyValue::new(attr_key.to_owned(), attr_value.to_owned()),
        ])
        .build();
    opentelemetry::global::meter_with_scope(scope)
}

/// Relies on `opentelemetry::metrics::Meter::u64_counter`: a monotonic
/// 64-bit counter instrument with the given name and description.
#[verifier::external_body]
fn new_u64_counter(
    meter: &opentelemetry::metrics::Meter,
    name: &str,
    description: &str,
) -> opentelemetry::metrics::Counter<u64> {
    meter.u64_counter(name.to_owned()).with_description(description.to_owned()).build()
}

/// Relies on `opentelemetry::metrics::Counter::add`: records one increment
/// on the instrument; the measurement is buffered for periodic export and
/// nothing of it can be observed here.
#[verifier::external_body]
fn counter_add(counter: &opentelemetry::metrics::Counter<u64>, value: u64) {
    counter.add(value, &[]);
}

/// The two route instruments, bound to the process-wide meter provider.
pub struct Metrics {
    pub index_counter: opentelemetry::metrics::Counter<u64>,
    pub health_counter: opentelemetry::metrics::Counter<u64>,
}

impl Metrics {
    /// Create both counters against the current global meter provider.
    pub fn new() -> Metrics {
        let meter = otel_meter(
            "metrics.opentelemetry",
            "0.17",
            "https://opentelemetry.io/schemas/1.2.0",
            "crate",
            "metrics",
        );
        let index_counter = new_u64_counter(
            &meter,
            "index_requests_total",
            "Total number of index requests",
        );
        let health_counter = new_u64_counter(
            &meter,
            "health_requests_total",
            "Total number of health requests",
        );
        Metrics { index_counter, health_counter }
    }

    /// Emit one increment on the index instrument.
    pub fn emit_index(&self) {
        counter_add(&self.index_counter, 1);
    }

    /// Emit one increment on the health instrument.
    pub fn emit_health(&self) {
        counter_add(&self.health_counter, 1);
    }
}

/// The route a counted request went to.
#[derive(Clone, Copy, PartialEq, Eq, Structural, Debug)]
pub enum Route {
    Index,
    Health,
}

/// The totals the two route counters report.
#[derive(Clone, Copy, PartialEq, Eq, Structural, Debug)]
pub struct RequestCounters {
    pub index_total: u64,
    pub health_total: u64,
}

/// Totals after replaying a sequence of counted requests, one increment per
/// request, in the order given.
pub open spec fn run_counter_events(init: RequestCounters, events: Seq<Route>) -> RequestCounters
    decreases events.len(),
{
    if events.len() == 0 {
        init
    } else {
        let before = run_counter_events(init, events.drop_last());
        match events.last() {
            Route::Index => RequestCounters {
                index_total: (before.index_total + 1) as u64,
                health_total: before.health_total,
            },
            Route::Health => RequestCounters {
                index_total: before.index_total,
                health_total: (before.health_total + 1) as u64,
            },
        }
    }
}

impl RequestCounters {
    /// Both totals start at zero.
    pub fn new() -> (c: RequestCounters)
        ensures
            c.index_total == 0,
            c.health_total == 0,
    {
        RequestCounters { index_total: 0, health_total: 0 }
    }

    /// Count one more index request.
    pub fn record_index(&mut self)
        requires
            old(self).index_total < u64::MAX,
        ensures
            final(self).index_total == old(self).index_total + 1,
            final(self).health_total == old(self).health_total,
    {
        self.index_total = self.index_total + 1;
    }

    /// Count one more health request.
    pub fn record_health(&mut self)
        requires
            old(self).health_total < u64::MAX,
        ensures
            final(self).health_total == old(self).health_total + 1,
            final(self).index_total == old(self).index_total,
    {
        self.health_total = self.health_total + 1;
    }
}

/// No increment is ever lost: after any interleaving of counted requests,
/// each total is its initial value plus the number of requests to that
/// route, as long as neither sum leaves the counter's 64-bit range.
pub proof fn lemma_no_lost_updates(init: RequestCounters, events: Seq<Route>)
    requires
        init.index_total + events.filter(|e: Route| e == Route::Index).len() <= u64::MAX,
        init.health_total + events.filter(|e: Route| e == Route::Health).len() <= u64::MAX,
    ensures
        run_counter_events(init, events).index_total == init.index_total + events.filter(
            |e: Route| e == Route::Index,
        ).len(),
        run_counter_events(init, events).health_total == init.health_total + events.filter(
            |e: Route| e == Route::Health,
        ).len(),
    decreases events.len(),
{
    reveal(Seq::filter);
    broadcast use vstd::seq_lib::group_filter_ensures;

    if events.len() > 0 {
        lemma_no_lost_updates(init, events.drop_last());
    }
}

/// Replay a batch of counted requests against live totals.
pub fn apply_route_events(counters: &mut RequestCounters, events: &Vec<Route>) -> (applied: usize)
    requires
        old(counters).index_total + events@.len() <= u64::MAX,
        old(counters).health_total + events@.len() <= u64::MAX,
    ensures
        applied == events@.len(),
        *final(counters) == run_counter_events(*old(counters), events@),
{
    let ghost all = events@;
    let mut i: usize = 0;
    while i < events.len()
        invariant
            0 <= i <= all.len(),
            events@ == all,
            counters.index_total + (all.len() - i) <= u64::MAX,
            counters.health_total + (all.len() - i) <= u64::MAX,
            *counters == run_counter_events(*old(counters), all.subrange(0, i as int)),
        decreases events.len() - i,
    {
        proof {
            assert(all.subrange(0, i + 1).drop_last() =~= all.subrange(0, i as int));
            assert(all.subrange(0, i + 1).last() == all[i as int]);
        }
        match events[i] {
            Route::Index => {
                counters.record_index();
            },
            Route::Health => {
                counters.record_health();
            },
        }
        i = i + 1;
    }
    proof {
        assert(all.subrange(0, all.len() as int) =~= all);
    }
    i
}

} // verus!
