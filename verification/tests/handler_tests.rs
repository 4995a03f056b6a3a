use otel_california::handlers::{health, health_response, index, index_response};
use otel_california::metrics::{Metrics, RequestCounters};

#[test]
fn health_body_reports_up() {
    let r = health_response();
    assert_eq!(r.status, 200);
    assert_eq!(r.body, "{\"status\":\"UP\"}");
    assert!(r.body.contains("UP"));
}

#[test]
fn index_body_names_the_trace_identifier() {
    let r = index_response(Some("0af7651916cd43dd8448eb211c80319c".to_string()));
    assert_eq!(r.status, 200);
    assert_eq!(r.body, "{\"trace_id\":\"0af7651916cd43dd8448eb211c80319c\"}");
    assert!(r.body.contains("trace_id"));
}

#[test]
fn index_body_without_trace_context() {
    let r = index_response(None);
    assert_eq!(r.status, 200);
    assert_eq!(r.body, "{\"trace_id\":\"unknown\"}");
    assert!(r.body.contains("trace_id"));
}

#[test]
fn index_counts_exactly_once_per_call() {
    let metrics = Metrics::new();
    let mut counters = RequestCounters::new();
    let r = index(&metrics, &mut counters);
    assert_eq!(r.status, 200);
    assert!(r.body.contains("trace_id"));
    assert_eq!(counters.index_total, 1);
    assert_eq!(counters.health_total, 0);
}

#[test]
fn health_counts_exactly_once_per_call() {
    let metrics = Metrics::new();
    let mut counters = RequestCounters::new();
    let r = health(&metrics, &mut counters);
    assert_eq!(r.status, 200);
    assert_eq!(r.body, "{\"status\":\"UP\"}");
    assert_eq!(counters.health_total, 1);
    assert_eq!(counters.index_total, 0);
}

#[test]
fn hundred_index_requests_with_unreachable_collector() {
    // No exporter is installed, so every emission goes to a no-op provider,
    // exactly as when the collector endpoint is unreachable: the responses
    // and the counted totals must not notice.
    let metrics = Metrics::new();
    let mut counters = RequestCounters::new();
    for _ in 0..100 {
        let r = index(&metrics, &mut counters);
        assert_eq!(r.status, 200);
        assert!(r.body.contains("trace_id"));
    }
    assert_eq!(counters.index_total, 100);
    assert_eq!(counters.health_total, 0);
}
