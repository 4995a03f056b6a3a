use otel_california::handlers::ResponseParts;
use otel_california::middlewares::{on_emission_outcome, status_is_success, track_time, Severity};

#[test]
fn success_status_range() {
    assert!(status_is_success(200));
    assert!(status_is_success(204));
    assert!(status_is_success(299));
    assert!(!status_is_success(199));
    assert!(!status_is_success(300));
    assert!(!status_is_success(404));
    assert!(!status_is_success(500));
}

#[test]
fn track_time_success_is_info_without_status() {
    let (record, log) = track_time("GET".to_string(), "/".to_string(), 100, 135, 200);
    assert_eq!(record.method, "GET");
    assert_eq!(record.path, "/");
    assert_eq!(record.started_at_ms, 100);
    assert_eq!(record.status, 200);
    assert_eq!(record.elapsed_ms, 35);
    assert_eq!(log.severity, Severity::Info);
    assert_eq!(log.method, "GET");
    assert_eq!(log.path, "/");
    assert_eq!(log.elapsed_ms, 35);
    assert_eq!(log.status, None);
}

#[test]
fn track_time_failure_is_error_with_status() {
    let (record, log) = track_time("GET".to_string(), "/health".to_string(), 7, 7, 503);
    assert_eq!(record.elapsed_ms, 0);
    assert_eq!(log.severity, Severity::Error);
    assert_eq!(log.status, Some(503));
}

#[test]
fn track_time_clamps_backward_clock() {
    let (record, _log) = track_time("GET".to_string(), "/".to_string(), 50, 20, 200);
    assert_eq!(record.elapsed_ms, 0);
}

#[test]
fn emission_failure_keeps_response() {
    let response = ResponseParts { status: 200, body: "{\"status\":\"UP\"}".to_string() };
    let (kept, note) = on_emission_outcome(response, false, "GET".to_string(), "/health".to_string());
    assert_eq!(kept.status, 200);
    assert_eq!(kept.body, "{\"status\":\"UP\"}");
    let note = note.expect("a failed emission leaves a diagnostic note");
    assert_eq!(note.severity, Severity::Debug);
    assert_eq!(note.method, "GET");
    assert_eq!(note.path, "/health");
    assert_eq!(note.status, None);
}

#[test]
fn emission_success_keeps_response_and_stays_silent() {
    let response = ResponseParts { status: 204, body: String::new() };
    let (kept, note) = on_emission_outcome(response, true, "GET".to_string(), "/".to_string());
    assert_eq!(kept.status, 204);
    assert_eq!(kept.body, "");
    assert!(note.is_none());
}
