use otel_california::metrics::{apply_route_events, RequestCounters, Route};

#[test]
fn counters_start_at_zero() {
    let c = RequestCounters::new();
    assert_eq!(c.index_total, 0);
    assert_eq!(c.health_total, 0);
}

#[test]
fn each_record_adds_exactly_one() {
    let mut c = RequestCounters::new();
    c.record_index();
    c.record_index();
    c.record_health();
    assert_eq!(c.index_total, 2);
    assert_eq!(c.health_total, 1);
}

#[test]
fn no_updates_lost_over_a_hundred_interleaved_requests() {
    // One interleaving of 100 index hits with 50 health hits; the totals
    // come out as the exact hit counts whatever the order.
    let mut events = Vec::new();
    for i in 0..150 {
        if i % 3 == 2 {
            events.push(Route::Health);
        } else {
            events.push(Route::Index);
        }
    }
    let mut c = RequestCounters::new();
    let applied = apply_route_events(&mut c, &events);
    assert_eq!(applied, 150);
    assert_eq!(c.index_total, 100);
    assert_eq!(c.health_total, 50);
}

#[test]
fn replay_continues_from_existing_totals() {
    let mut c = RequestCounters::new();
    c.record_health();
    let events = vec![Route::Index, Route::Index, Route::Health];
    apply_route_events(&mut c, &events);
    assert_eq!(c.index_total, 2);
    assert_eq!(c.health_total, 2);
}
