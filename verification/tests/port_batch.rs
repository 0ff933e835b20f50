//! Event-port records and batch delivery: asking for up to N events
//! yields at most N, in order, and the collection's length is the
//! number delivered.

use rustix::io::EOVERFLOW;
use rustix::port::{deliver_up_to, port_getn_limit, Event};

fn ready_queue() -> Vec<Event> {
    (0..5u64).map(|i| Event::new(1, 0x1, 100 + i, 7000 + i)).collect()
}

#[test]
fn batch_is_capped_at_the_request() {
    let ready = ready_queue();
    let out = deliver_up_to(&ready, 3);
    assert_eq!(out.len(), 3);
    for (i, ev) in out.iter().enumerate() {
        assert_eq!(ev.object(), 100 + i as u64);
        assert_eq!(ev.userdata(), 7000 + i as u64);
    }
}

#[test]
fn batch_length_equals_events_delivered() {
    let ready = ready_queue();
    let out = deliver_up_to(&ready, 10);
    // Only five events existed: the length answers how many came.
    assert_eq!(out.len(), 5);
    let none = deliver_up_to(&ready, 0);
    assert_eq!(none.len(), 0);
}

#[test]
fn batch_capacity_must_fit_the_native_width() {
    assert_eq!(port_getn_limit(8).unwrap(), 8);
    assert_eq!(port_getn_limit(u32::MAX as usize).unwrap(), u32::MAX);
    let e = port_getn_limit(u32::MAX as usize + 1).unwrap_err();
    assert_eq!(e.raw_os_error(), EOVERFLOW);
}

#[test]
fn record_accessors_report_the_fields() {
    let ev = Event::new(4, 0x21, 42, 99);
    assert_eq!(ev.source(), 4);
    assert_eq!(ev.events(), 0x21);
    assert_eq!(ev.object(), 42);
    assert_eq!(ev.userdata(), 99);
}
