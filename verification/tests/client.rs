//! Client core scenarios: flush, retry, shutdown and timer decisions.

use outlit::ClientCore;
use outlit::Error;
use outlit::TickStep;
use outlit::types::CustomEventData;
use outlit::types::Properties;
use outlit::types::TrackerEvent;

fn make_event(name: &str) -> TrackerEvent {
    TrackerEvent::Custom(CustomEventData {
        timestamp: 1706400000000,
        url: format!("server://{}", name),
        path: "/".into(),
        event_name: name.to_string(),
        properties: Some(Properties::new()),
    })
}

fn event_name(event: &TrackerEvent) -> &str {
    match event {
        TrackerEvent::Custom(data) => &data.event_name,
        _ => panic!("Expected custom event"),
    }
}

#[test]
fn test_core_failure_then_retry() {
    let mut core = ClientCore::new(100);
    core.enqueue_and_maybe_flush(make_event("event")).unwrap();

    // First flush attempt: the transport fails, the batch is put back.
    let payload = core.begin_flush().expect("one event is pending");
    assert_eq!(payload.events.len(), 1);
    assert_eq!(core.pending_event_count(), 0);
    core.fail_flush(payload.events);
    assert_eq!(core.pending_event_count(), 1);

    // Second attempt: the transport succeeds, nothing remains pending.
    let retry = core.begin_flush().expect("the event is pending again");
    assert_eq!(retry.events.len(), 1);
    assert_eq!(event_name(&retry.events[0]), "event");
    assert_eq!(core.pending_event_count(), 0);
}

#[test]
fn test_core_shutdown_idempotent() {
    let mut core = ClientCore::new(100);
    core.enqueue_and_maybe_flush(make_event("event")).unwrap();

    // Three shutdown calls: exactly the first wins and performs the one
    // terminal flush; the others see success with nothing left to do.
    let mut terminal_flushes: u32 = 0;
    for _ in 0..3 {
        if core.begin_shutdown() {
            if let Some(payload) = core.begin_flush() {
                assert_eq!(payload.events.len(), 1);
                assert_eq!(event_name(&payload.events[0]), "event");
                terminal_flushes += 1;
            }
        }
    }
    assert_eq!(terminal_flushes, 1);
    assert_eq!(core.pending_event_count(), 0);
}

#[test]
fn test_core_post_shutdown_rejection() {
    let mut core = ClientCore::new(100);
    assert!(core.begin_shutdown());

    let result = core.enqueue_and_maybe_flush(make_event("late"));
    assert!(matches!(result, Err(Error::Shutdown)));
    assert_eq!(core.pending_event_count(), 0);
    assert!(core.ensure_not_shutdown().is_err());
    assert!(Error::Shutdown.is_shutdown());
}

#[test]
fn test_core_empty_flush_is_noop() {
    let mut core = ClientCore::new(100);
    // Nothing pending: no payload is produced, so the transport is never
    // contacted, and the call counts as success.
    assert!(core.begin_flush().is_none());
    assert_eq!(core.pending_event_count(), 0);
}

#[test]
fn test_core_size_triggered_flush() {
    let mut core = ClientCore::new(3);
    assert!(!core.enqueue_and_maybe_flush(make_event("a")).unwrap());
    assert!(!core.enqueue_and_maybe_flush(make_event("b")).unwrap());
    // The third event reaches the threshold: the caller must flush now.
    assert!(core.enqueue_and_maybe_flush(make_event("c")).unwrap());
    let payload = core.begin_flush().expect("three events are pending");
    assert_eq!(payload.events.len(), 3);
    assert_eq!(event_name(&payload.events[0]), "a");
    assert_eq!(event_name(&payload.events[1]), "b");
    assert_eq!(event_name(&payload.events[2]), "c");
}

#[test]
fn test_core_timer_tick_delivers_pending_event() {
    let mut core = ClientCore::new(100);

    // An empty tick does nothing.
    assert!(matches!(core.timer_tick(), TickStep::Idle));

    // One pending event, far below the batch threshold: the tick drains it.
    core.enqueue_and_maybe_flush(make_event("event")).unwrap();
    match core.timer_tick() {
        TickStep::Send(payload) => {
            assert_eq!(payload.events.len(), 1);
            assert_eq!(event_name(&payload.events[0]), "event");
        },
        _ => panic!("Expected a send step"),
    }
    assert_eq!(core.pending_event_count(), 0);

    // After shutdown the timer loop is told to stop.
    core.begin_shutdown();
    assert!(matches!(core.timer_tick(), TickStep::Stop));
}

#[test]
fn test_core_timer_tick_failure_keeps_events() {
    let mut core = ClientCore::new(100);
    core.enqueue_and_maybe_flush(make_event("event")).unwrap();

    match core.timer_tick() {
        TickStep::Send(payload) => {
            // The send fails: the tick's batch goes back, the loop goes on.
            core.fail_flush(payload.events);
        },
        _ => panic!("Expected a send step"),
    }
    assert_eq!(core.pending_event_count(), 1);

    match core.timer_tick() {
        TickStep::Send(payload) => {
            assert_eq!(payload.events.len(), 1);
        },
        _ => panic!("Expected a send step on the next tick"),
    }
}
