use eventstore_core::catchup::{CatchupAction, CatchupSubscription};

#[test]
fn catchup_reads_history_then_goes_live_without_a_gap() {
    let mut sub = CatchupSubscription::new(0);
    assert_eq!(sub.start(), CatchupAction::ReadSlice { from: 0 });
    // Two historical slices, then the end of the stream.
    assert_eq!(sub.on_slice(Some(10), false), CatchupAction::ReadSlice { from: 10 });
    assert_eq!(sub.on_slice(Some(20), false), CatchupAction::ReadSlice { from: 20 });
    assert_eq!(sub.on_slice(Some(23), true), CatchupAction::SubscribeLive);
    assert!(sub.live);
    assert_eq!(sub.next_from, 23);
}

#[test]
fn live_overlap_is_dropped_and_new_events_pass() {
    let mut sub = CatchupSubscription::new(0);
    let _ = sub.on_slice(Some(5), true);
    // Events 3 and 4 were already delivered by the historical phase.
    assert!(!sub.live_event_is_new(3));
    assert!(!sub.live_event_is_new(4));
    assert!(sub.live_event_is_new(5));
    assert!(sub.live_event_is_new(6));
}

#[test]
fn slice_without_continuation_keeps_the_position() {
    let mut sub = CatchupSubscription::new(7);
    assert_eq!(sub.on_slice(None, false), CatchupAction::ReadSlice { from: 7 });
    assert_eq!(sub.on_slice(None, true), CatchupAction::SubscribeLive);
    assert_eq!(sub.next_from, 7);
}
