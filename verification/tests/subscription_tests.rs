use eventstore_core::commands::{
    CMD_PERSISTENT_SUBSCRIPTION_ACK_EVENTS, CMD_PERSISTENT_SUBSCRIPTION_NAK_EVENTS,
    CMD_UNSUBSCRIBE_FROM_STREAM,
};
use eventstore_core::events::{RecordedEvent, ResolvedEvent};
use eventstore_core::subscription::{
    consume, on_event, OnEvent, SubEvent, SubState, SubscriptionConsumer, SubscriptionEnv,
};
use eventstore_core::types::{NakAction, OnEventAppeared};

fn resolved(event_id: u128) -> ResolvedEvent {
    ResolvedEvent {
        event: Some(RecordedEvent {
            event_stream_id: "stream-x".to_string(),
            event_id,
            event_number: event_id as i64,
            event_type: "t".to_string(),
            data: vec![],
            metadata: vec![],
            is_json: false,
            created: None,
            created_epoch: None,
        }),
        link: None,
        position: None,
    }
}

fn id_bytes(id: u128) -> Vec<u8> {
    let mut out = Vec::new();
    for i in (0..16).rev() {
        out.push(((id >> (8 * i)) & 0xFF) as u8);
    }
    out
}

struct GroupConsumer {
    calls: usize,
    retry_counts: Vec<usize>,
    dropped: usize,
    confirmed: usize,
}

impl SubscriptionConsumer for GroupConsumer {
    fn when_confirmed(&mut self, _id: u128, _commit: i64, _event_number: i64) {
        self.confirmed += 1;
    }

    fn when_event_appeared(
        &mut self,
        env: &mut SubscriptionEnv,
        _event: ResolvedEvent,
    ) -> OnEventAppeared {
        self.calls += 1;
        self.retry_counts.push(env.current_event_retry_count());
        if self.calls == 2 {
            // Both seen events are acknowledged in one callback.
            env.push_ack(1);
            env.push_ack(2);
        } else if self.calls == 3 {
            env.push_nak_with_message(vec![3], NakAction::Park, b"bad".to_vec());
        }
        OnEventAppeared::Continue
    }

    fn when_dropped(&mut self) {
        self.dropped += 1;
    }
}

#[test]
fn persistent_ack_nak_batches_exactly() {
    let mut state = SubState::new();
    let mut consumer = GroupConsumer { calls: 0, retry_counts: vec![], dropped: 0, confirmed: 0 };
    let confirm = SubEvent::Confirmed {
        id: 0xAA,
        last_commit_position: 0,
        last_event_number: 0,
        persistent_id: Some(b"g".to_vec()),
    };
    let (pkgs, _) = on_event(&mut state, confirm, &mut consumer);
    assert!(pkgs.is_empty());
    assert_eq!(consumer.confirmed, 1);

    // E1 (retry 0): nothing recorded, nothing sent.
    let (pkgs, d) = on_event(
        &mut state,
        SubEvent::EventAppeared { event: resolved(1), retry_count: 0 },
        &mut consumer,
    );
    assert!(pkgs.is_empty());
    assert_eq!(d, OnEvent::Continue);

    // E2 (retry 0): one ack package listing both event ids, nothing else.
    let (pkgs, _) = on_event(
        &mut state,
        SubEvent::EventAppeared { event: resolved(2), retry_count: 0 },
        &mut consumer,
    );
    assert_eq!(pkgs.len(), 1);
    assert_eq!(pkgs[0].cmd, CMD_PERSISTENT_SUBSCRIPTION_ACK_EVENTS);
    assert_eq!(pkgs[0].correlation, 0xAA);
    let mut expected = vec![1u8, b'g'];
    expected.extend_from_slice(&id_bytes(1));
    expected.extend_from_slice(&id_bytes(2));
    assert_eq!(pkgs[0].payload, expected);

    // E3 (retry 1): one nak package with the id, Park and the message.
    let (pkgs, _) = on_event(
        &mut state,
        SubEvent::EventAppeared { event: resolved(3), retry_count: 1 },
        &mut consumer,
    );
    assert_eq!(pkgs.len(), 1);
    assert_eq!(pkgs[0].cmd, CMD_PERSISTENT_SUBSCRIPTION_NAK_EVENTS);
    assert_eq!(pkgs[0].correlation, 0xAA);
    let mut expected = vec![1u8, b'g', 1, 3, 0, 0, 0];
    expected.extend_from_slice(b"bad");
    expected.extend_from_slice(&id_bytes(3));
    assert_eq!(pkgs[0].payload, expected);

    assert_eq!(consumer.retry_counts, vec![0, 0, 1]);
}

struct BatchingConsumer;

impl SubscriptionConsumer for BatchingConsumer {
    fn when_confirmed(&mut self, _id: u128, _commit: i64, _event_number: i64) {}

    fn when_event_appeared(
        &mut self,
        env: &mut SubscriptionEnv,
        _event: ResolvedEvent,
    ) -> OnEventAppeared {
        env.push_ack(10);
        env.push_ack(11);
        env.push_ack(12);
        env.push_nak(vec![20, 21], NakAction::Retry);
        env.push_nak_with_message(vec![22], NakAction::Skip, b"dup".to_vec());
        OnEventAppeared::Continue
    }

    fn when_dropped(&mut self) {}
}

#[test]
fn one_callback_yields_one_ack_and_one_nak_per_group() {
    let mut state = SubState::new();
    let mut consumer = BatchingConsumer;
    let confirm = SubEvent::Confirmed {
        id: 5,
        last_commit_position: 0,
        last_event_number: 0,
        persistent_id: Some(b"grp".to_vec()),
    };
    let _ = on_event(&mut state, confirm, &mut consumer);
    let (pkgs, _) = on_event(
        &mut state,
        SubEvent::EventAppeared { event: resolved(10), retry_count: 0 },
        &mut consumer,
    );
    // Three acks collapse into one package; two nak groups stay two.
    assert_eq!(pkgs.len(), 3);
    assert_eq!(pkgs[0].cmd, CMD_PERSISTENT_SUBSCRIPTION_ACK_EVENTS);
    assert_eq!(pkgs[1].cmd, CMD_PERSISTENT_SUBSCRIPTION_NAK_EVENTS);
    assert_eq!(pkgs[2].cmd, CMD_PERSISTENT_SUBSCRIPTION_NAK_EVENTS);
    let mut acks = vec![3u8, b'g', b'r', b'p'];
    acks.extend_from_slice(&id_bytes(10));
    acks.extend_from_slice(&id_bytes(11));
    acks.extend_from_slice(&id_bytes(12));
    assert_eq!(pkgs[0].payload, acks);
    // The second nak group carries Skip (3) and its message.
    let mut nak2 = vec![3u8, b'g', b'r', b'p', 3, 3, 0, 0, 0];
    nak2.extend_from_slice(b"dup");
    nak2.extend_from_slice(&id_bytes(22));
    assert_eq!(pkgs[2].payload, nak2);
}

struct SameGroupConsumer;

impl SubscriptionConsumer for SameGroupConsumer {
    fn when_confirmed(&mut self, _id: u128, _commit: i64, _event_number: i64) {}

    fn when_event_appeared(
        &mut self,
        env: &mut SubscriptionEnv,
        _event: ResolvedEvent,
    ) -> OnEventAppeared {
        // Two pushes sharing (action, message) coalesce into one batch.
        env.push_nak_with_message(vec![30], NakAction::Park, b"bad".to_vec());
        env.push_nak_with_message(vec![31, 32], NakAction::Park, b"bad".to_vec());
        env.push_nak_with_message(vec![33], NakAction::Park, b"other".to_vec());
        OnEventAppeared::Continue
    }

    fn when_dropped(&mut self) {}
}

#[test]
fn naks_of_one_group_coalesce_into_one_package() {
    let mut state = SubState::new();
    let mut consumer = SameGroupConsumer;
    let confirm = SubEvent::Confirmed {
        id: 9,
        last_commit_position: 0,
        last_event_number: 0,
        persistent_id: Some(b"g".to_vec()),
    };
    let _ = on_event(&mut state, confirm, &mut consumer);
    let (pkgs, _) = on_event(
        &mut state,
        SubEvent::EventAppeared { event: resolved(30), retry_count: 0 },
        &mut consumer,
    );
    // One package per distinct (action, message) group.
    assert_eq!(pkgs.len(), 2);
    let mut park = vec![1u8, b'g', 1, 3, 0, 0, 0];
    park.extend_from_slice(b"bad");
    park.extend_from_slice(&id_bytes(30));
    park.extend_from_slice(&id_bytes(31));
    park.extend_from_slice(&id_bytes(32));
    assert_eq!(pkgs[0].payload, park);
    let mut other = vec![1u8, b'g', 1, 5, 0, 0, 0];
    other.extend_from_slice(b"other");
    other.extend_from_slice(&id_bytes(33));
    assert_eq!(pkgs[1].payload, other);
}

struct DroppingConsumer {
    events_seen: usize,
    dropped: usize,
}

impl SubscriptionConsumer for DroppingConsumer {
    fn when_confirmed(&mut self, _id: u128, _commit: i64, _event_number: i64) {}

    fn when_event_appeared(
        &mut self,
        env: &mut SubscriptionEnv,
        _event: ResolvedEvent,
    ) -> OnEventAppeared {
        self.events_seen += 1;
        // Acks on a volatile subscription are recorded nowhere.
        env.push_ack(99);
        OnEventAppeared::Drop
    }

    fn when_dropped(&mut self) {
        self.dropped += 1;
    }
}

#[test]
fn drop_decision_unsubscribes_with_the_confirmation_id() {
    let mut state = SubState::new();
    let mut consumer = DroppingConsumer { events_seen: 0, dropped: 0 };
    let confirm = SubEvent::Confirmed {
        id: 0x77,
        last_commit_position: 0,
        last_event_number: 0,
        persistent_id: None,
    };
    let _ = on_event(&mut state, confirm, &mut consumer);
    let (pkgs, d) = on_event(
        &mut state,
        SubEvent::EventAppeared { event: resolved(1), retry_count: 0 },
        &mut consumer,
    );
    assert_eq!(d, OnEvent::Stop);
    assert_eq!(pkgs.len(), 1);
    assert_eq!(pkgs[0].cmd, CMD_UNSUBSCRIBE_FROM_STREAM);
    assert_eq!(pkgs[0].correlation, 0x77);
    assert!(pkgs[0].payload.is_empty());
    // The on-dropped hook fired exactly once, on the user's decision.
    assert_eq!(consumer.dropped, 1);
}

#[test]
fn consume_stops_at_the_drop_and_delivers_nothing_further() {
    let consumer = DroppingConsumer { events_seen: 0, dropped: 0 };
    let events = vec![
        SubEvent::Confirmed {
            id: 0x11,
            last_commit_position: 0,
            last_event_number: 0,
            persistent_id: None,
        },
        SubEvent::EventAppeared { event: resolved(1), retry_count: 0 },
        SubEvent::EventAppeared { event: resolved(2), retry_count: 0 },
    ];
    let (consumer, state, pkgs) = consume(events, consumer);
    assert_eq!(consumer.events_seen, 1);
    assert_eq!(consumer.dropped, 1);
    assert_eq!(pkgs.len(), 1);
    assert_eq!(pkgs[0].cmd, CMD_UNSUBSCRIBE_FROM_STREAM);
    assert_eq!(state.confirmation_id, Some(0x11));
}

struct QuietConsumer;

impl SubscriptionConsumer for QuietConsumer {
    fn when_confirmed(&mut self, _id: u128, _commit: i64, _event_number: i64) {}

    fn when_event_appeared(
        &mut self,
        _env: &mut SubscriptionEnv,
        _event: ResolvedEvent,
    ) -> OnEventAppeared {
        OnEventAppeared::Continue
    }

    fn when_dropped(&mut self) {}
}

#[test]
fn confirmation_waiters_are_counted_then_released() {
    let mut state = SubState::new();
    let mut consumer = QuietConsumer;
    let _ = on_event(&mut state, SubEvent::HasBeenConfirmed, &mut consumer);
    let _ = on_event(&mut state, SubEvent::HasBeenConfirmed, &mut consumer);
    assert_eq!(state.pending_confirmations, 2);
    let confirm = SubEvent::Confirmed {
        id: 1,
        last_commit_position: 0,
        last_event_number: 0,
        persistent_id: None,
    };
    let _ = on_event(&mut state, confirm, &mut consumer);
    assert_eq!(state.pending_confirmations, 0);
    // Once confirmed, a wait request is answered at once.
    let _ = on_event(&mut state, SubEvent::HasBeenConfirmed, &mut consumer);
    assert_eq!(state.pending_confirmations, 0);
}

#[test]
fn sub_event_accessors() {
    let ev = SubEvent::new_event_appeared(resolved(4));
    assert!(ev.event_appeared().is_some());
    assert!(SubEvent::Dropped.event_appeared().is_none());
}
