use eventstore_core::types::{
    ExpectedVersion, NakAction, PersistActionError, PersistActionResult,
    PersistentSubscriptionSettings, Position, Retry, Settings, SystemConsumerStrategy,
    TransactionId,
};

#[test]
fn expected_version_encodes_sentinels() {
    assert_eq!(ExpectedVersion::Any.to_i64(), -2);
    assert_eq!(ExpectedVersion::StreamExists.to_i64(), -4);
    assert_eq!(ExpectedVersion::NoStream.to_i64(), -1);
    assert_eq!(ExpectedVersion::Exact(42).to_i64(), 42);
}

#[test]
fn expected_version_round_trips() {
    for v in [
        ExpectedVersion::Any,
        ExpectedVersion::StreamExists,
        ExpectedVersion::NoStream,
        ExpectedVersion::Exact(0),
        ExpectedVersion::Exact(7),
        ExpectedVersion::Exact(-3),
    ] {
        assert_eq!(ExpectedVersion::from_i64(v.to_i64()), v);
    }
}

#[test]
fn expected_version_exact_sentinel_decodes_to_tag() {
    // An Exact carrying a sentinel integer decodes to the tagged form.
    assert_eq!(ExpectedVersion::from_i64(ExpectedVersion::Exact(-2).to_i64()), ExpectedVersion::Any);
    assert_eq!(ExpectedVersion::from_i64(-4), ExpectedVersion::StreamExists);
    assert_eq!(ExpectedVersion::from_i64(-1), ExpectedVersion::NoStream);
}

#[test]
fn position_orders_lexicographically() {
    let a = Position { commit: 0, prepare: 5 };
    let b = Position { commit: 1, prepare: 0 };
    assert!(a < b);
    assert!(Position { commit: 1, prepare: 2 } < Position { commit: 1, prepare: 3 });
    assert!(Position { commit: 1, prepare: 3 } <= Position { commit: 1, prepare: 3 });
    assert!(!(b <= a));
}

#[test]
fn position_start_does_not_precede_end() {
    // end is (-1,-1), so start (0,0) does not precede it.
    assert!(!(Position::start() <= Position::end()));
    assert!(Position::end() < Position::start());
}

#[test]
fn retry_bound_values() {
    assert_eq!(Retry::Only(3).to_usize(), 3);
    assert_eq!(Retry::Undefinately.to_usize(), usize::MAX);
}

#[test]
fn settings_defaults() {
    let s = Settings::default();
    assert_eq!(s.heartbeat_delay, 750);
    assert_eq!(s.heartbeat_timeout, 1500);
    assert_eq!(s.operation_timeout, 7000);
    assert_eq!(s.operation_retry.to_usize(), 3);
    assert_eq!(s.connection_retry.to_usize(), 3);
    assert!(s.default_user.is_none());
    assert!(s.connection_name.is_none());
    assert_eq!(s.operation_check_period, 1000);
}

#[test]
fn persistent_subscription_settings_defaults() {
    let s = PersistentSubscriptionSettings::default();
    assert!(!s.resolve_link_tos);
    assert_eq!(s.start_from, -1);
    assert!(!s.extra_stats);
    assert_eq!(s.msg_timeout, 30000);
    assert_eq!(s.max_retry_count, 500);
    assert_eq!(s.live_buf_size, 500);
    assert_eq!(s.read_batch_size, 10);
    assert_eq!(s.history_buf_size, 20);
    assert_eq!(s.checkpoint_after, 2000);
    assert_eq!(s.min_checkpoint_count, 10);
    assert_eq!(s.max_checkpoint_count, 1000);
    assert_eq!(s.max_subs_count, 0);
    assert_eq!(s.named_consumer_strategy, SystemConsumerStrategy::RoundRobin);
}

#[test]
fn persist_action_result_predicates() {
    assert!(PersistActionResult::Success.is_success());
    assert!(!PersistActionResult::Success.is_failure());
    let failure = PersistActionResult::Failure(PersistActionError::AlreadyExists);
    assert!(failure.is_failure());
    assert!(!failure.is_success());
}

#[test]
fn transaction_id_wraps_the_handle() {
    assert_eq!(TransactionId::new(99), TransactionId(99));
}

#[test]
fn consumer_strategy_names() {
    assert_eq!(SystemConsumerStrategy::DispatchToSingle.as_str(), "DispatchToSingle");
    assert_eq!(SystemConsumerStrategy::RoundRobin.as_str(), "RoundRobin");
}

#[test]
fn nak_actions_are_distinct() {
    assert_ne!(NakAction::Park, NakAction::Retry);
    assert_ne!(NakAction::Skip, NakAction::Stop);
    assert_ne!(NakAction::Unknown, NakAction::Park);
}
