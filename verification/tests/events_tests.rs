use eventstore_core::events::{
    AllSlice, DecodeError, EventData, EventRecordMsg, LocatedEvents, RecordedEvent, ResolvedEvent,
    ResolvedEventMsg, ResolvedIndexedEventMsg, Slice, StreamSlice,
};
use eventstore_core::metadata::{StreamAcl, StreamMetadata};
use eventstore_core::types::{Position, ReadDirection};

fn record_msg(id_len: usize, content_type: i32) -> EventRecordMsg {
    EventRecordMsg {
        event_stream_id: "s".to_string(),
        event_id: vec![0u8; id_len],
        event_number: 3,
        event_type: "kind".to_string(),
        data: vec![1, 2],
        metadata: vec![3],
        data_content_type: content_type,
        metadata_content_type: 0,
        created: Some(11),
        created_epoch: None,
    }
}

fn plain_recorded(event_id: u128) -> RecordedEvent {
    RecordedEvent {
        event_stream_id: "s".to_string(),
        event_id,
        event_number: 0,
        event_type: "t".to_string(),
        data: vec![],
        metadata: vec![],
        is_json: false,
        created: None,
        created_epoch: None,
    }
}

#[test]
fn recorded_event_reads_the_wire_record() {
    let mut msg = record_msg(16, 1);
    msg.event_id[15] = 9;
    let rec = RecordedEvent::new(msg).expect("record");
    assert_eq!(rec.event_id, 9);
    assert_eq!(rec.event_stream_id, "s");
    assert_eq!(rec.event_number, 3);
    assert_eq!(rec.event_type, "kind");
    assert_eq!(rec.data, vec![1, 2]);
    assert_eq!(rec.metadata, vec![3]);
    assert!(rec.is_json);
    assert_eq!(rec.created, Some(11));
    assert_eq!(rec.created_epoch, None);
}

#[test]
fn recorded_event_binary_content_type_is_not_json() {
    let rec = RecordedEvent::new(record_msg(16, 0)).expect("record");
    assert!(!rec.is_json);
}

#[test]
fn recorded_event_rejects_a_short_event_id() {
    assert!(matches!(RecordedEvent::new(record_msg(15, 1)), Err(DecodeError::BadEventId)));
    assert!(matches!(RecordedEvent::new(record_msg(17, 1)), Err(DecodeError::BadEventId)));
}

#[test]
fn resolved_event_carries_the_position() {
    let msg = ResolvedEventMsg {
        event: Some(record_msg(16, 1)),
        link: None,
        commit_position: 5,
        prepare_position: 4,
    };
    let res = ResolvedEvent::new(msg).expect("resolved");
    assert!(res.event.is_some());
    assert!(res.link.is_none());
    assert_eq!(res.position, Some(Position { commit: 5, prepare: 4 }));
    assert!(!res.is_resolved());
}

#[test]
fn resolved_indexed_event_has_no_position() {
    let msg = ResolvedIndexedEventMsg { event: Some(record_msg(16, 1)), link: Some(record_msg(16, 0)) };
    let res = ResolvedEvent::new_from_indexed(msg).expect("resolved");
    assert!(res.position.is_none());
    assert!(res.is_resolved());
}

#[test]
fn original_event_prefers_the_link() {
    let res = ResolvedEvent {
        event: Some(plain_recorded(1)),
        link: Some(plain_recorded(2)),
        position: None,
    };
    assert_eq!(res.get_original_event().expect("original").event_id, 2);
    let unlinked = ResolvedEvent { event: Some(plain_recorded(1)), link: None, position: None };
    assert_eq!(unlinked.get_original_event().expect("original").event_id, 1);
    let empty = ResolvedEvent { event: None, link: None, position: None };
    assert!(empty.get_original_event().is_none());
    assert!(empty.get_original_stream_id().is_none());
    assert_eq!(unlinked.get_original_stream_id().expect("stream"), "s");
}

#[test]
fn event_data_builds_json_payload() {
    let data = EventData::json("order".to_string(), b"{\"a\":1}".to_vec()).id(7);
    let msg = data.build();
    assert_eq!(msg.event_type, "order");
    assert_eq!(msg.data_content_type, 1);
    assert_eq!(msg.data, b"{\"a\":1}".to_vec());
    assert_eq!(msg.metadata_content_type, 0);
    assert!(msg.metadata.is_empty());
    let mut expected_id = vec![0u8; 16];
    expected_id[15] = 7;
    assert_eq!(msg.event_id, expected_id);
}

#[test]
fn event_data_builds_binary_payload_with_json_metadata() {
    let data = EventData::binary("blob".to_string(), vec![0xFF])
        .metadata_as_json(b"{}".to_vec())
        .id(1);
    let msg = data.build();
    assert_eq!(msg.data_content_type, 0);
    assert_eq!(msg.data, vec![0xFF]);
    assert_eq!(msg.metadata_content_type, 1);
    assert_eq!(msg.metadata, b"{}".to_vec());
}

#[test]
fn event_data_without_id_gets_a_fresh_one() {
    let a = EventData::json("t".to_string(), vec![]).build();
    let b = EventData::json("t".to_string(), vec![]).build();
    assert_eq!(a.event_id.len(), 16);
    assert_eq!(b.event_id.len(), 16);
    // Two fresh ids colliding is as good as impossible.
    assert_ne!(a.event_id, b.event_id);
}

#[test]
fn event_data_binary_metadata() {
    let data = EventData::binary("b".to_string(), vec![]).metadata_as_binary(vec![5, 6]).id(1);
    let msg = data.build();
    assert_eq!(msg.metadata_content_type, 0);
    assert_eq!(msg.metadata, vec![5, 6]);
}

#[test]
fn empty_stream_slice_is_end_of_stream() {
    let slice = StreamSlice::new(ReadDirection::Forward, 0, vec![], Some(5));
    match slice.events() {
        LocatedEvents::EndOfStream => (),
        _ => panic!("expected the end of the stream"),
    }
}

#[test]
fn stream_slice_carries_the_continuation() {
    let ev = ResolvedEvent { event: Some(plain_recorded(1)), link: None, position: None };
    let slice = StreamSlice::new(ReadDirection::Forward, 0, vec![ev], Some(5));
    match slice.events() {
        LocatedEvents::Events { events, next } => {
            assert_eq!(events.len(), 1);
            assert_eq!(next, Some(5));
        },
        _ => panic!("expected events"),
    }
}

#[test]
fn located_events_end_of_stream_semantics() {
    let end: LocatedEvents<i64> = LocatedEvents::EndOfStream;
    assert!(end.is_end_of_stream());
    let open: LocatedEvents<i64> = LocatedEvents::Events { events: vec![], next: Some(2) };
    assert!(open.is_end_of_stream());
    let closed: LocatedEvents<i64> = LocatedEvents::Events { events: vec![], next: None };
    assert!(!closed.is_end_of_stream());
}

#[test]
fn all_slice_continues_at_the_next_position() {
    let ev = ResolvedEvent { event: Some(plain_recorded(1)), link: None, position: None };
    let next = Position { commit: 9, prepare: 9 };
    let slice = AllSlice::new(ReadDirection::Backward, Position::start(), vec![ev], next);
    match slice.events() {
        LocatedEvents::Events { next: n, .. } => assert_eq!(n, Some(next)),
        _ => panic!("expected events"),
    }
}

#[test]
fn metadata_builder_sets_the_fields() {
    let meta = StreamMetadata::builder()
        .max_count(100)
        .max_age(60000)
        .truncate_before(5)
        .cache_control(1000)
        .build();
    assert_eq!(meta.max_count, Some(100));
    assert_eq!(meta.max_age, Some(60000));
    assert_eq!(meta.truncate_before, Some(5));
    assert_eq!(meta.cache_control, Some(1000));
    assert!(meta.acl.read_roles.is_empty());
    assert!(meta.custom_properties.is_empty());
}

#[test]
fn metadata_builder_acl_is_kept() {
    let acl = StreamAcl {
        read_roles: vec!["a".to_string()],
        write_roles: vec![],
        delete_roles: vec![],
        meta_read_roles: vec![],
        meta_write_roles: vec![],
    };
    let meta = StreamMetadata::builder().acl(acl).build();
    assert_eq!(meta.acl.read_roles, vec!["a".to_string()]);
}

#[test]
fn custom_property_replaces_the_same_key() {
    let meta = StreamMetadata::builder()
        .insert_custom_property("k".to_string(), "1".to_string())
        .insert_custom_property("other".to_string(), "x".to_string())
        .insert_custom_property("k".to_string(), "2".to_string())
        .build();
    assert_eq!(meta.custom_properties.len(), 2);
    assert_eq!(meta.custom_properties[0], ("k".to_string(), "2".to_string()));
    assert_eq!(meta.custom_properties[1], ("other".to_string(), "x".to_string()));
}
