//! Recorded and resolved events, the build-side event record, and the
//! slices that read operations return.
//!
//! The generated message schema hands records over as plain values; the
//! conversions here validate them and derive the client-side fields.

use vstd::prelude::*;
use crate::package::{u128_be_bytes, u128_from_be_bytes};
use crate::types::{Position, ReadDirection};

verus! {

/// What can be wrong with a wire record.
#[derive(Debug, PartialEq, Eq, Copy, Clone, Structural)]
pub enum DecodeError {
    /// The event id field did not hold exactly sixteen bytes.
    BadEventId,
}

/// An event record as the generated message schema hands it over.
#[derive(Debug)]
pub struct EventRecordMsg {
    pub event_stream_id: String,
    pub event_id: Vec<u8>,
    pub event_number: i64,
    pub event_type: String,
    pub data: Vec<u8>,
    pub metadata: Vec<u8>,
    pub data_content_type: i32,
    pub metadata_content_type: i32,
    pub created: Option<i64>,
    pub created_epoch: Option<i64>,
}

/// An event as recorded in a stream. Immutable.
#[derive(Debug)]
pub struct RecordedEvent {
    pub event_stream_id: String,
    pub event_id: u128,
    pub event_number: i64,
    pub event_type: String,
    pub data: Vec<u8>,
    pub metadata: Vec<u8>,
    pub is_json: bool,
    pub created: Option<i64>,
    pub created_epoch: Option<i64>,
}

impl RecordedEvent {
    /// Validates a wire record: the event id must hold exactly sixteen
    /// bytes, read big-endian; the record is JSON exactly when its data
    /// content type is 1.
    pub fn new(event: EventRecordMsg) -> (r: Result<RecordedEvent, DecodeError>)
        ensures
            match r {
                Ok(rec) => {
                    &&& event.event_id@.len() == 16
                    &&& rec.event_id == u128_from_be_bytes(event.event_id@)
                    &&& rec.event_stream_id@ == event.event_stream_id@
                    &&& rec.event_number == event.event_number
                    &&& rec.event_type@ == event.event_type@
                    &&& rec.data@ == event.data@
                    &&& rec.metadata@ == event.metadata@
                    &&& rec.is_json == (event.data_content_type == 1)
                    &&& rec.created == event.created
                    &&& rec.created_epoch == event.created_epoch
                },
                Err(e) => event.event_id@.len() != 16 && e == DecodeError::BadEventId,
            },
    {
        if event.event_id.len() != 16 {
            return Err(DecodeError::BadEventId);
        }
        let event_id = crate::package::read_u128_be(&event.event_id, 0);
        proof {
            assert(event.event_id@.subrange(0, 16) =~= event.event_id@);
        }
        let is_json = event.data_content_type == 1;
        Ok(
            RecordedEvent {
                event_stream_id: event.event_stream_id,
                event_id,
                event_number: event.event_number,
                event_type: event.event_type,
                data: event.data,
                metadata: event.metadata,
                is_json,
                created: event.created,
                created_epoch: event.created_epoch,
            },
        )
    }
}

/// A resolved event as the schema hands it over for reads of the global
/// log: optional record, optional link, and a global position.
pub struct ResolvedEventMsg {
    pub event: Option<EventRecordMsg>,
    pub link: Option<EventRecordMsg>,
    pub commit_position: i64,
    pub prepare_position: i64,
}

/// A resolved event as the schema hands it over for per-stream reads:
/// optional record and optional link, no position.
pub struct ResolvedIndexedEventMsg {
    pub event: Option<EventRecordMsg>,
    pub link: Option<EventRecordMsg>,
}

/// An event handed to consumers: the record, the link it was resolved
/// from when it came through a link-to-event, and the global position when
/// the read carried one.
#[derive(Debug)]
pub struct ResolvedEvent {
    pub event: Option<RecordedEvent>,
    pub link: Option<RecordedEvent>,
    pub position: Option<Position>,
}

/// The optional record's event id, when present, holds exactly sixteen
/// bytes.
pub open spec fn msg_id_ok(m: Option<EventRecordMsg>) -> bool {
    match m {
        Some(rec) => rec.event_id@.len() == 16,
        None => true,
    }
}

/// The optional record was converted faithfully: present exactly when the
/// wire record is, with the fields `RecordedEvent::new` derives.
pub open spec fn record_converted(m: Option<EventRecordMsg>, r: Option<RecordedEvent>) -> bool {
    match m {
        Some(msg) => match r {
            Some(rec) => {
                &&& rec.event_id == u128_from_be_bytes(msg.event_id@)
                &&& rec.event_stream_id@ == msg.event_stream_id@
                &&& rec.event_number == msg.event_number
                &&& rec.event_type@ == msg.event_type@
                &&& rec.data@ == msg.data@
                &&& rec.metadata@ == msg.metadata@
                &&& rec.is_json == (msg.data_content_type == 1)
                &&& rec.created == msg.created
                &&& rec.created_epoch == msg.created_epoch
            },
            None => false,
        },
        None => r is None,
    }
}

impl ResolvedEvent {
    /// Converts a record of the global log; the position is always carried.
    /// Fails exactly when an embedded record's event id is invalid.
    pub fn new(msg: ResolvedEventMsg) -> (r: Result<ResolvedEvent, DecodeError>)
        ensures
            r is Ok <==> msg_id_ok(msg.event) && msg_id_ok(msg.link),
            match r {
                Ok(res) => {
                    &&& record_converted(msg.event, res.event)
                    &&& record_converted(msg.link, res.link)
                    &&& res.position == Some(
                        Position { commit: msg.commit_position, prepare: msg.prepare_position },
                    )
                },
                Err(e) => e == DecodeError::BadEventId,
            },
    {
        let event = match msg.event {
            Some(rec) => Some(RecordedEvent::new(rec)?),
            None => None,
        };
        let link = match msg.link {
            Some(rec) => Some(RecordedEvent::new(rec)?),
            None => None,
        };
        let position = Some(Position { commit: msg.commit_position, prepare: msg.prepare_position });
        Ok(ResolvedEvent { event, link, position })
    }

    /// Converts a per-stream record; there is no position. Fails exactly
    /// when an embedded record's event id is invalid.
    pub fn new_from_indexed(msg: ResolvedIndexedEventMsg) -> (r: Result<ResolvedEvent, DecodeError>)
        ensures
            r is Ok <==> msg_id_ok(msg.event) && msg_id_ok(msg.link),
            match r {
                Ok(res) => {
                    &&& record_converted(msg.event, res.event)
                    &&& record_converted(msg.link, res.link)
                    &&& res.position is None
                },
                Err(e) => e == DecodeError::BadEventId,
            },
    {
        let event = match msg.event {
            Some(rec) => Some(RecordedEvent::new(rec)?),
            None => None,
        };
        let link = match msg.link {
            Some(rec) => Some(RecordedEvent::new(rec)?),
            None => None,
        };
        Ok(ResolvedEvent { event, link, position: None })
    }

    /// The event came through a link that the server resolved: both the
    /// record and the link are present.
    pub fn is_resolved(&self) -> (r: bool)
        ensures
            r == (self.event is Some && self.link is Some),
    {
        self.event.is_some() && self.link.is_some()
    }

    /// The event as the stream ordered it: the link when present, else the
    /// record itself.
    pub fn get_original_event(&self) -> (r: Option<&RecordedEvent>)
        ensures
            match r {
                Some(rec) => (self.link matches Some(l) && *rec == l) || (self.link is None
                    && (self.event matches Some(ev) && *rec == ev)),
                None => self.link is None && self.event is None,
            },
    {
        match &self.link {
            Some(l) => Some(l),
            None => self.event.as_ref(),
        }
    }

    /// The stream the original event belongs to.
    pub fn get_original_stream_id(&self) -> (r: Option<&String>)
        ensures
            r is Some <==> (self.link is Some || self.event is Some),
    {
        match self.get_original_event() {
            Some(ev) => Some(&ev.event_stream_id),
            None => None,
        }
    }
}

/// A batch of events a read returned, with where to read next.
#[derive(Debug)]
pub enum LocatedEvents<A> {
    /// The stream's end was reached: nothing came back.
    EndOfStream,
    /// Events came back; `next` tells where a further read continues, when
    /// the server gave a continuation.
    Events { events: Vec<ResolvedEvent>, next: Option<A> },
}

impl<A> LocatedEvents<A> {
    /// Whether a further read is known to continue somewhere.
    pub fn is_end_of_stream(&self) -> (r: bool)
        ensures
            match self {
                LocatedEvents::EndOfStream => r == true,
                LocatedEvents::Events { events, next } => r == (next is Some),
            },
    {
        match *self {
            LocatedEvents::EndOfStream => true,
            LocatedEvents::Events { ref next, .. } => next.is_some(),
        }
    }
}

/// A bounded window of events a read operation returned.
pub trait Slice {
    type Location;

    fn from(&self) -> Self::Location;

    fn direction(&self) -> ReadDirection;

    fn events(self) -> LocatedEvents<Self::Location>;
}

/// A slice of a single stream, located by event number.
#[derive(Debug)]
pub struct StreamSlice {
    pub from: i64,
    pub direction: ReadDirection,
    pub events: Vec<ResolvedEvent>,
    pub next_num_opt: Option<i64>,
}

impl StreamSlice {
    pub fn new(
        direction: ReadDirection,
        from: i64,
        events: Vec<ResolvedEvent>,
        next_num_opt: Option<i64>,
    ) -> (r: StreamSlice)
        ensures
            r.from == from,
            r.direction == direction,
            r.events@ == events@,
            r.next_num_opt == next_num_opt,
    {
        StreamSlice { from, direction, events, next_num_opt }
    }
}

impl Slice for StreamSlice {
    type Location = i64;

    fn from(&self) -> (r: i64)
        ensures
            r == self.from,
    {
        self.from
    }

    fn direction(&self) -> (r: ReadDirection)
        ensures
            r == self.direction,
    {
        self.direction
    }

    /// The end of the stream when the slice is empty; else exactly the
    /// slice's events, unchanged and in order, with its continuation.
    fn events(self) -> (r: LocatedEvents<i64>)
        ensures
            self.events@.len() == 0 ==> r is EndOfStream,
            self.events@.len() > 0 ==> (r matches LocatedEvents::Events { events, next } && events@
                == self.events@ && next == self.next_num_opt),
    {
        if self.events.len() == 0 {
            LocatedEvents::EndOfStream
        } else {
            match self.next_num_opt {
                None => LocatedEvents::Events { events: self.events, next: None },
                Some(next_num) => LocatedEvents::Events {
                    events: self.events,
                    next: Some(next_num),
                },
            }
        }
    }
}

/// A slice of the global log, located by position.
#[derive(Debug)]
pub struct AllSlice {
    pub from: Position,
    pub direction: ReadDirection,
    pub events: Vec<ResolvedEvent>,
    pub next: Position,
}

impl AllSlice {
    pub fn new(
        direction: ReadDirection,
        from: Position,
        events: Vec<ResolvedEvent>,
        next: Position,
    ) -> (r: AllSlice)
        ensures
            r.from == from,
            r.direction == direction,
            r.events@ == events@,
            r.next == next,
    {
        AllSlice { from, direction, events, next }
    }
}

impl Slice for AllSlice {
    type Location = Position;

    fn from(&self) -> (r: Position)
        ensures
            r == self.from,
    {
        self.from
    }

    fn direction(&self) -> (r: ReadDirection)
        ensures
            r == self.direction,
    {
        self.direction
    }

    /// The end of the log when the slice is empty; else exactly the
    /// slice's events, unchanged and in order, continuing at `next`.
    fn events(self) -> (r: LocatedEvents<Position>)
        ensures
            self.events@.len() == 0 ==> r is EndOfStream,
            self.events@.len() > 0 ==> (r matches LocatedEvents::Events { events, next } && events@
                == self.events@ && next == Some(self.next)),
    {
        if self.events.len() == 0 {
            LocatedEvents::EndOfStream
        } else {
            LocatedEvents::Events { events: self.events, next: Some(self.next) }
        }
    }
}

/// Outcome of reading a single event by number.
pub struct ReadEventResult {
    pub stream_id: String,
    pub event_number: i64,
    pub event: ResolvedEvent,
}

/// A payload on the build side: serialized JSON, or opaque bytes.
pub enum Payload {
    Json(Vec<u8>),
    Binary(Vec<u8>),
}

/// A wire event record on the build side, ready to submit with a write.
pub struct NewEventMsg {
    pub event_id: Vec<u8>,
    pub event_type: String,
    pub data_content_type: i32,
    pub data: Vec<u8>,
    pub metadata_content_type: i32,
    pub metadata: Vec<u8>,
}

/// An event under construction: type, payload, optional client-supplied id
/// and optional metadata.
pub struct EventData {
    pub event_type: String,
    pub payload: Payload,
    pub id_opt: Option<u128>,
    pub metadata_payload_opt: Option<Payload>,
}

impl EventData {
    /// An event whose payload is already-serialized JSON bytes.
    pub fn json(event_type: String, payload: Vec<u8>) -> (r: EventData)
        ensures
            r.event_type@ == event_type@,
            r.payload matches Payload::Json(b) && b@ == payload@,
            r.id_opt is None,
            r.metadata_payload_opt is None,
    {
        EventData {
            event_type,
            payload: Payload::Json(payload),
            id_opt: None,
            metadata_payload_opt: None,
        }
    }

    /// An event whose payload is opaque bytes.
    pub fn binary(event_type: String, payload: Vec<u8>) -> (r: EventData)
        ensures
            r.event_type@ == event_type@,
            r.payload matches Payload::Binary(b) && b@ == payload@,
            r.id_opt is None,
            r.metadata_payload_opt is None,
    {
        EventData {
            event_type,
            payload: Payload::Binary(payload),
            id_opt: None,
            metadata_payload_opt: None,
        }
    }

    /// Sets the client-supplied event id.
    pub fn id(self, value: u128) -> (r: EventData)
        ensures
            r.id_opt == Some(value),
            r.event_type@ == self.event_type@,
            r.payload == self.payload,
            r.metadata_payload_opt == self.metadata_payload_opt,
    {
        EventData { id_opt: Some(value), ..self }
    }

    /// Attaches already-serialized JSON metadata.
    pub fn metadata_as_json(self, payload: Vec<u8>) -> (r: EventData)
        ensures
            r.metadata_payload_opt matches Some(Payload::Json(b)) && b@ == payload@,
            r.event_type@ == self.event_type@,
            r.payload == self.payload,
            r.id_opt == self.id_opt,
    {
        EventData { metadata_payload_opt: Some(Payload::Json(payload)), ..self }
    }

    /// Attaches opaque metadata bytes.
    pub fn metadata_as_binary(self, payload: Vec<u8>) -> (r: EventData)
        ensures
            r.metadata_payload_opt matches Some(Payload::Binary(b)) && b@ == payload@,
            r.event_type@ == self.event_type@,
            r.payload == self.payload,
            r.id_opt == self.id_opt,
    {
        EventData { metadata_payload_opt: Some(Payload::Binary(payload)), ..self }
    }

    /// Builds the wire record. The id is the client-supplied one when set,
    /// else a fresh random one; either way the wire field holds its sixteen
    /// big-endian bytes. A JSON payload sets content type 1, a binary one
    /// 0; absent metadata is binary and empty.
    pub fn build(self) -> (r: NewEventMsg)
        ensures
            r.event_id@.len() == 16,
            self.id_opt matches Some(u) ==> r.event_id@ == u128_be_bytes(u),
            r.event_type@ == self.event_type@,
            match self.payload {
                Payload::Json(b) => r.data_content_type == 1 && r.data@ == b@,
                Payload::Binary(b) => r.data_content_type == 0 && r.data@ == b@,
            },
            match self.metadata_payload_opt {
                Some(Payload::Json(b)) => r.metadata_content_type == 1 && r.metadata@ == b@,
                Some(Payload::Binary(b)) => r.metadata_content_type == 0 && r.metadata@ == b@,
                None => r.metadata_content_type == 0 && r.metadata@.len() == 0,
            },
    {
        let id = match self.id_opt {
            Some(u) => u,
            None => crate::id_gen::fresh_correlation_id(),
        };
        let mut event_id: Vec<u8> = Vec::new();
        crate::package::write_u128_be(&mut event_id, id);
        let (data_content_type, data) = match self.payload {
            Payload::Json(b) => (1, b),
            Payload::Binary(b) => (0, b),
        };
        let (metadata_content_type, metadata) = match self.metadata_payload_opt {
            Some(Payload::Json(b)) => (1, b),
            Some(Payload::Binary(b)) => (0, b),
            None => (0, Vec::new()),
        };
        NewEventMsg {
            event_id,
            event_type: self.event_type,
            data_content_type,
            data,
            metadata_content_type,
            metadata,
        }
    }
}

} // verus!
