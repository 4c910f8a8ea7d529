//! Scalar data model of the client core: retry policies, optimistic-concurrency
//! versions, global log positions, settings and result records.
//!
//! All durations are carried as whole milliseconds in `u64` fields.

use vstd::prelude::*;
use vstd::std_specs::cmp::PartialOrdSpec;
use crate::package::Credentials;

verus! {

/// A retry policy: either unbounded, or at most the given number of retries.
#[derive(Copy, Clone, Debug)]
pub enum Retry {
    Undefinately,
    Only(usize),
}

impl Retry {
    /// The effective numeric bound of the policy: `Only(n)` bounds at `n`,
    /// `Undefinately` at the sentinel maximum.
    pub open spec fn bound(self) -> usize {
        match self {
            Retry::Undefinately => usize::MAX,
            Retry::Only(x) => x,
        }
    }

    pub fn to_usize(&self) -> (r: usize)
        ensures
            r == self.bound(),
    {
        match *self {
            Retry::Undefinately => usize::MAX,
            Retry::Only(x) => x,
        }
    }
}

/// Optimistic-concurrency condition submitted with a write.
#[derive(Copy, Clone, Debug, PartialEq, Eq, Structural)]
pub enum ExpectedVersion {
    Any,
    StreamExists,
    NoStream,
    Exact(i64),
}

impl ExpectedVersion {
    /// Wire encoding: `Any` is -2, `StreamExists` is -4, `NoStream` is -1,
    /// `Exact(n)` is `n` itself.
    pub open spec fn to_i64_spec(self) -> i64 {
        match self {
            ExpectedVersion::Any => -2i64,
            ExpectedVersion::StreamExists => -4i64,
            ExpectedVersion::NoStream => -1i64,
            ExpectedVersion::Exact(n) => n,
        }
    }

    /// Wire decoding, the inverse of `to_i64_spec` on the sentinel-free domain.
    pub open spec fn from_i64_spec(ver: i64) -> ExpectedVersion {
        if ver == -2 {
            ExpectedVersion::Any
        } else if ver == -4 {
            ExpectedVersion::StreamExists
        } else if ver == -1 {
            ExpectedVersion::NoStream
        } else {
            ExpectedVersion::Exact(ver)
        }
    }

    pub fn to_i64(self) -> (r: i64)
        ensures
            r == self.to_i64_spec(),
    {
        match self {
            ExpectedVersion::Any => -2,
            ExpectedVersion::StreamExists => -4,
            ExpectedVersion::NoStream => -1,
            ExpectedVersion::Exact(n) => n,
        }
    }

    pub fn from_i64(ver: i64) -> (r: ExpectedVersion)
        ensures
            r == ExpectedVersion::from_i64_spec(ver),
    {
        if ver == -2 {
            ExpectedVersion::Any
        } else if ver == -4 {
            ExpectedVersion::StreamExists
        } else if ver == -1 {
            ExpectedVersion::NoStream
        } else {
            ExpectedVersion::Exact(ver)
        }
    }
}

/// Decoding inverts encoding, for every version whose `Exact` payload is not
/// one of the three sentinel integers -1, -2 and -4 (an `Exact` carrying a
/// sentinel decodes to the tagged form instead).
pub proof fn lemma_expected_version_round_trip(v: ExpectedVersion)
    requires
        match v {
            ExpectedVersion::Exact(n) => n != -1 && n != -2 && n != -4,
            _ => true,
        },
    ensures
        ExpectedVersion::from_i64_spec(v.to_i64_spec()) == v,
{
}

/// Encoding inverts decoding on every integer, sentinels included.
pub proof fn lemma_expected_version_decode_encode(ver: i64)
    ensures
        ExpectedVersion::from_i64_spec(ver).to_i64_spec() == ver,
{
}

/// A coordinate in the global event log: commit and prepare offsets.
#[derive(Debug, Copy, Clone, PartialEq, Eq, Structural)]
pub struct Position {
    pub commit: i64,
    pub prepare: i64,
}

impl Position {
    /// Lexicographic order: first by commit offset, then by prepare offset.
    pub open spec fn le_spec(self, other: Position) -> bool {
        self.commit < other.commit || (self.commit == other.commit && self.prepare
            <= other.prepare)
    }

    /// The beginning of the global log.
    pub fn start() -> (r: Position)
        ensures
            r.commit == 0 && r.prepare == 0,
    {
        Position { commit: 0, prepare: 0 }
    }

    /// The sentinel that addresses the current end of the global log.
    pub fn end() -> (r: Position)
        ensures
            r.commit == -1 && r.prepare == -1,
    {
        Position { commit: -1, prepare: -1 }
    }
}

impl PartialOrd for Position {
    fn partial_cmp(&self, other: &Position) -> (r: Option<core::cmp::Ordering>) {
        if self.commit < other.commit {
            Some(core::cmp::Ordering::Less)
        } else if self.commit > other.commit {
            Some(core::cmp::Ordering::Greater)
        } else if self.prepare < other.prepare {
            Some(core::cmp::Ordering::Less)
        } else if self.prepare > other.prepare {
            Some(core::cmp::Ordering::Greater)
        } else {
            Some(core::cmp::Ordering::Equal)
        }
    }
}

impl vstd::std_specs::cmp::PartialOrdSpecImpl for Position {
    open spec fn obeys_partial_cmp_spec() -> bool {
        true
    }

    open spec fn partial_cmp_spec(&self, other: &Position) -> Option<core::cmp::Ordering> {
        if self.commit < other.commit {
            Some(core::cmp::Ordering::Less)
        } else if self.commit > other.commit {
            Some(core::cmp::Ordering::Greater)
        } else if self.prepare < other.prepare {
            Some(core::cmp::Ordering::Less)
        } else if self.prepare > other.prepare {
            Some(core::cmp::Ordering::Greater)
        } else {
            Some(core::cmp::Ordering::Equal)
        }
    }
}

/// The order on positions is the lexicographic one: `(c1,p1) <= (c2,p2)` holds
/// exactly when `c1 < c2`, or `c1 == c2` and `p1 <= p2`. In particular the
/// `start` sentinel `(0,0)` does not precede the `end` sentinel `(-1,-1)`.
pub proof fn lemma_position_ordering(a: Position, b: Position)
    ensures
        (a.partial_cmp_spec(&b) matches Some(
            core::cmp::Ordering::Less
            | core::cmp::Ordering::Equal,
        )) <==> (a.commit < b.commit || (a.commit == b.commit && a.prepare <= b.prepare)),
        a.partial_cmp_spec(&b) is Some,
        !(Position { commit: 0i64, prepare: 0i64 }).le_spec(Position { commit: -1i64, prepare: -1i64 }),
{
}

/// The lexicographic order on positions is total.
pub proof fn lemma_position_order_total(a: Position, b: Position)
    ensures
        a.le_spec(b) || b.le_spec(a),
        a.le_spec(b) && b.le_spec(a) ==> a == b,
{
}

/// Outcome of a successful write: the stream's next expected version and the
/// global position the write reached.
#[derive(Debug, PartialEq, Eq, Structural)]
pub struct WriteResult {
    pub next_expected_version: i64,
    pub position: Position,
}

/// Outcome of reading a single event.
#[derive(Debug)]
pub enum ReadEventStatus<A> {
    NotFound,
    NoStream,
    Deleted,
    Success(A),
}

/// A transaction started on the server, identified by a signed 64-bit handle.
#[derive(PartialEq, Eq, Copy, Clone, Debug, Structural)]
pub struct TransactionId(pub i64);

impl TransactionId {
    pub fn new(id: i64) -> (r: TransactionId)
        ensures
            r.0 == id,
    {
        TransactionId(id)
    }
}

/// Direction of a slice read.
#[derive(Copy, Clone, Debug)]
pub enum ReadDirection {
    Forward,
    Backward,
}

/// Error cases of a stream read surfaced to the caller.
#[derive(Debug)]
pub enum ReadStreamError {
    NoStream(String),
    StreamDeleted(String),
    NotModified(String),
    Error(String),
    AccessDenied(String),
}

/// Outcome of a stream read: a slice, or one of the expected error cases.
#[derive(Debug)]
pub enum ReadStreamStatus<A> {
    Success(A),
    Error(ReadStreamError),
}

/// Server-directed disposition of a rejected (naked) event.
#[derive(Debug, PartialEq, Eq, Copy, Clone, Structural)]
pub enum NakAction {
    Unknown,
    Park,
    Retry,
    Skip,
    Stop,
}

/// A consumer's verdict on a delivered event: keep the subscription, or end it.
#[derive(Debug, PartialEq, Eq, Copy, Clone, Structural)]
pub enum OnEventAppeared {
    Continue,
    Drop,
}

/// How a persistent subscription spreads events over competing consumers.
#[derive(Copy, Clone, PartialEq, Eq, Debug, Structural)]
pub enum SystemConsumerStrategy {
    DispatchToSingle,
    RoundRobin,
}

impl SystemConsumerStrategy {
    pub fn as_str(&self) -> (r: &'static str)
        ensures
            self is DispatchToSingle ==> r@ == "DispatchToSingle"@,
            self is RoundRobin ==> r@ == "RoundRobin"@,
    {
        match *self {
            SystemConsumerStrategy::DispatchToSingle => "DispatchToSingle",
            SystemConsumerStrategy::RoundRobin => "RoundRobin",
        }
    }
}

/// Process-wide configuration, immutable once the connection starts.
/// Durations are in milliseconds.
#[derive(Clone)]
pub struct Settings {
    pub heartbeat_delay: u64,
    pub heartbeat_timeout: u64,
    pub operation_timeout: u64,
    pub operation_retry: Retry,
    pub connection_retry: Retry,
    pub default_user: Option<Credentials>,
    pub connection_name: Option<String>,
    pub operation_check_period: u64,
}

impl Settings {
    pub fn default() -> (r: Settings)
        ensures
            r.heartbeat_delay == 750,
            r.heartbeat_timeout == 1500,
            r.operation_timeout == 7000,
            r.operation_retry == Retry::Only(3usize),
            r.connection_retry == Retry::Only(3usize),
            r.default_user is None,
            r.connection_name is None,
            r.operation_check_period == 1000,
    {
        Settings {
            heartbeat_delay: 750,
            heartbeat_timeout: 1500,
            operation_timeout: 7000,
            operation_retry: Retry::Only(3),
            connection_retry: Retry::Only(3),
            default_user: None,
            connection_name: None,
            operation_check_period: 1000,
        }
    }
}

/// Settings of a named consumer group, as submitted with the persistent
/// subscription admin actions. Durations are in milliseconds.
#[derive(Debug, Clone)]
pub struct PersistentSubscriptionSettings {
    pub resolve_link_tos: bool,
    pub start_from: i64,
    pub extra_stats: bool,
    pub msg_timeout: u64,
    pub max_retry_count: u16,
    pub live_buf_size: u16,
    pub read_batch_size: u16,
    pub history_buf_size: u16,
    pub checkpoint_after: u64,
    pub min_checkpoint_count: u16,
    pub max_checkpoint_count: u16,
    pub max_subs_count: u16,
    pub named_consumer_strategy: SystemConsumerStrategy,
}

impl PersistentSubscriptionSettings {
    pub fn default() -> (r: PersistentSubscriptionSettings)
        ensures
            !r.resolve_link_tos,
            r.start_from == -1,
            !r.extra_stats,
            r.msg_timeout == 30000,
            r.max_retry_count == 500,
            r.live_buf_size == 500,
            r.read_batch_size == 10,
            r.history_buf_size == 20,
            r.checkpoint_after == 2000,
            r.min_checkpoint_count == 10,
            r.max_checkpoint_count == 1000,
            r.max_subs_count == 0,
            r.named_consumer_strategy == SystemConsumerStrategy::RoundRobin,
    {
        PersistentSubscriptionSettings {
            resolve_link_tos: false,
            // -1 addresses the end of the stream, so the group starts on
            // events appended after its creation.
            start_from: -1,
            extra_stats: false,
            msg_timeout: 30000,
            max_retry_count: 500,
            live_buf_size: 500,
            read_batch_size: 10,
            history_buf_size: 20,
            checkpoint_after: 2000,
            min_checkpoint_count: 10,
            max_checkpoint_count: 1000,
            // 0 leaves the number of concurrent consumers unbounded.
            max_subs_count: 0,
            named_consumer_strategy: SystemConsumerStrategy::RoundRobin,
        }
    }
}

/// Outcome of a persistent-subscription admin action.
#[derive(Debug, Eq, PartialEq, Structural)]
pub enum PersistActionResult {
    Success,
    Failure(PersistActionError),
}

impl PersistActionResult {
    pub fn is_success(&self) -> (r: bool)
        ensures
            r == (*self is Success),
    {
        match *self {
            PersistActionResult::Success => true,
            _ => false,
        }
    }

    pub fn is_failure(&self) -> (r: bool)
        ensures
            r == (*self is Failure),
    {
        !self.is_success()
    }
}

/// Error cases of a persistent-subscription admin action.
#[derive(Debug, Eq, PartialEq, Structural)]
pub enum PersistActionError {
    Fail,
    AlreadyExists,
    DoesNotExist,
    AccessDenied,
}

/// The error taxonomy surfaced to result sinks.
#[derive(Debug, PartialEq, Eq, Copy, Clone, Structural)]
pub enum OperationError {
    ConnectionClosed,
    OperationTimeout,
    ServerBusy,
    NotAuthenticated,
    AccessDenied,
    ProtocolError,
}

} // verus!
