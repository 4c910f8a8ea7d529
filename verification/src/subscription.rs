//! The subscription runtime on the consumer side: life-cycle events,
//! the acknowledgement environment of persistent subscriptions, and the
//! ack/nak batching that turns a consumer's verdicts into wire packages.
//!
//! Identifiers of consumer groups and nak messages are carried as the raw
//! bytes they stand for on the wire. The ack and nak payload layouts here
//! are the core's own byte model of what those packages carry; the message
//! schema of a generated protocol layer is out of the core's scope.

use vstd::prelude::*;
use crate::commands::{
    CMD_PERSISTENT_SUBSCRIPTION_ACK_EVENTS,
    CMD_PERSISTENT_SUBSCRIPTION_NAK_EVENTS,
    CMD_UNSUBSCRIBE_FROM_STREAM,
};
use crate::events::ResolvedEvent;
use crate::package::{
    append_bytes, u32_le_bytes, u128_be_bytes, write_u32_le, write_u128_be, Package, PackageModel,
};
use crate::types::{NakAction, OnEventAppeared};

verus! {

/// A life-cycle event delivered to a subscription consumer.
pub enum SubEvent {
    /// The server accepted the subscription. A consumer-group id is
    /// carried exactly for persistent subscriptions.
    Confirmed {
        id: u128,
        last_commit_position: i64,
        last_event_number: i64,
        persistent_id: Option<Vec<u8>>,
    },
    /// A new event for the consumer, with how often it was delivered
    /// before.
    EventAppeared { event: ResolvedEvent, retry_count: usize },
    /// A caller asked to be woken once the server confirms.
    HasBeenConfirmed,
    /// The server or the client ended the stream.
    Dropped,
}

impl SubEvent {
    /// The delivered event, when this is a delivery.
    pub fn event_appeared(&self) -> (r: Option<&ResolvedEvent>)
        ensures
            r is Some <==> self is EventAppeared,
    {
        match self {
            SubEvent::EventAppeared { ref event, .. } => Some(event),
            _ => None,
        }
    }

    /// A first delivery of an event.
    pub fn new_event_appeared(event: ResolvedEvent) -> (r: SubEvent)
        ensures
            r matches SubEvent::EventAppeared { event: _, retry_count } && retry_count == 0,
    {
        SubEvent::EventAppeared { event, retry_count: 0 }
    }
}

/// The wire byte of a nak disposition.
pub open spec fn nak_action_byte(a: NakAction) -> u8 {
    match a {
        NakAction::Unknown => 0u8,
        NakAction::Park => 1u8,
        NakAction::Retry => 2u8,
        NakAction::Skip => 3u8,
        NakAction::Stop => 4u8,
    }
}

/// Encodes a nak disposition for the wire.
pub fn nak_action_to_u8(a: NakAction) -> (r: u8)
    ensures
        r == nak_action_byte(a),
{
    match a {
        NakAction::Unknown => 0,
        NakAction::Park => 1,
        NakAction::Retry => 2,
        NakAction::Skip => 3,
        NakAction::Stop => 4,
    }
}

/// The sixteen big-endian bytes of each id, in order.
pub open spec fn id_list_bytes(ids: Seq<u128>) -> Seq<u8>
    decreases ids.len(),
{
    if ids.len() == 0 {
        Seq::<u8>::empty()
    } else {
        id_list_bytes(ids.drop_last()) + u128_be_bytes(ids.last())
    }
}

/// The ack payload: the length-prefixed consumer-group id, then the event
/// ids, sixteen bytes each.
pub open spec fn ack_payload_bytes(sub_id: Seq<u8>, ids: Seq<u128>) -> Seq<u8> {
    seq![sub_id.len() as u8] + sub_id + id_list_bytes(ids)
}

/// The nak payload: the length-prefixed consumer-group id, the disposition
/// byte, the length-prefixed message, then the event ids.
pub open spec fn nak_payload_bytes(
    sub_id: Seq<u8>,
    action: u8,
    message: Seq<u8>,
    ids: Seq<u128>,
) -> Seq<u8> {
    seq![sub_id.len() as u8] + sub_id + seq![action] + u32_le_bytes(message.len() as u32) + message
        + id_list_bytes(ids)
}

/// Appends the sixteen big-endian bytes of each id to `dst`.
fn write_id_list(dst: &mut Vec<u8>, ids: &Vec<u128>)
    ensures
        final(dst)@ == old(dst)@ + id_list_bytes(ids@),
{
    let n = ids.len();
    let mut i: usize = 0;
    while i < n
        invariant
            i <= n == ids@.len(),
            dst@ == old(dst)@ + id_list_bytes(ids@.take(i as int)),
        decreases n - i,
    {
        write_u128_be(dst, ids[i]);
        i = i + 1;
        proof {
            assert(ids@.take(i as int).drop_last() =~= ids@.take(i - 1));
            assert(ids@.take(i as int).last() == ids@[i - 1]);
        }
    }
    proof {
        assert(ids@.take(n as int) =~= ids@);
    }
}

/// A batch of rejected events: the ids, the disposition, and a message for
/// the server's log.
pub struct NakedEvents {
    pub ids: Vec<u128>,
    pub action: NakAction,
    pub message: Vec<u8>,
}

/// The mathematical value of a nak batch.
#[verifier::ext_equal]
pub ghost struct NakModel {
    pub ids: Seq<u128>,
    pub action: NakAction,
    pub message: Seq<u8>,
}

/// Whether two byte strings hold the same bytes.
fn bytes_eq(a: &Vec<u8>, b: &Vec<u8>) -> (r: bool)
    ensures
        r == (a@ == b@),
{
    let n = a.len();
    if n != b.len() {
        return false;
    }
    let mut i: usize = 0;
    while i < n
        invariant
            i <= n == a@.len() && n == b@.len(),
            forall|k: int| 0 <= k < i ==> a@[k] == b@[k],
        decreases n - i,
    {
        if a[i] != b[i] {
            return false;
        }
        i = i + 1;
    }
    proof {
        assert(a@ =~= b@);
    }
    true
}

/// The index of the batch sharing this (disposition, message) group, if
/// one is recorded.
fn find_group(naks: &Vec<NakedEvents>, action: NakAction, message: &Vec<u8>) -> (r: Option<usize>)
    ensures
        match r {
            Some(i) => i < naks@.len() && naks@[i as int].action == action
                && naks@[i as int].message@ == message@,
            None => forall|k: int|
                0 <= k < naks@.len() ==> !((#[trigger] naks@[k]).action == action
                    && naks@[k].message@ == message@),
        },
{
    let n = naks.len();
    let mut i: usize = 0;
    while i < n
        invariant
            i <= n == naks@.len(),
            forall|k: int|
                0 <= k < i ==> !((#[trigger] naks@[k]).action == action && naks@[k].message@
                    == message@),
        decreases n - i,
    {
        if naks[i].action == action && bytes_eq(&naks[i].message, message) {
            return Some(i);
        }
        i = i + 1;
    }
    None
}

/// What a consumer records while handling one delivered event: acks and
/// naks to flush when the hook returns, and the delivery count to report.
/// Outside a persistent subscription nothing is recorded.
pub struct SubscriptionEnv {
    acks: Vec<u128>,
    naks: Vec<NakedEvents>,
    retry_count: usize,
    persistent: bool,
}

impl SubscriptionEnv {
    /// Messages fit their length prefix, no two batches share a
    /// (disposition, message) group, and only a persistent subscription's
    /// environment records anything.
    #[verifier::type_invariant]
    pub closed spec fn wf(self) -> bool {
        &&& forall|i: int|
            0 <= i < self.naks@.len() ==> (#[trigger] self.naks@[i]).message@.len() <= u32::MAX
        &&& forall|i: int, j: int|
            #![trigger self.naks@[i], self.naks@[j]]
            0 <= i < j < self.naks@.len() ==> !(self.naks@[i].action == self.naks@[j].action
                && self.naks@[i].message@ == self.naks@[j].message@)
        &&& !self.persistent ==> self.acks@.len() == 0 && self.naks@.len() == 0
    }

    /// The acks recorded so far, in order.
    pub closed spec fn acks_spec(&self) -> Seq<u128> {
        self.acks@
    }

    /// The nak batches recorded so far, in order.
    pub closed spec fn naks_spec(&self) -> Seq<NakModel> {
        self.naks@.map_values(
            |n: NakedEvents| NakModel { ids: n.ids@, action: n.action, message: n.message@ },
        )
    }

    /// Whether this environment belongs to a persistent subscription.
    pub closed spec fn persistent_spec(&self) -> bool {
        self.persistent
    }

    /// The reported delivery count.
    pub closed spec fn retry_count_spec(&self) -> usize {
        self.retry_count
    }

    /// A fresh environment: nothing recorded yet. Outside a persistent
    /// subscription the reported delivery count is zero.
    pub fn new(retry_count: usize, persistent: bool) -> (r: SubscriptionEnv)
        ensures
            r.acks_spec().len() == 0,
            r.naks_spec().len() == 0,
            r.persistent_spec() == persistent,
            r.retry_count_spec() == (if persistent {
                retry_count
            } else {
                0usize
            }),
    {
        SubscriptionEnv {
            acks: Vec::new(),
            naks: Vec::new(),
            retry_count: if persistent {
                retry_count
            } else {
                0
            },
            persistent,
        }
    }

    /// Records one acknowledged event. Outside a persistent subscription
    /// this does nothing.
    pub fn push_ack(&mut self, id: u128)
        ensures
            final(self).persistent_spec() == old(self).persistent_spec(),
            final(self).retry_count_spec() == old(self).retry_count_spec(),
            final(self).naks_spec() == old(self).naks_spec(),
            final(self).acks_spec() == (if old(self).persistent_spec() {
                old(self).acks_spec().push(id)
            } else {
                old(self).acks_spec()
            }),
    {
        proof {
            use_type_invariant(&*self);
        }
        if self.persistent {
            let mut taken: Vec<u128> = Vec::new();
            core::mem::swap(&mut taken, &mut self.acks);
            taken.push(id);
            core::mem::swap(&mut taken, &mut self.acks);
        }
    }

    /// Records one batch of rejected events under a disposition and a
    /// message. A batch sharing its (disposition, message) group with one
    /// already recorded is coalesced into it, the new ids appended, so one
    /// group ever yields one package. Outside a persistent subscription
    /// this does nothing; a message too long for its length prefix is
    /// refused, the environment unchanged.
    pub fn push_nak_with_message(&mut self, ids: Vec<u128>, action: NakAction, message: Vec<u8>)
        ensures
            final(self).persistent_spec() == old(self).persistent_spec(),
            final(self).retry_count_spec() == old(self).retry_count_spec(),
            final(self).acks_spec() == old(self).acks_spec(),
            ({
                let pre = old(self).naks_spec();
                if !(old(self).persistent_spec() && message@.len() <= u32::MAX) {
                    final(self).naks_spec() == pre
                } else if exists|j: int|
                    0 <= j < pre.len() && (#[trigger] pre[j]).action == action && pre[j].message
                        == message@ {
                    exists|j: int|
                        0 <= j < pre.len() && (#[trigger] pre[j]).action == action && pre[j].message
                            == message@ && final(self).naks_spec() == pre.update(
                            j,
                            NakModel { ids: pre[j].ids + ids@, action, message: message@ },
                        )
                } else {
                    final(self).naks_spec() == pre.push(
                        NakModel { ids: ids@, action, message: message@ },
                    )
                }
            }),
    {
        proof {
            use_type_invariant(&*self);
        }
        if self.persistent && message.len() <= 0xFFFFFFFFusize {
            let ghost pre = self.naks@;
            let ghost mseq = message@;
            let ghost idseq = ids@;
            let found = find_group(&self.naks, action, &message);
            let mut taken: Vec<NakedEvents> = Vec::new();
            core::mem::swap(&mut taken, &mut self.naks);
            match found {
                Some(i) => {
                    let mut batch = taken.remove(i);
                    let mut ids = ids;
                    batch.ids.append(&mut ids);
                    taken.insert(i, batch);
                    core::mem::swap(&mut taken, &mut self.naks);
                    proof {
                        let post = self.naks@;
                        assert forall|x: int| 0 <= x < post.len() && x != i implies post[x]
                            == pre[x] by {
                            if x < i {
                                assert(post[x] == pre.remove(i as int).insert(
                                    i as int,
                                    post[i as int],
                                )[x]);
                            }
                        }
                        assert(self.naks_spec() =~= old(self).naks_spec().update(
                            i as int,
                            NakModel {
                                ids: old(self).naks_spec()[i as int].ids + idseq,
                                action,
                                message: mseq,
                            },
                        ));
                    }
                },
                None => {
                    taken.push(NakedEvents { ids, action, message });
                    core::mem::swap(&mut taken, &mut self.naks);
                    proof {
                        assert(self.naks_spec() =~= pre.map_values(
                            |n: NakedEvents| NakModel {
                                ids: n.ids@,
                                action: n.action,
                                message: n.message@,
                            },
                        ).push(NakModel { ids: idseq, action, message: mseq }));
                    }
                },
            }
        }
    }

    /// Records one batch of rejected events with an empty message; a batch
    /// of the same group already recorded absorbs it.
    pub fn push_nak(&mut self, ids: Vec<u128>, action: NakAction)
        ensures
            final(self).persistent_spec() == old(self).persistent_spec(),
            final(self).retry_count_spec() == old(self).retry_count_spec(),
            final(self).acks_spec() == old(self).acks_spec(),
            ({
                let pre = old(self).naks_spec();
                if !old(self).persistent_spec() {
                    final(self).naks_spec() == pre
                } else if exists|j: int|
                    0 <= j < pre.len() && (#[trigger] pre[j]).action == action && pre[j].message
                        == Seq::<u8>::empty() {
                    exists|j: int|
                        0 <= j < pre.len() && (#[trigger] pre[j]).action == action && pre[j].message
                            == Seq::<u8>::empty() && final(self).naks_spec() == pre.update(
                            j,
                            NakModel {
                                ids: pre[j].ids + ids@,
                                action,
                                message: Seq::<u8>::empty(),
                            },
                        )
                } else {
                    final(self).naks_spec() == pre.push(
                        NakModel { ids: ids@, action, message: Seq::<u8>::empty() },
                    )
                }
            }),
    {
        self.push_nak_with_message(ids, action, Vec::new())
    }

    /// How often the event in hand was delivered before.
    pub fn current_event_retry_count(&self) -> (r: usize)
        ensures
            r == self.retry_count_spec(),
    {
        self.retry_count
    }
}

/// The model of the single ack package of a flush.
pub open spec fn ack_package_model(correlation: u128, sub_id: Seq<u8>, acks: Seq<u128>) -> PackageModel {
    PackageModel {
        cmd: CMD_PERSISTENT_SUBSCRIPTION_ACK_EVENTS,
        correlation,
        creds: None,
        payload: ack_payload_bytes(sub_id, acks),
    }
}

/// The model of one nak package of a flush.
pub open spec fn nak_package_model(correlation: u128, sub_id: Seq<u8>, nak: NakModel) -> PackageModel {
    PackageModel {
        cmd: CMD_PERSISTENT_SUBSCRIPTION_NAK_EVENTS,
        correlation,
        creds: None,
        payload: nak_payload_bytes(sub_id, nak_action_byte(nak.action), nak.message, nak.ids),
    }
}

/// The packages one flush produces: one ack package exactly when any event
/// was acked, then one nak package per recorded batch, in order.
pub open spec fn flush_models(
    correlation: u128,
    sub_id: Seq<u8>,
    acks: Seq<u128>,
    naks: Seq<NakModel>,
) -> Seq<PackageModel> {
    (if acks.len() > 0 {
        seq![ack_package_model(correlation, sub_id, acks)]
    } else {
        Seq::<PackageModel>::empty()
    }) + naks.map_values(|n: NakModel| nak_package_model(correlation, sub_id, n))
}

/// Ack/nak batching: one flush yields exactly one ack package when any
/// event was acked and none otherwise — it stands first and carries every
/// acked id — and exactly one nak package per recorded batch, in order;
/// nothing else goes out.
pub proof fn lemma_ack_nak_batching(
    correlation: u128,
    sub_id: Seq<u8>,
    acks: Seq<u128>,
    naks: Seq<NakModel>,
)
    ensures
        ({
            let fm = flush_models(correlation, sub_id, acks, naks);
            let ack_count: int = if acks.len() > 0 {
                1
            } else {
                0
            };
            &&& fm.len() == ack_count + naks.len()
            &&& forall|i: int|
                0 <= i < fm.len() ==> ((#[trigger] fm[i]).cmd
                    == CMD_PERSISTENT_SUBSCRIPTION_ACK_EVENTS <==> (acks.len() > 0 && i == 0))
            &&& acks.len() > 0 ==> fm[0] == ack_package_model(correlation, sub_id, acks)
            &&& forall|k: int|
                0 <= k < naks.len() ==> fm[ack_count + k] == nak_package_model(
                    correlation,
                    sub_id,
                    #[trigger] naks[k],
                )
        }),
{
    let fm = flush_models(correlation, sub_id, acks, naks);
    let ack_count: int = if acks.len() > 0 {
        1
    } else {
        0
    };
    assert forall|i: int| 0 <= i < fm.len() implies ((#[trigger] fm[i]).cmd
        == CMD_PERSISTENT_SUBSCRIPTION_ACK_EVENTS <==> (acks.len() > 0 && i == 0)) by {
        if i >= ack_count {
            assert(fm[i] == nak_package_model(correlation, sub_id, naks[i - ack_count]));
        }
    }
    assert forall|k: int| 0 <= k < naks.len() implies fm[ack_count + k] == nak_package_model(
        correlation,
        sub_id,
        #[trigger] naks[k],
    ) by {
        assert(fm[ack_count + k] == naks.map_values(
            |n: NakModel| nak_package_model(correlation, sub_id, n),
        )[k]);
    }
}

/// The views of a package sequence.
pub open spec fn package_models(s: Seq<Package>) -> Seq<PackageModel> {
    s.map_values(|p: Package| p@)
}

/// Builds the ack payload.
fn build_ack_payload(sub_id: &Vec<u8>, acks: &Vec<u128>) -> (r: Vec<u8>)
    requires
        sub_id@.len() <= 255,
    ensures
        r@ == ack_payload_bytes(sub_id@, acks@),
{
    let mut payload: Vec<u8> = Vec::new();
    payload.push(sub_id.len() as u8);
    append_bytes(&mut payload, sub_id);
    write_id_list(&mut payload, acks);
    proof {
        assert(payload@ =~= ack_payload_bytes(sub_id@, acks@));
    }
    payload
}

/// Builds one nak payload.
fn build_nak_payload(sub_id: &Vec<u8>, nak: &NakedEvents) -> (r: Vec<u8>)
    requires
        sub_id@.len() <= 255,
        nak.message@.len() <= u32::MAX,
    ensures
        r@ == nak_payload_bytes(sub_id@, nak_action_byte(nak.action), nak.message@, nak.ids@),
{
    let mut payload: Vec<u8> = Vec::new();
    payload.push(sub_id.len() as u8);
    append_bytes(&mut payload, sub_id);
    payload.push(nak_action_to_u8(nak.action));
    write_u32_le(&mut payload, nak.message.len() as u32);
    append_bytes(&mut payload, &nak.message);
    write_id_list(&mut payload, &nak.ids);
    proof {
        assert(payload@ =~= nak_payload_bytes(
            sub_id@,
            nak_action_byte(nak.action),
            nak.message@,
            nak.ids@,
        ));
    }
    payload
}

/// Ack/nak batching: turns everything a consumer recorded while handling
/// one delivered event into wire packages. Exactly one ack package goes
/// out when any event was acked, carrying every acked id in order; exactly
/// one nak package goes out per recorded batch — and the environment keeps
/// one batch per distinct (disposition, message) group, so one group means
/// one package. All carry the subscription's correlation id and the
/// consumer-group id.
pub fn flush_env(correlation: u128, sub_id: &Vec<u8>, env: &SubscriptionEnv) -> (r: Vec<Package>)
    requires
        sub_id@.len() <= 255,
    ensures
        package_models(r@) == flush_models(correlation, sub_id@, env.acks_spec(), env.naks_spec()),
        forall|i: int, j: int|
            #![trigger env.naks_spec()[i], env.naks_spec()[j]]
            0 <= i < j < env.naks_spec().len() ==> !(env.naks_spec()[i].action
                == env.naks_spec()[j].action && env.naks_spec()[i].message
                == env.naks_spec()[j].message),
{
    proof {
        use_type_invariant(env);
        assert forall|i: int, j: int|
            #![trigger env.naks_spec()[i], env.naks_spec()[j]]
            0 <= i < j < env.naks_spec().len() implies !(env.naks_spec()[i].action
            == env.naks_spec()[j].action && env.naks_spec()[i].message
            == env.naks_spec()[j].message) by {
            assert(env.naks_spec()[i].action == env.naks@[i].action && env.naks_spec()[i].message
                == env.naks@[i].message@);
            assert(env.naks_spec()[j].action == env.naks@[j].action && env.naks_spec()[j].message
                == env.naks@[j].message@);
        }
    }
    let mut out: Vec<Package> = Vec::new();
    if env.acks.len() > 0 {
        let payload = build_ack_payload(sub_id, &env.acks);
        out.push(
            Package::with_payload(
                CMD_PERSISTENT_SUBSCRIPTION_ACK_EVENTS,
                correlation,
                None,
                payload,
            ),
        );
    }
    let n = env.naks.len();
    let ghost base = out@;
    proof {
        assert(package_models(base) =~= (if env.acks@.len() > 0 {
            seq![ack_package_model(correlation, sub_id@, env.acks@)]
        } else {
            Seq::<PackageModel>::empty()
        }));
    }
    let mut i: usize = 0;
    while i < n
        invariant
            i <= n == env.naks@.len(),
            sub_id@.len() <= 255,
            env.acks@ == env.acks_spec(),
            base.len() == (if env.acks@.len() > 0 { 1int } else { 0int }),
            package_models(base) == (if env.acks@.len() > 0 {
                seq![ack_package_model(correlation, sub_id@, env.acks@)]
            } else {
                Seq::<PackageModel>::empty()
            }),
            forall|k: int|
                0 <= k < env.naks@.len() ==> (#[trigger] env.naks@[k]).message@.len() <= u32::MAX,
            out@.len() == base.len() + i,
            out@.subrange(0, base.len() as int) == base,
            forall|k: int|
                0 <= k < i ==> (#[trigger] out@[base.len() + k])@ == nak_package_model(
                    correlation,
                    sub_id@,
                    NakModel {
                        ids: env.naks@[k].ids@,
                        action: env.naks@[k].action,
                        message: env.naks@[k].message@,
                    },
                ),
        decreases n - i,
    {
        let payload = build_nak_payload(sub_id, &env.naks[i]);
        out.push(
            Package::with_payload(
                CMD_PERSISTENT_SUBSCRIPTION_NAK_EVENTS,
                correlation,
                None,
                payload,
            ),
        );
        i = i + 1;
        proof {
            assert(out@.subrange(0, base.len() as int) =~= base);
        }
    }
    proof {
        let fm = flush_models(correlation, sub_id@, env.acks_spec(), env.naks_spec());
        assert(env.naks_spec().len() == env.naks@.len());
        assert(fm.len() == base.len() + env.naks@.len());
        assert(out@.len() == fm.len());
        assert forall|k: int| 0 <= k < out@.len() implies package_models(out@)[k] == fm[k] by {
            if k < base.len() {
                assert(out@[k] == base[k]);
                assert(package_models(base)[k] == base[k]@);
                assert(fm[k] == ack_package_model(correlation, sub_id@, env.acks_spec()));
            } else {
                let j = k - base.len();
                let m = NakModel {
                    ids: env.naks@[j].ids@,
                    action: env.naks@[j].action,
                    message: env.naks@[j].message@,
                };
                assert(out@[base.len() + j]@ == nak_package_model(correlation, sub_id@, m));
                assert(out@[k]@ == nak_package_model(correlation, sub_id@, m));
                assert(env.naks_spec()[j] == m);
                assert(fm[k] == nak_package_model(correlation, sub_id@, env.naks_spec()[j]));
            }
        }
        assert(package_models(out@) =~= fm);
    }
    out
}


/// A consumer's three hooks. `when_event_appeared` may record acks and
/// naks through the environment and returns whether the subscription goes
/// on; the runtime flushes the environment before handling the next event.
pub trait SubscriptionConsumer {
    fn when_confirmed(&mut self, id: u128, last_commit_position: i64, last_event_number: i64);

    fn when_event_appeared(&mut self, env: &mut SubscriptionEnv, event: ResolvedEvent) -> OnEventAppeared;

    fn when_dropped(&mut self);
}

/// Whether the event loop goes on after one event.
#[derive(Debug, PartialEq, Eq, Copy, Clone, Structural)]
pub enum OnEvent {
    Continue,
    Stop,
}

impl OnEvent {
    pub fn is_stop(&self) -> (r: bool)
        ensures
            r == (*self is Stop),
    {
        match *self {
            OnEvent::Continue => false,
            OnEvent::Stop => true,
        }
    }
}

/// The consumer-side record of one subscription: the confirmation id once
/// the server accepted it, the consumer-group id for a persistent one, and
/// how many confirmation waiters are pending.
pub struct SubState {
    pub confirmation_id: Option<u128>,
    pub persistent_id: Option<Vec<u8>>,
    pub pending_confirmations: usize,
}

impl SubState {
    /// The consumer-group id fits its one-byte length prefix.
    pub open spec fn wf(&self) -> bool {
        match self.persistent_id {
            Some(p) => p@.len() <= 255,
            None => true,
        }
    }

    /// A subscription not yet confirmed, with no waiters.
    pub fn new() -> (r: SubState)
        ensures
            r.confirmation_id is None,
            r.persistent_id is None,
            r.pending_confirmations == 0,
            r.wf(),
    {
        SubState { confirmation_id: None, persistent_id: None, pending_confirmations: 0 }
    }
}

/// Handles one life-cycle event against the consumer: updates the state,
/// invokes the matching hook, and yields the packages to write out along
/// with whether the subscription goes on.
///
/// On a confirmation the state records the ids and every pending waiter is
/// released. On a delivered event under a persistent subscription, what
/// the consumer recorded is flushed as its ack/nak packages; a `Drop`
/// verdict appends an unsubscribe package carrying the confirmation id,
/// invokes the on-dropped hook once, and stops the loop. A drop notice
/// releases the waiters. A wait request is answered at once when the
/// confirmation already arrived, else counted (the count saturates at its
/// ceiling rather than wrap).
pub fn on_event<C: SubscriptionConsumer>(state: &mut SubState, event: SubEvent, consumer: &mut C) -> (r: (
    Vec<Package>,
    OnEvent,
))
    requires
        old(state).wf(),
        event matches SubEvent::EventAppeared { .. } ==> old(state).confirmation_id is Some,
        event matches SubEvent::Confirmed { persistent_id: Some(p), .. } ==> p@.len() <= 255,
    ensures
        final(state).wf(),
        match event {
            SubEvent::Confirmed { id, persistent_id, .. } => {
                &&& final(state).confirmation_id == Some(id)
                &&& final(state).persistent_id == persistent_id
                &&& final(state).pending_confirmations == 0
                &&& r.0@.len() == 0
                &&& r.1 == OnEvent::Continue
            },
            SubEvent::EventAppeared { .. } => {
                &&& *final(state) == *old(state)
                &&& {
                    let corr = old(state).confirmation_id->0;
                    match old(state).persistent_id {
                        Some(pid) => exists|acks: Seq<u128>, naks: Seq<NakModel>|
                            package_models(r.0@) == flush_models(corr, pid@, acks, naks) + (
                            if r.1 is Stop {
                                seq![unsubscribe_model(corr)]
                            } else {
                                Seq::<PackageModel>::empty()
                            }),
                        None => package_models(r.0@) == (if r.1 is Stop {
                            seq![unsubscribe_model(corr)]
                        } else {
                            Seq::<PackageModel>::empty()
                        }),
                    }
                }
            },
            SubEvent::Dropped => {
                &&& final(state).confirmation_id == old(state).confirmation_id
                &&& final(state).persistent_id == old(state).persistent_id
                &&& final(state).pending_confirmations == 0
                &&& r.0@.len() == 0
                &&& r.1 == OnEvent::Continue
            },
            SubEvent::HasBeenConfirmed => {
                &&& final(state).confirmation_id == old(state).confirmation_id
                &&& final(state).persistent_id == old(state).persistent_id
                &&& final(state).pending_confirmations == (if old(state).confirmation_id is Some
                    || old(state).pending_confirmations == usize::MAX {
                    old(state).pending_confirmations as int
                } else {
                    old(state).pending_confirmations + 1
                })
                &&& r.0@.len() == 0
                &&& r.1 == OnEvent::Continue
            },
        },
{
    match event {
        SubEvent::Confirmed { id, last_commit_position, last_event_number, persistent_id } => {
            state.confirmation_id = Some(id);
            state.persistent_id = persistent_id;
            state.pending_confirmations = 0;
            consumer.when_confirmed(id, last_commit_position, last_event_number);
            (Vec::new(), OnEvent::Continue)
        },
        SubEvent::EventAppeared { event, retry_count } => {
            let corr = match &state.confirmation_id {
                Some(c) => *c,
                None => 0,
            };
            match &state.persistent_id {
                Some(pid) => {
                    let mut env = SubscriptionEnv::new(retry_count, true);
                    let decision = consumer.when_event_appeared(&mut env, event);
                    let mut pkgs = flush_env(corr, pid, &env);
                    let ghost flushed = pkgs@;
                    match decision {
                        OnEventAppeared::Drop => {
                            pkgs.push(Package::new(CMD_UNSUBSCRIBE_FROM_STREAM, corr));
                            consumer.when_dropped();
                            proof {
                                assert(package_models(pkgs@) =~= package_models(flushed) + seq![
                                    unsubscribe_model(corr),
                                ]);
                            }
                            (pkgs, OnEvent::Stop)
                        },
                        OnEventAppeared::Continue => {
                            proof {
                                assert(package_models(pkgs@) =~= package_models(flushed)
                                    + Seq::<PackageModel>::empty());
                            }
                            (pkgs, OnEvent::Continue)
                        },
                    }
                },
                None => {
                    let mut env = SubscriptionEnv::new(retry_count, false);
                    let decision = consumer.when_event_appeared(&mut env, event);
                    match decision {
                        OnEventAppeared::Drop => {
                            let mut pkgs: Vec<Package> = Vec::new();
                            pkgs.push(Package::new(CMD_UNSUBSCRIBE_FROM_STREAM, corr));
                            consumer.when_dropped();
                            proof {
                                assert(package_models(pkgs@) =~= seq![unsubscribe_model(corr)]);
                            }
                            (pkgs, OnEvent::Stop)
                        },
                        OnEventAppeared::Continue => {
                            let pkgs: Vec<Package> = Vec::new();
                            proof {
                                assert(package_models(pkgs@) =~= Seq::<PackageModel>::empty());
                            }
                            (pkgs, OnEvent::Continue)
                        },
                    }
                },
            }
        },
        SubEvent::Dropped => {
            consumer.when_dropped();
            state.pending_confirmations = 0;
            (Vec::new(), OnEvent::Continue)
        },
        SubEvent::HasBeenConfirmed => {
            match &state.confirmation_id {
                Some(_) => (),
                None => {
                    if state.pending_confirmations < usize::MAX {
                        state.pending_confirmations = state.pending_confirmations + 1;
                    }
                },
            }
            (Vec::new(), OnEvent::Continue)
        },
    }
}

/// The model of the unsubscribe package a `Drop` verdict sends: the
/// subscription's confirmation id, no credentials, no payload.
pub open spec fn unsubscribe_model(correlation: u128) -> PackageModel {
    PackageModel {
        cmd: CMD_UNSUBSCRIBE_FROM_STREAM,
        correlation,
        creds: None,
        payload: Seq::<u8>::empty(),
    }
}

/// Some event of the queue delivers an event to the consumer.
pub open spec fn has_delivery(events: Seq<SubEvent>) -> bool {
    exists|k: int| 0 <= k < events.len() && (#[trigger] events[k]) is EventAppeared
}

/// The id of the last confirmation in the queue, if any arrived.
pub open spec fn last_confirmed_id(events: Seq<SubEvent>) -> Option<u128>
    decreases events.len(),
{
    if events.len() == 0 {
        None
    } else {
        match events.last() {
            SubEvent::Confirmed { id, .. } => Some(id),
            _ => last_confirmed_id(events.drop_last()),
        }
    }
}

/// Feeds a queue of life-cycle events to the consumer in first-in
/// first-out order, stopping at the first `Stop` verdict — nothing is
/// delivered after it — and collects every package the runtime produced.
/// Yields the consumer back with the final state. A verdict can only
/// follow a delivered event, so on a queue without deliveries the whole
/// queue is processed, no package goes out, and the final confirmation id
/// is that of the last confirmation in the queue.
pub fn consume<C: SubscriptionConsumer>(events: Vec<SubEvent>, consumer: C) -> (r: (
    C,
    SubState,
    Vec<Package>,
))
    requires
        forall|k: int|
            (0 <= k < events@.len() && (#[trigger] events@[k]) matches SubEvent::EventAppeared {
                ..
            }) ==> exists|j: int|
                0 <= j < k && (#[trigger] events@[j]) is Confirmed,
        forall|k: int|
            0 <= k < events@.len() ==> ((#[trigger] events@[k]) matches SubEvent::Confirmed {
                persistent_id: Some(p),
                ..
            } ==> p@.len() <= 255),
    ensures
        r.1.wf(),
        !has_delivery(events@) ==> r.2@.len() == 0 && r.1.confirmation_id == last_confirmed_id(
            events@,
        ),
{
    let ghost orig = events@;
    let mut state = SubState::new();
    let mut consumer = consumer;
    let mut out: Vec<Package> = Vec::new();
    let n = events.len();
    let mut queue = events;
    let mut i: usize = 0;
    while i < n
        invariant
            orig == events@,
            i <= n == orig.len(),
            queue@ == orig.skip(i as int),
            state.wf(),
            forall|k: int|
                (0 <= k < queue@.len() && (#[trigger] queue@[k]) matches SubEvent::EventAppeared {
                    ..
                }) ==> state.confirmation_id is Some || exists|j: int|
                    0 <= j < k && (#[trigger] queue@[j]) is Confirmed,
            forall|k: int|
                0 <= k < queue@.len() ==> ((#[trigger] queue@[k]) matches SubEvent::Confirmed {
                    persistent_id: Some(p),
                    ..
                } ==> p@.len() <= 255),
            !has_delivery(orig) ==> out@.len() == 0 && state.confirmation_id == last_confirmed_id(
                orig.take(i as int),
            ),
        decreases n - i,
    {
        let ghost pre_events = queue@;
        let ghost pre_cid = state.confirmation_id;
        let event = queue.remove(0);
        proof {
            assert(pre_events[0] == orig[i as int]);
            assert(queue@ =~= orig.skip(i + 1));
        }
        let (mut pkgs, decision) = on_event(&mut state, event, &mut consumer);
        out.append(&mut pkgs);
        proof {
            assert forall|k: int|
                (0 <= k < queue@.len() && (#[trigger] queue@[k]) matches SubEvent::EventAppeared {
                    ..
                }) implies state.confirmation_id is Some || exists|j: int|
                0 <= j < k && (#[trigger] queue@[j]) is Confirmed by {
                assert(queue@[k] == pre_events[k + 1]);
                if state.confirmation_id is None && !(pre_events[0] is Confirmed) {
                    let j = choose|j: int| 0 <= j < k + 1 && (#[trigger] pre_events[j]) is Confirmed;
                    assert(queue@[j - 1] is Confirmed);
                }
            }
            assert forall|k: int| 0 <= k < queue@.len() implies ((#[trigger] queue@[k]) matches
                SubEvent::Confirmed { persistent_id: Some(p), .. } ==> p@.len() <= 255) by {
                assert(queue@[k] == pre_events[k + 1]);
            }
            if !has_delivery(orig) {
                assert(!(orig[i as int] is EventAppeared));
                assert(orig.take(i + 1).last() == orig[i as int]);
                assert(orig.take(i + 1).drop_last() =~= orig.take(i as int));
                assert(state.confirmation_id == last_confirmed_id(orig.take(i + 1)));
                // A verdict can only follow a delivered event.
                assert(decision == OnEvent::Continue);
            }
        }
        if decision.is_stop() {
            return (consumer, state, out);
        }
        i = i + 1;
    }
    proof {
        assert(orig.take(n as int) =~= orig);
    }
    (consumer, state, out)
}

} // verus!
