//! The operation registry: correlates server responses to in-flight user
//! requests and enforces time, liveness and retry bounds.
//!
//! Each in-flight operation holds a correlation id, a deadline and a retry
//! budget. The registry keeps correlation ids pairwise distinct, and since
//! every resubmission under a fresh id spends one retry, the budget bounds
//! the number of correlation ids an operation can ever use.

use vstd::prelude::*;
use crate::commands::{CMD_BAD_REQUEST, CMD_NOT_AUTHENTICATED, CMD_NOT_HANDLED};
use crate::package::{Credentials, Package, PackageModel, copy_range};
use crate::types::{OperationError, Retry};

verus! {

/// An abstract unit of work: the request package to produce, and the command
/// tag its completion answers with.
pub struct Operation {
    pub cmd: u8,
    pub response_cmd: u8,
    pub creds_opt: Option<Credentials>,
    pub payload: Vec<u8>,
}

/// The mathematical value of an operation.
#[verifier::ext_equal]
pub ghost struct OperationModel {
    pub cmd: u8,
    pub response_cmd: u8,
    pub creds: Option<(Seq<u8>, Seq<u8>)>,
    pub payload: Seq<u8>,
}

impl View for Operation {
    type V = OperationModel;

    open spec fn view(&self) -> OperationModel {
        OperationModel {
            cmd: self.cmd,
            response_cmd: self.response_cmd,
            creds: match self.creds_opt {
                Some(c) => Some((c.login@, c.password@)),
                None => None,
            },
            payload: self.payload@,
        }
    }
}

/// Copies an operation, field for field.
pub fn clone_operation(op: &Operation) -> (r: Operation)
    ensures
        r@ == op@,
{
    let creds_opt = match &op.creds_opt {
        Some(c) => Some(
            Credentials::new(
                copy_range(&c.login, 0, c.login.len()),
                copy_range(&c.password, 0, c.password.len()),
            ),
        ),
        None => None,
    };
    let r = Operation {
        cmd: op.cmd,
        response_cmd: op.response_cmd,
        creds_opt,
        payload: copy_range(&op.payload, 0, op.payload.len()),
    };
    proof {
        assert(r@ =~= op@);
    }
    r
}

/// Builds the wire package that submits `op` under correlation id `id`.
pub fn operation_package(op: &Operation, id: u128) -> (r: Package)
    ensures
        r@ == (PackageModel { cmd: op@.cmd, correlation: id, creds: op@.creds, payload: op@.payload }),
{
    let c = clone_operation(op);
    let r = Package::with_payload(c.cmd, id, c.creds_opt, c.payload);
    proof {
        assert(r@ =~= PackageModel {
            cmd: op@.cmd,
            correlation: id,
            creds: op@.creds,
            payload: op@.payload,
        });
    }
    r
}

/// One in-flight operation: its user-facing key (stable across retries), its
/// current correlation id, deadline, retry budget and phase.
pub struct OpEntry {
    pub key: u64,
    pub id: u128,
    pub op: Operation,
    pub deadline: u64,
    pub retries_left: usize,
    pub queued: bool,
    pub busy_requeues: usize,
}

/// Entries agree on everything: key, id, timing, budget and operation.
pub open spec fn entry_eq(a: OpEntry, b: OpEntry) -> bool {
    &&& a.key == b.key
    &&& a.id == b.id
    &&& a.op@ =~= b.op@
    &&& a.deadline == b.deadline
    &&& a.retries_left == b.retries_left
    &&& a.queued == b.queued
    &&& a.busy_requeues == b.busy_requeues
}

/// Copies an entry, field for field.
pub fn clone_entry(e: &OpEntry) -> (r: OpEntry)
    ensures
        entry_eq(r, *e),
{
    OpEntry {
        key: e.key,
        id: e.id,
        op: clone_operation(&e.op),
        deadline: e.deadline,
        retries_left: e.retries_left,
        queued: e.queued,
        busy_requeues: e.busy_requeues,
    }
}

/// What the registry hands back to the driver.
pub enum RegisterOutcome {
    /// The connection is live: the request package to write out.
    Sent(Package),
    /// No live connection: the operation waits in the registry.
    Queued,
    /// The offered correlation id is already in flight; offer another.
    IdInUse,
}

/// Routing verdict for one inbound package.
pub enum PackageOutcome {
    /// The operation with this key finished; its sink gets the payload of
    /// the routed package.
    Completed { key: u64 },
    /// The operation failed for good; its sink gets the error.
    Failed { key: u64, error: OperationError },
    /// The server was busy: the operation waits and will be submitted again.
    Requeued { key: u64 },
    /// Unknown correlation id (a retired generation, or never ours): dropped.
    Ignored,
}

/// What a clock tick or a reconnect produced.
pub enum RegistryAction {
    /// Write this package out: an operation was submitted again.
    Resend(Package),
    /// The operation with this key failed for good; resolve its sink.
    Fail { key: u64, error: OperationError },
}

/// The verdict `on_package` owes for a package that reached the in-flight
/// entry `e`: the expected response command completes it, authentication
/// errors and bad requests fail it for good, a busy server requeues it up
/// to the busy ceiling, and any other command is a protocol error.
pub open spec fn routing_verdict(e: OpEntry, pkg: Package, retry_limit: int) -> PackageOutcome {
    if pkg.cmd == e.op.response_cmd {
        PackageOutcome::Completed { key: e.key }
    } else if pkg.cmd == CMD_NOT_AUTHENTICATED {
        PackageOutcome::Failed { key: e.key, error: OperationError::NotAuthenticated }
    } else if pkg.cmd == CMD_BAD_REQUEST {
        PackageOutcome::Failed { key: e.key, error: OperationError::ProtocolError }
    } else if pkg.cmd == CMD_NOT_HANDLED {
        if e.busy_requeues >= retry_limit {
            PackageOutcome::Failed { key: e.key, error: OperationError::ServerBusy }
        } else {
            PackageOutcome::Requeued { key: e.key }
        }
    } else {
        PackageOutcome::Failed { key: e.key, error: OperationError::ProtocolError }
    }
}

/// In-flight request tracking with timeouts and per-operation retry budgets.
pub struct OperationRegistry {
    pub entries: Vec<OpEntry>,
    pub retry_limit: usize,
    pub operation_timeout: u64,
    pub operation_check_period: u64,
}

impl OperationRegistry {
    /// Correlation ids pairwise distinct, keys pairwise distinct, and every
    /// entry's id accounting consistent with the retry budget.
    pub open spec fn wf(&self) -> bool {
        &&& forall|i: int, j: int|
            0 <= i < j < self.entries@.len() ==> self.entries@[i].id != self.entries@[j].id
        &&& forall|i: int, j: int|
            0 <= i < j < self.entries@.len() ==> self.entries@[i].key != self.entries@[j].key
        &&& forall|i: int|
            0 <= i < self.entries@.len() ==> (#[trigger] self.entries@[i]).retries_left
                <= self.retry_limit
    }

    /// Some in-flight entry carries this correlation id.
    pub open spec fn contains_id(&self, id: u128) -> bool {
        exists|i: int| 0 <= i < self.entries@.len() && (#[trigger] self.entries@[i]).id == id
    }

    /// Some in-flight entry carries this operation key.
    pub open spec fn contains_key(&self, key: u64) -> bool {
        exists|i: int| 0 <= i < self.entries@.len() && (#[trigger] self.entries@[i]).key == key
    }

    pub fn new(operation_retry: Retry, operation_timeout: u64, operation_check_period: u64) -> (r:
        OperationRegistry)
        ensures
            r.wf(),
            r.entries@.len() == 0,
            r.retry_limit == operation_retry.bound(),
            r.operation_timeout == operation_timeout,
            r.operation_check_period == operation_check_period,
    {
        OperationRegistry {
            entries: Vec::new(),
            retry_limit: operation_retry.to_usize(),
            operation_timeout,
            operation_check_period,
        }
    }

    /// Looks the correlation id up among the in-flight entries.
    fn find_id(&self, id: u128) -> (r: Option<usize>)
        ensures
            match r {
                Some(i) => i < self.entries@.len() && self.entries@[i as int].id == id,
                None => !self.contains_id(id),
            },
    {
        let n = self.entries.len();
        let mut i: usize = 0;
        while i < n
            invariant
                i <= n == self.entries@.len(),
                forall|k: int| 0 <= k < i ==> (#[trigger] self.entries@[k]).id != id,
            decreases n - i,
        {
            if self.entries[i].id == id {
                return Some(i);
            }
            i = i + 1;
        }
        None
    }

    /// Whether the correlation id is already in flight.
    pub fn has_id(&self, id: u128) -> (r: bool)
        ensures
            r == self.contains_id(id),
    {
        self.find_id(id).is_some()
    }

    /// Whether the operation key is in flight.
    pub fn has_key(&self, key: u64) -> (r: bool)
        ensures
            r == self.contains_key(key),
    {
        let n = self.entries.len();
        let mut i: usize = 0;
        while i < n
            invariant
                i <= n == self.entries@.len(),
                forall|k: int| 0 <= k < i ==> (#[trigger] self.entries@[k]).key != key,
            decreases n - i,
        {
            if self.entries[i].key == key {
                return true;
            }
            i = i + 1;
        }
        false
    }

    /// Number of in-flight entries.
    pub fn len(&self) -> (r: usize)
        ensures
            r == self.entries@.len(),
    {
        self.entries.len()
    }

    /// Takes a new operation in under the offered correlation id. When the
    /// connection is live the request package comes back for the transport;
    /// otherwise the operation queues until the next reconnect. An id
    /// already in flight is refused, leaving the registry unchanged.
    pub fn register(
        &mut self,
        key: u64,
        op: Operation,
        id: u128,
        now: u64,
        connected: bool,
    ) -> (r: RegisterOutcome)
        requires
            old(self).wf(),
            !old(self).contains_key(key),
            now + old(self).operation_timeout <= u64::MAX,
        ensures
            final(self).wf(),
            final(self).retry_limit == old(self).retry_limit,
            final(self).operation_timeout == old(self).operation_timeout,
            final(self).operation_check_period == old(self).operation_check_period,
            match r {
                RegisterOutcome::IdInUse => old(self).contains_id(id) && final(self).entries@
                    == old(self).entries@,
                RegisterOutcome::Sent(pkg) => {
                    &&& !old(self).contains_id(id)
                    &&& connected
                    &&& pkg@ == (PackageModel {
                        cmd: op@.cmd,
                        correlation: id,
                        creds: op@.creds,
                        payload: op@.payload,
                    })
                    &&& final(self).entries@.len() == old(self).entries@.len() + 1
                    &&& final(self).entries@.subrange(0, old(self).entries@.len() as int) == old(self).entries@
                    &&& {
                        let e = final(self).entries@.last();
                        e.key == key && e.id == id && e.op@ =~= op@ && !e.queued && e.deadline
                            == now + old(self).operation_timeout && e.retries_left == old(self).retry_limit
                    }
                },
                RegisterOutcome::Queued => {
                    &&& !old(self).contains_id(id)
                    &&& !connected
                    &&& final(self).entries@.len() == old(self).entries@.len() + 1
                    &&& final(self).entries@.subrange(0, old(self).entries@.len() as int) == old(self).entries@
                    &&& {
                        let e = final(self).entries@.last();
                        e.key == key && e.id == id && e.op@ =~= op@ && e.queued && e.retries_left
                            == old(self).retry_limit
                    }
                },
            },
    {
        if self.has_id(id) {
            return RegisterOutcome::IdInUse;
        }
        let deadline = now + self.operation_timeout;
        let pkg_opt = if connected {
            Some(operation_package(&op, id))
        } else {
            None
        };
        let entry = OpEntry {
            key,
            id,
            op,
            deadline,
            retries_left: self.retry_limit,
            queued: !connected,
            busy_requeues: 0,
        };
        let ghost pre = self.entries@;
        self.entries.push(entry);
        proof {
            assert(final(self).entries@.subrange(0, pre.len() as int) =~= pre);
        }
        match pkg_opt {
            Some(pkg) => RegisterOutcome::Sent(pkg),
            None => RegisterOutcome::Queued,
        }
    }

    /// Routes one inbound package by correlation id. An unknown id is
    /// silently dropped (it may be a retired retry generation). The expected
    /// response command completes the operation; authentication errors and
    /// bad requests fail it for good; a busy server requeues it with the
    /// retry budget untouched, until the busy ceiling is reached; any other
    /// command for a known id is a protocol error and fails it.
    pub fn on_package(&mut self, pkg: &Package, now: u64) -> (r: PackageOutcome)
        requires
            old(self).wf(),
            now + old(self).operation_check_period <= u64::MAX,
        ensures
            final(self).wf(),
            final(self).retry_limit == old(self).retry_limit,
            final(self).operation_timeout == old(self).operation_timeout,
            final(self).operation_check_period == old(self).operation_check_period,
            !old(self).contains_id(pkg.correlation) ==> r is Ignored && final(self).entries@ == old(self).entries@,
            forall|i: int|
                0 <= i < old(self).entries@.len() && (#[trigger] old(self).entries@[i]).id
                    == pkg.correlation ==> r == routing_verdict(
                    old(self).entries@[i],
                    *pkg,
                    old(self).retry_limit as int,
                ),
            match r {
                PackageOutcome::Ignored => final(self).entries@ == old(self).entries@,
                PackageOutcome::Completed { key } => {
                    &&& exists|i: int|
                        0 <= i < old(self).entries@.len() && (#[trigger] old(self).entries@[i]).id
                            == pkg.correlation && old(self).entries@[i].key == key && old(self).entries@[i].op@.response_cmd == pkg.cmd
                    &&& !final(self).contains_id(pkg.correlation)
                    &&& !final(self).contains_key(key)
                    &&& final(self).entries@.len() == old(self).entries@.len() - 1
                },
                PackageOutcome::Failed { key, error } => {
                    &&& exists|i: int|
                        0 <= i < old(self).entries@.len() && (#[trigger] old(self).entries@[i]).id
                            == pkg.correlation && old(self).entries@[i].key == key
                    &&& (error == OperationError::NotAuthenticated <==> pkg.cmd
                        == CMD_NOT_AUTHENTICATED)
                    &&& (error == OperationError::ServerBusy <==> pkg.cmd == CMD_NOT_HANDLED)
                    &&& !final(self).contains_key(key)
                    &&& final(self).entries@.len() == old(self).entries@.len() - 1
                },
                PackageOutcome::Requeued { key } => {
                    &&& pkg.cmd == CMD_NOT_HANDLED
                    &&& exists|i: int|
                        0 <= i < old(self).entries@.len() && (#[trigger] old(self).entries@[i]).id
                            == pkg.correlation && old(self).entries@[i].key == key
                    &&& exists|i: int|
                        0 <= i < final(self).entries@.len() && (#[trigger] final(self).entries@[i]).key == key && final(self).entries@[i].queued && final(self).entries@[i].deadline == now + old(self).operation_check_period
                    &&& final(self).entries@.len() == old(self).entries@.len()
                },
            },
    {
        let idx_opt = self.find_id(pkg.correlation);
        let idx = match idx_opt {
            Some(i) => i,
            None => {
                return PackageOutcome::Ignored;
            },
        };
        let key = self.entries[idx].key;
        proof {
            assert forall|i: int|
                0 <= i < self.entries@.len() && (#[trigger] self.entries@[i]).id
                    == pkg.correlation implies i == idx by {
                if i < idx as int {
                    assert(self.entries@[i].id != self.entries@[idx as int].id);
                } else if i > idx as int {
                    assert(self.entries@[idx as int].id != self.entries@[i].id);
                }
            }
        }
        if pkg.cmd == self.entries[idx].op.response_cmd {
            let ghost pre = self.entries@;
            self.entries.remove(idx);
            proof {
                lemma_remove_keeps_wf(pre, final(self).entries@, idx as int, self.retry_limit as int);
                assert(!final(self).contains_id(pkg.correlation));
                assert(!final(self).contains_key(key));
            }
            PackageOutcome::Completed { key }
        } else if pkg.cmd == CMD_NOT_AUTHENTICATED || pkg.cmd == CMD_BAD_REQUEST {
            let error = if pkg.cmd == CMD_NOT_AUTHENTICATED {
                OperationError::NotAuthenticated
            } else {
                OperationError::ProtocolError
            };
            let ghost pre = self.entries@;
            self.entries.remove(idx);
            proof {
                lemma_remove_keeps_wf(pre, final(self).entries@, idx as int, self.retry_limit as int);
                assert(!final(self).contains_key(key));
            }
            PackageOutcome::Failed { key, error }
        } else if pkg.cmd == CMD_NOT_HANDLED {
            if self.entries[idx].busy_requeues >= self.retry_limit {
                let ghost pre = self.entries@;
                self.entries.remove(idx);
                proof {
                    lemma_remove_keeps_wf(
                        pre,
                        final(self).entries@,
                        idx as int,
                        self.retry_limit as int,
                    );
                    assert(!final(self).contains_key(key));
                }
                PackageOutcome::Failed { key, error: OperationError::ServerBusy }
            } else {
                let ghost pre = self.entries@;
                let mut e = self.entries.remove(idx);
                e.queued = true;
                e.deadline = now + self.operation_check_period;
                e.busy_requeues = e.busy_requeues + 1;
                self.entries.insert(idx, e);
                proof {
                    lemma_update_keeps_wf(pre, final(self).entries@, idx as int, self.retry_limit as int);
                }
                PackageOutcome::Requeued { key }
            }
        } else {
            let ghost pre = self.entries@;
            self.entries.remove(idx);
            proof {
                lemma_remove_keeps_wf(pre, final(self).entries@, idx as int, self.retry_limit as int);
                assert(!final(self).contains_key(key));
            }
            PackageOutcome::Failed { key, error: OperationError::ProtocolError }
        }
    }
}

/// Some entry of `s` carries this correlation id.
pub open spec fn seq_has_id(s: Seq<OpEntry>, id: u128) -> bool {
    exists|i: int| 0 <= i < s.len() && (#[trigger] s[i]).id == id
}

/// Some entry of `s` carries this operation key.
pub open spec fn seq_has_key(s: Seq<OpEntry>, key: u64) -> bool {
    exists|i: int| 0 <= i < s.len() && (#[trigger] s[i]).key == key
}

/// The entry's deadline has passed with nothing left of its retry budget:
/// the operation times out for good.
pub open spec fn entry_due_failed(e: OpEntry, now: u64) -> bool {
    !e.queued && e.deadline <= now && e.retries_left == 0
}

/// The entry's deadline has passed with retries still in its budget: the
/// operation is owed a resubmission.
pub open spec fn entry_due_retry(e: OpEntry, now: u64) -> bool {
    !e.queued && e.deadline <= now && e.retries_left > 0
}

/// The wire package that submits the entry's operation under its current
/// correlation id.
pub open spec fn entry_request_model(e: OpEntry) -> PackageModel {
    PackageModel { cmd: e.op@.cmd, correlation: e.id, creds: e.op@.creds, payload: e.op@.payload }
}

/// Some action resubmits a package under this correlation id.
pub open spec fn acts_resend_id(acts: Seq<RegistryAction>, id: u128) -> bool {
    exists|a: int|
        0 <= a < acts.len() && (#[trigger] acts[a] matches RegistryAction::Resend(p)
            && p.correlation == id)
}

/// Whether some action of `acts` fails this key with this error.
pub open spec fn acts_fail_key(acts: Seq<RegistryAction>, key: u64, error: OperationError) -> bool {
    exists|a: int|
        0 <= a < acts.len() && (#[trigger] acts[a] matches RegistryAction::Fail {
            key: k,
            error: e,
        } && k == key && e == error)
}

/// Whether the correlation id is in flight within `v`.
fn vec_has_id(v: &Vec<OpEntry>, id: u128) -> (r: bool)
    ensures
        r == seq_has_id(v@, id),
{
    let n = v.len();
    let mut i: usize = 0;
    while i < n
        invariant
            i <= n == v@.len(),
            forall|k: int| 0 <= k < i ==> (#[trigger] v@[k]).id != id,
        decreases n - i,
    {
        if v[i].id == id {
            return true;
        }
        i = i + 1;
    }
    false
}

impl OperationRegistry {
    /// Applies the clock. Every non-queued entry whose deadline has passed
    /// either spends one retry — it is submitted again under a fresh
    /// correlation id, the old one retired — or, with its budget exhausted,
    /// fails with `OperationTimeout` and leaves the registry. A queued entry
    /// whose delay has passed is submitted again once the connection is
    /// live. Every key failed by an action was such an exhausted entry, and
    /// every key not exhausted survives. One proviso the contract's
    /// either-or reflects: the fresh id is random, so on the vanishing
    /// chance that it collides with one in flight the entry stays as it
    /// was and the next tick retries it.
    pub fn tick(&mut self, now: u64, connected: bool) -> (r: Vec<RegistryAction>)
        requires
            old(self).wf(),
            now + old(self).operation_timeout <= u64::MAX,
        ensures
            final(self).wf(),
            final(self).retry_limit == old(self).retry_limit,
            final(self).operation_timeout == old(self).operation_timeout,
            final(self).operation_check_period == old(self).operation_check_period,
            final(self).entries@.len() <= old(self).entries@.len(),
            forall|k: int|
                0 <= k < old(self).entries@.len() && entry_due_failed(
                    #[trigger] old(self).entries@[k],
                    now,
                ) ==> !final(self).contains_key(old(self).entries@[k].key) && acts_fail_key(
                    r@,
                    old(self).entries@[k].key,
                    OperationError::OperationTimeout,
                ),
            forall|k: int|
                0 <= k < old(self).entries@.len() && !entry_due_failed(
                    #[trigger] old(self).entries@[k],
                    now,
                ) ==> final(self).contains_key(old(self).entries@[k].key),
            forall|a: int|
                0 <= a < r@.len() ==> match #[trigger] r@[a] {
                    RegistryAction::Fail { key, error } => error == OperationError::OperationTimeout
                        && exists|k: int|
                        0 <= k < old(self).entries@.len() && entry_due_failed(
                            #[trigger] old(self).entries@[k],
                            now,
                        ) && old(self).entries@[k].key == key,
                    RegistryAction::Resend(pkg) => exists|j: int|
                        0 <= j < final(self).entries@.len() && (#[trigger] final(self).entries@[j]).id == pkg.correlation && pkg@ == entry_request_model(
                            final(self).entries@[j],
                        ),
                },
            forall|k: int|
                0 <= k < old(self).entries@.len() && entry_due_retry(
                    #[trigger] old(self).entries@[k],
                    now,
                ) ==> exists|j: int|
                    0 <= j < final(self).entries@.len() && (#[trigger] final(self).entries@[j]).key == old(self).entries@[k].key && (entry_eq(
                        final(self).entries@[j],
                        old(self).entries@[k],
                    ) || (final(self).entries@[j].retries_left == old(self).entries@[k].retries_left
                        - 1 && !final(self).entries@[j].queued && final(self).entries@[j].deadline
                        == now + old(self).operation_timeout && final(self).entries@[j].op@ =~= old(self).entries@[k].op@ && acts_resend_id(r@, final(self).entries@[j].id))),
            connected ==> forall|k: int|
                0 <= k < old(self).entries@.len() && (#[trigger] old(self).entries@[k]).queued
                    && old(self).entries@[k].deadline <= now ==> exists|j: int|
                    0 <= j < final(self).entries@.len() && (#[trigger] final(self).entries@[j]).key == old(self).entries@[k].key && final(self).entries@[j].id
                        == old(self).entries@[k].id && !final(self).entries@[j].queued && final(self).entries@[j].deadline == now + old(self).operation_timeout && final(self).entries@[j].op@ =~= old(self).entries@[k].op@ && acts_resend_id(
                        r@,
                        old(self).entries@[k].id,
                    ),
    {
        let ghost pre = self.entries@;
        let n = self.entries.len();
        let mut new_entries: Vec<OpEntry> = Vec::new();
        let mut actions: Vec<RegistryAction> = Vec::new();
        let mut i: usize = 0;
        while i < n
            invariant
                i <= n == pre.len(),
                self.entries@ == pre,
                self.wf(),
                now + self.operation_timeout <= u64::MAX,
                forall|j: int|
                    0 <= j < new_entries@.len() ==> (#[trigger] new_entries@[j]).retries_left
                        <= self.retry_limit,
                forall|j: int, k: int|
                    0 <= j < k < new_entries@.len() ==> new_entries@[j].id != new_entries@[k].id,
                forall|j: int, k: int|
                    0 <= j < k < new_entries@.len() ==> new_entries@[j].key != new_entries@[k].key,
                forall|j: int, k: int|
                    #![trigger new_entries@[j], pre[k]]
                    0 <= j < new_entries@.len() && i <= k < n ==> new_entries@[j].id != pre[k].id
                        && new_entries@[j].key != pre[k].key,
                forall|k: int|
                    0 <= k < i && entry_due_failed(#[trigger] pre[k], now) ==> !seq_has_key(
                        new_entries@,
                        pre[k].key,
                    ) && acts_fail_key(actions@, pre[k].key, OperationError::OperationTimeout),
                forall|k: int|
                    0 <= k < i && !entry_due_failed(#[trigger] pre[k], now) ==> seq_has_key(
                        new_entries@,
                        pre[k].key,
                    ),
                forall|a: int|
                    0 <= a < actions@.len() ==> match #[trigger] actions@[a] {
                        RegistryAction::Fail { key, error } => error
                            == OperationError::OperationTimeout && exists|k: int|
                            0 <= k < i && entry_due_failed(#[trigger] pre[k], now) && pre[k].key
                                == key,
                        RegistryAction::Resend(pkg) => exists|j: int|
                            0 <= j < new_entries@.len() && (#[trigger] new_entries@[j]).id
                                == pkg.correlation && pkg@ == entry_request_model(
                                new_entries@[j],
                            ),
                    },
                forall|k: int|
                    0 <= k < i && entry_due_retry(#[trigger] pre[k], now) ==> exists|j: int|
                        0 <= j < new_entries@.len() && (#[trigger] new_entries@[j]).key
                            == pre[k].key && (entry_eq(new_entries@[j], pre[k]) || (
                        new_entries@[j].retries_left == pre[k].retries_left - 1
                            && !new_entries@[j].queued && new_entries@[j].deadline == now
                            + self.operation_timeout && new_entries@[j].op@ =~= pre[k].op@
                            && acts_resend_id(actions@, new_entries@[j].id))),
                connected ==> forall|k: int|
                    0 <= k < i && (#[trigger] pre[k]).queued && pre[k].deadline <= now ==> exists|
                        j: int,
                    |
                        0 <= j < new_entries@.len() && (#[trigger] new_entries@[j]).key
                            == pre[k].key && new_entries@[j].id == pre[k].id
                            && !new_entries@[j].queued && new_entries@[j].deadline == now
                            + self.operation_timeout && new_entries@[j].op@ =~= pre[k].op@
                            && acts_resend_id(actions@, pre[k].id),
                new_entries@.len() <= i,
            decreases n - i,
        {
            let ghost prev_new = new_entries@;
            let ghost prev_actions = actions@;
            let e = &self.entries[i];
            let due = e.deadline <= now;
            if !due || (e.queued && !connected) {
                new_entries.push(clone_entry(e));
            } else if e.queued {
                let pkg = operation_package(&e.op, e.id);
                let mut e2 = clone_entry(e);
                e2.queued = false;
                e2.deadline = now + self.operation_timeout;
                new_entries.push(e2);
                actions.push(RegistryAction::Resend(pkg));
            } else if e.retries_left == 0 {
                actions.push(
                    RegistryAction::Fail { key: e.key, error: OperationError::OperationTimeout },
                );
            } else {
                let nid = crate::id_gen::fresh_correlation_id();
                if vec_has_id(&self.entries, nid) || vec_has_id(&new_entries, nid) {
                    // The fresh id collided with one in use; leave the entry
                    // as it stands and let a later tick retry it.
                    new_entries.push(clone_entry(e));
                } else {
                    let pkg = operation_package(&e.op, nid);
                    let mut e2 = clone_entry(e);
                    e2.id = nid;
                    e2.retries_left = e.retries_left - 1;
                    e2.deadline = now + self.operation_timeout;
                    new_entries.push(e2);
                    actions.push(RegistryAction::Resend(pkg));
                }
            }
            proof {
                assert forall|k: int|
                    0 <= k <= i && !entry_due_failed(pre[k], now) implies seq_has_key(
                    new_entries@,
                    pre[k].key,
                ) by {
                    if k < i && seq_has_key(prev_new, pre[k].key) {
                        let w = choose|w: int|
                            0 <= w < prev_new.len() && prev_new[w].key == pre[k].key;
                        assert(new_entries@[w].key == pre[k].key);
                    } else {
                        assert(k == i);
                        assert(new_entries@[prev_new.len() as int].key == pre[k].key);
                    }
                }
                assert forall|k: int|
                    0 <= k <= i && entry_due_failed(pre[k], now) implies !seq_has_key(
                    new_entries@,
                    pre[k].key,
                ) && acts_fail_key(actions@, pre[k].key, OperationError::OperationTimeout) by {
                    if k < i {
                        let a = choose|a: int|
                            0 <= a < prev_actions.len() && (#[trigger] prev_actions[a] matches
                            RegistryAction::Fail { key: kk, error: ee } && kk == pre[k].key && ee
                                == OperationError::OperationTimeout);
                        assert(actions@[a] == prev_actions[a]);
                    } else {
                        assert(new_entries@ == prev_new);
                        assert(actions@[prev_actions.len() as int] matches RegistryAction::Fail {
                            key: kk,
                            error: ee,
                        } && kk == pre[k].key && ee == OperationError::OperationTimeout);
                    }
                }
                assert forall|a: int| 0 <= a < actions@.len() implies match #[trigger] actions@[a] {
                    RegistryAction::Fail { key, error } => error
                        == OperationError::OperationTimeout && exists|k: int|
                        0 <= k <= i && entry_due_failed(#[trigger] pre[k], now) && pre[k].key
                            == key,
                    RegistryAction::Resend(pkg) => exists|j: int|
                        0 <= j < new_entries@.len() && (#[trigger] new_entries@[j]).id
                            == pkg.correlation && pkg@ == entry_request_model(new_entries@[j]),
                } by {
                    if a < prev_actions.len() {
                        assert(actions@[a] == prev_actions[a]);
                        match prev_actions[a] {
                            RegistryAction::Resend(pkg) => {
                                let w = choose|w: int|
                                    0 <= w < prev_new.len() && (#[trigger] prev_new[w]).id
                                        == pkg.correlation && pkg@ == entry_request_model(
                                        prev_new[w],
                                    );
                                assert(new_entries@[w] == prev_new[w]);
                            },
                            RegistryAction::Fail { key, error } => {},
                        }
                    } else {
                        match actions@[a] {
                            RegistryAction::Resend(pkg) => {
                                assert(new_entries@[prev_new.len() as int].id == pkg.correlation);
                                assert(pkg@ =~= entry_request_model(
                                    new_entries@[prev_new.len() as int],
                                ));
                            },
                            RegistryAction::Fail { key, error } => {
                                assert(entry_due_failed(pre[i as int], now));
                            },
                        }
                    }
                }
                assert forall|k: int|
                    0 <= k <= i && entry_due_retry(pre[k], now) implies exists|j: int|
                    0 <= j < new_entries@.len() && (#[trigger] new_entries@[j]).key == pre[k].key
                        && (entry_eq(new_entries@[j], pre[k]) || (new_entries@[j].retries_left
                        == pre[k].retries_left - 1 && !new_entries@[j].queued
                        && new_entries@[j].deadline == now + self.operation_timeout
                        && new_entries@[j].op@ =~= pre[k].op@ && acts_resend_id(
                        actions@,
                        new_entries@[j].id,
                    ))) by {
                    if k < i {
                        let w = choose|w: int|
                            0 <= w < prev_new.len() && (#[trigger] prev_new[w]).key == pre[k].key
                                && (entry_eq(prev_new[w], pre[k]) || (prev_new[w].retries_left
                                == pre[k].retries_left - 1 && !prev_new[w].queued
                                && prev_new[w].deadline == now + self.operation_timeout
                                && prev_new[w].op@ =~= pre[k].op@ && acts_resend_id(
                                prev_actions,
                                prev_new[w].id,
                            )));
                        assert(new_entries@[w] == prev_new[w]);
                        if acts_resend_id(prev_actions, prev_new[w].id) {
                            let a = choose|a: int|
                                0 <= a < prev_actions.len() && (#[trigger] prev_actions[a] matches
                                RegistryAction::Resend(p) && p.correlation == prev_new[w].id);
                            assert(actions@[a] == prev_actions[a]);
                        }
                    } else {
                        let j = prev_new.len() as int;
                        assert(new_entries@[j].key == pre[k].key);
                        if !entry_eq(new_entries@[j], pre[k]) {
                            assert(actions@[prev_actions.len() as int] matches
                                RegistryAction::Resend(p) && p.correlation == new_entries@[j].id);
                        }
                    }
                }
                if connected {
                    assert forall|k: int|
                        0 <= k <= i && (#[trigger] pre[k]).queued && pre[k].deadline
                        <= now implies exists|j: int|
                        0 <= j < new_entries@.len() && (#[trigger] new_entries@[j]).key
                            == pre[k].key && new_entries@[j].id == pre[k].id
                            && !new_entries@[j].queued && new_entries@[j].deadline == now
                            + self.operation_timeout && new_entries@[j].op@ =~= pre[k].op@
                            && acts_resend_id(actions@, pre[k].id) by {
                        if k < i {
                            let w = choose|w: int|
                                0 <= w < prev_new.len() && (#[trigger] prev_new[w]).key
                                    == pre[k].key && prev_new[w].id == pre[k].id
                                    && !prev_new[w].queued && prev_new[w].deadline == now
                                    + self.operation_timeout && prev_new[w].op@ =~= pre[k].op@;
                            assert(new_entries@[w] == prev_new[w]);
                            let a = choose|a: int|
                                0 <= a < prev_actions.len() && (#[trigger] prev_actions[a] matches
                                RegistryAction::Resend(p) && p.correlation == pre[k].id);
                            assert(actions@[a] == prev_actions[a]);
                        } else {
                            let j = prev_new.len() as int;
                            assert(new_entries@[j].key == pre[k].key);
                            assert(actions@[prev_actions.len() as int] matches
                                RegistryAction::Resend(p) && p.correlation == pre[k].id);
                        }
                    }
                }
            }
            i = i + 1;
        }
        self.entries = new_entries;
        actions
    }

    /// The connection came back. Queued operations flush in first-in
    /// first-out order under their ids; operations that were in flight
    /// spend one retry and go out again under a fresh correlation id —
    /// unless, on the vanishing chance of a random id collision, the entry
    /// queues for the next tick instead — and those with nothing left of
    /// their budget fail with `ConnectionClosed`.
    pub fn on_reconnected(&mut self, now: u64) -> (r: Vec<RegistryAction>)
        requires
            old(self).wf(),
            now + old(self).operation_timeout <= u64::MAX,
        ensures
            final(self).wf(),
            final(self).retry_limit == old(self).retry_limit,
            final(self).operation_timeout == old(self).operation_timeout,
            final(self).operation_check_period == old(self).operation_check_period,
            final(self).entries@.len() <= old(self).entries@.len(),
            forall|k: int|
                0 <= k < old(self).entries@.len() && entry_conn_failed(
                    #[trigger] old(self).entries@[k],
                ) ==> !final(self).contains_key(old(self).entries@[k].key) && acts_fail_key(
                    r@,
                    old(self).entries@[k].key,
                    OperationError::ConnectionClosed,
                ),
            forall|k: int|
                0 <= k < old(self).entries@.len() && !entry_conn_failed(
                    #[trigger] old(self).entries@[k],
                ) ==> final(self).contains_key(old(self).entries@[k].key),
            forall|a: int|
                0 <= a < r@.len() ==> match #[trigger] r@[a] {
                    RegistryAction::Fail { key, error } => error == OperationError::ConnectionClosed
                        && exists|k: int|
                        0 <= k < old(self).entries@.len() && entry_conn_failed(
                            #[trigger] old(self).entries@[k],
                        ) && old(self).entries@[k].key == key,
                    RegistryAction::Resend(pkg) => exists|j: int|
                        0 <= j < final(self).entries@.len() && (#[trigger] final(self).entries@[j]).id == pkg.correlation && pkg@ == entry_request_model(
                            final(self).entries@[j],
                        ),
                },
            forall|k: int|
                0 <= k < old(self).entries@.len() && (#[trigger] old(self).entries@[k]).queued
                    ==> exists|j: int|
                    0 <= j < final(self).entries@.len() && (#[trigger] final(self).entries@[j]).key == old(self).entries@[k].key && final(self).entries@[j].id
                        == old(self).entries@[k].id && !final(self).entries@[j].queued && final(self).entries@[j].deadline == now + old(self).operation_timeout && final(self).entries@[j].op@ =~= old(self).entries@[k].op@ && acts_resend_id(
                        r@,
                        old(self).entries@[k].id,
                    ),
            forall|k: int|
                0 <= k < old(self).entries@.len() && !(#[trigger] old(self).entries@[k]).queued
                    && old(self).entries@[k].retries_left > 0 ==> exists|j: int|
                    0 <= j < final(self).entries@.len() && (#[trigger] final(self).entries@[j]).key == old(self).entries@[k].key && final(self).entries@[j].op@
                        =~= old(self).entries@[k].op@ && ((final(self).entries@[j].retries_left
                        == old(self).entries@[k].retries_left - 1 && !final(self).entries@[j].queued
                        && final(self).entries@[j].deadline == now + old(self).operation_timeout
                        && acts_resend_id(r@, final(self).entries@[j].id)) || (final(self).entries@[j].queued && final(self).entries@[j].id == old(self).entries@[k].id)),
    {
        let ghost pre = self.entries@;
        let n = self.entries.len();
        let mut new_entries: Vec<OpEntry> = Vec::new();
        let mut actions: Vec<RegistryAction> = Vec::new();
        let mut i: usize = 0;
        while i < n
            invariant
                i <= n == pre.len(),
                self.entries@ == pre,
                self.wf(),
                now + self.operation_timeout <= u64::MAX,
                forall|j: int|
                    0 <= j < new_entries@.len() ==> (#[trigger] new_entries@[j]).retries_left
                        <= self.retry_limit,
                forall|j: int, k: int|
                    0 <= j < k < new_entries@.len() ==> new_entries@[j].id != new_entries@[k].id,
                forall|j: int, k: int|
                    0 <= j < k < new_entries@.len() ==> new_entries@[j].key != new_entries@[k].key,
                forall|j: int, k: int|
                    #![trigger new_entries@[j], pre[k]]
                    0 <= j < new_entries@.len() && i <= k < n ==> new_entries@[j].id != pre[k].id
                        && new_entries@[j].key != pre[k].key,
                forall|k: int|
                    0 <= k < i && entry_conn_failed(#[trigger] pre[k]) ==> !seq_has_key(
                        new_entries@,
                        pre[k].key,
                    ) && acts_fail_key(actions@, pre[k].key, OperationError::ConnectionClosed),
                forall|k: int|
                    0 <= k < i && !entry_conn_failed(#[trigger] pre[k]) ==> seq_has_key(
                        new_entries@,
                        pre[k].key,
                    ),
                forall|a: int|
                    0 <= a < actions@.len() ==> match #[trigger] actions@[a] {
                        RegistryAction::Fail { key, error } => error
                            == OperationError::ConnectionClosed && exists|k: int|
                            0 <= k < i && entry_conn_failed(#[trigger] pre[k]) && pre[k].key
                                == key,
                        RegistryAction::Resend(pkg) => exists|j: int|
                            0 <= j < new_entries@.len() && (#[trigger] new_entries@[j]).id
                                == pkg.correlation && pkg@ == entry_request_model(
                                new_entries@[j],
                            ),
                    },
                forall|k: int|
                    0 <= k < i && (#[trigger] pre[k]).queued ==> exists|j: int|
                        0 <= j < new_entries@.len() && (#[trigger] new_entries@[j]).key
                            == pre[k].key && new_entries@[j].id == pre[k].id
                            && !new_entries@[j].queued && new_entries@[j].deadline == now
                            + self.operation_timeout && new_entries@[j].op@ =~= pre[k].op@
                            && acts_resend_id(actions@, pre[k].id),
                forall|k: int|
                    0 <= k < i && !(#[trigger] pre[k]).queued && pre[k].retries_left > 0
                        ==> exists|j: int|
                        0 <= j < new_entries@.len() && (#[trigger] new_entries@[j]).key
                            == pre[k].key && new_entries@[j].op@ =~= pre[k].op@ && ((
                        new_entries@[j].retries_left == pre[k].retries_left - 1
                            && !new_entries@[j].queued && new_entries@[j].deadline == now
                            + self.operation_timeout && acts_resend_id(
                            actions@,
                            new_entries@[j].id,
                        )) || (new_entries@[j].queued && new_entries@[j].id == pre[k].id)),
                new_entries@.len() <= i,
            decreases n - i,
        {
            let ghost prev_new = new_entries@;
            let ghost prev_actions = actions@;
            let e = &self.entries[i];
            if e.queued {
                let pkg = operation_package(&e.op, e.id);
                let mut e2 = clone_entry(e);
                e2.queued = false;
                e2.deadline = now + self.operation_timeout;
                new_entries.push(e2);
                actions.push(RegistryAction::Resend(pkg));
            } else if e.retries_left == 0 {
                actions.push(
                    RegistryAction::Fail { key: e.key, error: OperationError::ConnectionClosed },
                );
            } else {
                let nid = crate::id_gen::fresh_correlation_id();
                if vec_has_id(&self.entries, nid) || vec_has_id(&new_entries, nid) {
                    // The fresh id collided with one in use; queue the entry
                    // so the next tick on a live connection flushes it.
                    let mut e2 = clone_entry(e);
                    e2.queued = true;
                    e2.deadline = now;
                    new_entries.push(e2);
                } else {
                    let pkg = operation_package(&e.op, nid);
                    let mut e2 = clone_entry(e);
                    e2.id = nid;
                    e2.retries_left = e.retries_left - 1;
                    e2.deadline = now + self.operation_timeout;
                    new_entries.push(e2);
                    actions.push(RegistryAction::Resend(pkg));
                }
            }
            proof {
                assert forall|k: int|
                    0 <= k <= i && !entry_conn_failed(pre[k]) implies seq_has_key(
                    new_entries@,
                    pre[k].key,
                ) by {
                    if k < i && seq_has_key(prev_new, pre[k].key) {
                        let w = choose|w: int|
                            0 <= w < prev_new.len() && prev_new[w].key == pre[k].key;
                        assert(new_entries@[w].key == pre[k].key);
                    } else {
                        assert(k == i);
                        assert(new_entries@[prev_new.len() as int].key == pre[k].key);
                    }
                }
                assert forall|k: int|
                    0 <= k <= i && entry_conn_failed(pre[k]) implies !seq_has_key(
                    new_entries@,
                    pre[k].key,
                ) && acts_fail_key(actions@, pre[k].key, OperationError::ConnectionClosed) by {
                    if k < i {
                        let a = choose|a: int|
                            0 <= a < prev_actions.len() && (#[trigger] prev_actions[a] matches
                            RegistryAction::Fail { key: kk, error: ee } && kk == pre[k].key && ee
                                == OperationError::ConnectionClosed);
                        assert(actions@[a] == prev_actions[a]);
                    } else {
                        assert(new_entries@ == prev_new);
                        assert(actions@[prev_actions.len() as int] matches RegistryAction::Fail {
                            key: kk,
                            error: ee,
                        } && kk == pre[k].key && ee == OperationError::ConnectionClosed);
                    }
                }
                assert forall|a: int| 0 <= a < actions@.len() implies match #[trigger] actions@[a] {
                    RegistryAction::Fail { key, error } => error
                        == OperationError::ConnectionClosed && exists|k: int|
                        0 <= k <= i && entry_conn_failed(#[trigger] pre[k]) && pre[k].key == key,
                    RegistryAction::Resend(pkg) => exists|j: int|
                        0 <= j < new_entries@.len() && (#[trigger] new_entries@[j]).id
                            == pkg.correlation && pkg@ == entry_request_model(new_entries@[j]),
                } by {
                    if a < prev_actions.len() {
                        assert(actions@[a] == prev_actions[a]);
                        match prev_actions[a] {
                            RegistryAction::Resend(pkg) => {
                                let w = choose|w: int|
                                    0 <= w < prev_new.len() && (#[trigger] prev_new[w]).id
                                        == pkg.correlation && pkg@ == entry_request_model(
                                        prev_new[w],
                                    );
                                assert(new_entries@[w] == prev_new[w]);
                            },
                            RegistryAction::Fail { key, error } => {},
                        }
                    } else {
                        match actions@[a] {
                            RegistryAction::Resend(pkg) => {
                                assert(new_entries@[prev_new.len() as int].id == pkg.correlation);
                                assert(pkg@ =~= entry_request_model(
                                    new_entries@[prev_new.len() as int],
                                ));
                            },
                            RegistryAction::Fail { key, error } => {
                                assert(entry_conn_failed(pre[i as int]));
                            },
                        }
                    }
                }
                assert forall|k: int| 0 <= k <= i && (#[trigger] pre[k]).queued implies exists|
                    j: int,
                |
                    0 <= j < new_entries@.len() && (#[trigger] new_entries@[j]).key == pre[k].key
                        && new_entries@[j].id == pre[k].id && !new_entries@[j].queued
                        && new_entries@[j].deadline == now + self.operation_timeout
                        && new_entries@[j].op@ =~= pre[k].op@ && acts_resend_id(
                        actions@,
                        pre[k].id,
                    ) by {
                    if k < i {
                        let w = choose|w: int|
                            0 <= w < prev_new.len() && (#[trigger] prev_new[w]).key == pre[k].key
                                && prev_new[w].id == pre[k].id && !prev_new[w].queued
                                && prev_new[w].deadline == now + self.operation_timeout
                                && prev_new[w].op@ =~= pre[k].op@;
                        assert(new_entries@[w] == prev_new[w]);
                        let a = choose|a: int|
                            0 <= a < prev_actions.len() && (#[trigger] prev_actions[a] matches
                            RegistryAction::Resend(p) && p.correlation == pre[k].id);
                        assert(actions@[a] == prev_actions[a]);
                    } else {
                        let j = prev_new.len() as int;
                        assert(new_entries@[j].key == pre[k].key);
                        assert(actions@[prev_actions.len() as int] matches RegistryAction::Resend(
                            p,
                        ) && p.correlation == pre[k].id);
                    }
                }
                assert forall|k: int|
                    0 <= k <= i && !(#[trigger] pre[k]).queued && pre[k].retries_left
                        > 0 implies exists|j: int|
                    0 <= j < new_entries@.len() && (#[trigger] new_entries@[j]).key == pre[k].key
                        && new_entries@[j].op@ =~= pre[k].op@ && ((new_entries@[j].retries_left
                        == pre[k].retries_left - 1 && !new_entries@[j].queued
                        && new_entries@[j].deadline == now + self.operation_timeout
                        && acts_resend_id(actions@, new_entries@[j].id)) || (
                    new_entries@[j].queued && new_entries@[j].id == pre[k].id)) by {
                    if k < i {
                        let w = choose|w: int|
                            0 <= w < prev_new.len() && (#[trigger] prev_new[w]).key == pre[k].key
                                && prev_new[w].op@ =~= pre[k].op@ && ((prev_new[w].retries_left
                                == pre[k].retries_left - 1 && !prev_new[w].queued
                                && prev_new[w].deadline == now + self.operation_timeout
                                && acts_resend_id(prev_actions, prev_new[w].id)) || (
                            prev_new[w].queued && prev_new[w].id == pre[k].id));
                        assert(new_entries@[w] == prev_new[w]);
                        if acts_resend_id(prev_actions, prev_new[w].id) {
                            let a = choose|a: int|
                                0 <= a < prev_actions.len() && (#[trigger] prev_actions[a] matches
                                RegistryAction::Resend(p) && p.correlation == prev_new[w].id);
                            assert(actions@[a] == prev_actions[a]);
                        }
                    } else {
                        let j = prev_new.len() as int;
                        assert(new_entries@[j].key == pre[k].key);
                        if !new_entries@[j].queued {
                            assert(actions@[prev_actions.len() as int] matches
                                RegistryAction::Resend(p) && p.correlation == new_entries@[j].id);
                        }
                    }
                }
            }
            i = i + 1;
        }
        self.entries = new_entries;
        actions
    }

    /// The client is closing: every in-flight or queued operation fails
    /// with `ConnectionClosed`, in registry order, and the registry empties.
    pub fn on_closing(&mut self) -> (r: Vec<RegistryAction>)
        ensures
            final(self).wf(),
            final(self).retry_limit == old(self).retry_limit,
            final(self).operation_timeout == old(self).operation_timeout,
            final(self).operation_check_period == old(self).operation_check_period,
            final(self).entries@.len() == 0,
            r@.len() == old(self).entries@.len(),
            forall|k: int|
                0 <= k < old(self).entries@.len() ==> #[trigger] r@[k] == (RegistryAction::Fail {
                    key: old(self).entries@[k].key,
                    error: OperationError::ConnectionClosed,
                }),
    {
        let ghost pre = self.entries@;
        let n = self.entries.len();
        let mut actions: Vec<RegistryAction> = Vec::new();
        let mut i: usize = 0;
        while i < n
            invariant
                i <= n == pre.len(),
                self.entries@ == pre,
                actions@.len() == i,
                forall|k: int|
                    0 <= k < i ==> #[trigger] actions@[k] == (RegistryAction::Fail {
                        key: pre[k].key,
                        error: OperationError::ConnectionClosed,
                    }),
            decreases n - i,
        {
            let key = self.entries[i].key;
            actions.push(RegistryAction::Fail { key, error: OperationError::ConnectionClosed });
            i = i + 1;
        }
        self.entries = Vec::new();
        actions
    }
}

/// The entry was in flight with nothing left of its retry budget: a lost
/// connection fails it for good.
pub open spec fn entry_conn_failed(e: OpEntry) -> bool {
    !e.queued && e.retries_left == 0
}

/// Ghost count of the correlation ids an in-flight operation has used so
/// far: its original id, plus one per spent retry.
pub open spec fn entry_ids_assigned(e: OpEntry, retry_limit: int) -> int {
    retry_limit - e.retries_left + 1
}

/// Retry bound: at any instant, every in-flight operation has been assigned
/// at least one and at most `operation_retry + 1` correlation ids; once the
/// budget is spent, the registry fails it with `OperationTimeout` on its
/// deadline (see `tick`) or `ConnectionClosed` on a lost connection (see
/// `on_reconnected` and `on_closing`), so no operation outlives the bound.
pub proof fn lemma_retry_bound(reg: OperationRegistry)
    requires
        reg.wf(),
    ensures
        forall|i: int|
            0 <= i < reg.entries@.len() ==> 1 <= entry_ids_assigned(
                #[trigger] reg.entries@[i],
                reg.retry_limit as int,
            ) <= reg.retry_limit + 1,
{
}

/// Correlation uniqueness: at any instant the correlation ids of the
/// in-flight operations are pairwise distinct.
pub proof fn lemma_correlation_uniqueness(reg: OperationRegistry)
    requires
        reg.wf(),
    ensures
        forall|i: int, j: int|
            0 <= i < j < reg.entries@.len() ==> reg.entries@[i].id != reg.entries@[j].id,
{
}

/// Replacing one entry with a twin that kept its id, key and budget keeps
/// the registry invariants.
proof fn lemma_update_keeps_wf(pre: Seq<OpEntry>, post: Seq<OpEntry>, idx: int, limit: int)
    requires
        0 <= idx < pre.len(),
        post == pre.remove(idx).insert(idx, post[idx]),
        post.len() == pre.len(),
        post[idx].id == pre[idx].id,
        post[idx].key == pre[idx].key,
        post[idx].retries_left == pre[idx].retries_left,
        forall|i: int, j: int| 0 <= i < j < pre.len() ==> pre[i].id != pre[j].id,
        forall|i: int, j: int| 0 <= i < j < pre.len() ==> pre[i].key != pre[j].key,
        forall|i: int| 0 <= i < pre.len() ==> (#[trigger] pre[i]).retries_left <= limit,
    ensures
        forall|i: int, j: int| 0 <= i < j < post.len() ==> post[i].id != post[j].id,
        forall|i: int, j: int| 0 <= i < j < post.len() ==> post[i].key != post[j].key,
        forall|i: int| 0 <= i < post.len() ==> (#[trigger] post[i]).retries_left <= limit,
{
    assert forall|i: int| 0 <= i < post.len() && i != idx implies post[i] == pre[i] by {
        if i < idx {
            assert(post[i] == pre.remove(idx).insert(idx, post[idx])[i]);
        }
    }
    assert forall|i: int, j: int| 0 <= i < j < post.len() implies post[i].id != post[j].id
        && post[i].key != post[j].key by {
        assert(i != idx ==> post[i] == pre[i]);
        assert(j != idx ==> post[j] == pre[j]);
    }
    assert forall|i: int| 0 <= i < post.len() implies (#[trigger] post[i]).retries_left
        <= limit by {
        assert(i != idx ==> post[i] == pre[i]);
    }
}

/// Removing one entry keeps the registry invariants: distinctness and the
/// accounting equation survive on the remaining entries.
proof fn lemma_remove_keeps_wf(pre: Seq<OpEntry>, post: Seq<OpEntry>, idx: int, limit: int)
    requires
        0 <= idx < pre.len(),
        post == pre.remove(idx),
        forall|i: int, j: int| 0 <= i < j < pre.len() ==> pre[i].id != pre[j].id,
        forall|i: int, j: int| 0 <= i < j < pre.len() ==> pre[i].key != pre[j].key,
        forall|i: int| 0 <= i < pre.len() ==> (#[trigger] pre[i]).retries_left <= limit,
    ensures
        forall|i: int, j: int| 0 <= i < j < post.len() ==> post[i].id != post[j].id,
        forall|i: int, j: int| 0 <= i < j < post.len() ==> post[i].key != post[j].key,
        forall|i: int| 0 <= i < post.len() ==> (#[trigger] post[i]).retries_left <= limit,
        forall|i: int|
            0 <= i < post.len() ==> (#[trigger] post[i]).id != pre[idx].id && post[i].key
                != pre[idx].key,
{
    assert forall|i: int| 0 <= i < post.len() implies (#[trigger] post[i]).id != pre[idx].id
        && post[i].key != pre[idx].key by {
        if i < idx {
            assert(post[i] == pre[i]);
        } else {
            assert(post[i] == pre[i + 1]);
        }
    }
    assert forall|i: int, j: int| 0 <= i < j < post.len() implies post[i].id != post[j].id by {
        let pi = if i < idx { i } else { i + 1 };
        let pj = if j < idx { j } else { j + 1 };
        assert(post[i] == pre[pi] && post[j] == pre[pj]);
    }
    assert forall|i: int, j: int| 0 <= i < j < post.len() implies post[i].key != post[j].key by {
        let pi = if i < idx { i } else { i + 1 };
        let pj = if j < idx { j } else { j + 1 };
        assert(post[i] == pre[pi] && post[j] == pre[pj]);
    }
    assert forall|i: int| 0 <= i < post.len() implies (#[trigger] post[i]).retries_left
        <= limit by {
        if i < idx {
            assert(post[i] == pre[i]);
        } else {
            assert(post[i] == pre[i + 1]);
        }
    }
}

} // verus!
