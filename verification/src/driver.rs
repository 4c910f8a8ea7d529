//! The event-loop driver: one mailbox message at a time, dispatched to the
//! connection supervisor, the heartbeat monitor and the operation registry,
//! emitting outbound packages and sink resolutions.

use vstd::prelude::*;
use vstd::string::StrSliceExecFns;
use crate::commands::{
    CMD_CLIENT_IDENTIFIED, CMD_HEARTBEAT_REQUEST, CMD_HEARTBEAT_RESPONSE, CMD_IDENTIFY_CLIENT,
};
use crate::heartbeat::{HeartbeatDecision, HeartbeatMonitor};
use crate::package::Package;
use crate::registry::{
    Operation, OperationRegistry, PackageOutcome, RegisterOutcome, RegistryAction,
};
use crate::supervisor::{ConnectionState, DisconnectDecision, Supervisor};
use crate::types::{OperationError, Settings};

verus! {

/// One message of the driver's mailbox.
pub enum Msg {
    /// Begin the first connection attempt.
    Start,
    /// The transport opened a socket.
    Connected,
    /// An inbound package from the transport.
    Pkg(Package),
    /// A new operation with its result sink key assigned by the caller of
    /// `submit`.
    NewOp { op: Operation },
    /// The periodic timer.
    Tick,
    /// The transport lost the socket.
    Disconnected,
    /// Begin closing.
    Shutdown,
}

/// What the driver asks its surroundings to do.
pub enum Output {
    /// Write this package to the transport.
    Send(Package),
    /// Open a socket to the endpoint.
    ConnectTransport,
    /// Drop the socket: the heartbeat declared the connection dead. A
    /// `Disconnected` message is expected to follow.
    CloseTransport,
    /// Resolve the sink of the operation with this key with the payload of
    /// the package that completed it.
    CompleteOp { key: u64, response: Package },
    /// Resolve the sink of the operation with this key with this error.
    FailOp { key: u64, error: OperationError },
    /// The connection is closed for good.
    Closed,
}

/// The credentials a submitted operation goes out with: its own when it
/// carries any, else the configured default user's.
pub open spec fn effective_creds(op: Operation, settings: Settings) -> Option<(Seq<u8>, Seq<u8>)> {
    match op.creds_opt {
        Some(c) => Some((c.login@, c.password@)),
        None => match settings.default_user {
            Some(c) => Some((c.login@, c.password@)),
            None => None,
        },
    }
}

/// What a submission on an open connection owes: on a live connection the
/// request package went out under a correlation id now in flight and the
/// operation entered the registry under its key; on a dormant one it
/// queued silently; only if every bounded draw of a fresh correlation id
/// collided did the sink fail with `ConnectionClosed`, the registry
/// untouched.
pub open spec fn submit_effects(
    pre: Core,
    post: Core,
    out_pre: Seq<Output>,
    out_post: Seq<Output>,
    op: Operation,
    key: u64,
) -> bool {
    ||| (pre.supervisor.state == ConnectionState::Connected && out_post.len() == out_pre.len() + 1
        && (out_post.last() matches Output::Send(p) && p@.cmd == op@.cmd && p@.creds
        == effective_creds(op, pre.settings) && p@.payload == op@.payload
        && post.registry.contains_id(p@.correlation)) && post.registry.contains_key(key)
        && post.registry.entries@.len() == pre.registry.entries@.len() + 1 && (forall|j: int|
        0 <= j < out_pre.len() ==> out_post[j] == out_pre[j]))
    ||| (pre.supervisor.state != ConnectionState::Connected && out_post == out_pre
        && post.registry.contains_key(key) && post.registry.entries@.len()
        == pre.registry.entries@.len() + 1)
    ||| (out_post == out_pre.push(
        Output::FailOp { key, error: OperationError::ConnectionClosed },
    ) && post.registry.entries@ == pre.registry.entries@)
}

/// The core: all mutable state of the client, confined to the driver.
pub struct Core {
    pub settings: Settings,
    pub supervisor: Supervisor,
    pub heartbeat: HeartbeatMonitor,
    pub registry: OperationRegistry,
    pub next_key: u64,
}

impl Core {
    /// The registry invariants hold and its policy mirrors the settings.
    pub open spec fn wf(&self) -> bool {
        &&& self.registry.wf()
        &&& self.registry.operation_timeout == self.settings.operation_timeout
        &&& self.registry.operation_check_period == self.settings.operation_check_period
    }

    pub fn new(settings: Settings, now: u64) -> (r: Core)
        ensures
            r.wf(),
            r.supervisor.state == ConnectionState::Init,
            r.registry.entries@.len() == 0,
            r.next_key == 0,
    {
        let supervisor = Supervisor::new(settings.connection_retry);
        let heartbeat = HeartbeatMonitor::new(now);
        let registry = OperationRegistry::new(
            settings.operation_retry,
            settings.operation_timeout,
            settings.operation_check_period,
        );
        Core { settings, supervisor, heartbeat, registry, next_key: 0 }
    }

    /// Number of operations in flight or queued.
    pub fn in_flight(&self) -> (r: usize)
        ensures
            r == self.registry.entries@.len(),
    {
        self.registry.len()
    }

    /// Submits a new operation under a fresh sink key, handed back to the
    /// caller to match the later completion. When the connection is closed
    /// the sink fails at once with `ConnectionClosed`.
    pub fn submit(&mut self, op: Operation, now: u64, out: &mut Vec<Output>) -> (key: u64)
        requires
            old(self).wf(),
            old(self).next_key < u64::MAX,
            now + old(self).settings.operation_timeout <= u64::MAX,
        ensures
            final(self).wf(),
            final(self).settings == old(self).settings,
            final(self).heartbeat == old(self).heartbeat,
            final(self).supervisor == old(self).supervisor,
            key == old(self).next_key,
            (old(self).supervisor.state == ConnectionState::Closing || old(self).supervisor.state
                == ConnectionState::Closed) ==> final(out)@ == old(out)@.push(
                Output::FailOp { key: old(self).next_key, error: OperationError::ConnectionClosed },
            ) && final(self).registry.entries@ == old(self).registry.entries@,
            !(old(self).supervisor.state == ConnectionState::Closing || old(self).supervisor.state
                == ConnectionState::Closed) ==> submit_effects(
                *old(self),
                *final(self),
                old(out)@,
                final(out)@,
                op,
                key,
            ),
    {
        let key = self.next_key;
        self.next_key = self.next_key + 1;
        match self.supervisor.state {
            ConnectionState::Closing | ConnectionState::Closed => {
                out.push(Output::FailOp { key, error: OperationError::ConnectionClosed });
                return key;
            },
            _ => (),
        }
        if self.registry.has_key(key) {
            // Keys count up and the counter never wraps, so a live entry
            // under a fresh key cannot happen; refuse the submission.
            out.push(Output::FailOp { key, error: OperationError::ConnectionClosed });
            return key;
        }
        let eff_op = match op.creds_opt {
            Some(c) => Operation { creds_opt: Some(c), ..op },
            None => {
                let creds_opt = match &self.settings.default_user {
                    Some(c) => Some(
                        crate::package::Credentials::new(
                            crate::package::copy_range(&c.login, 0, c.login.len()),
                            crate::package::copy_range(&c.password, 0, c.password.len()),
                        ),
                    ),
                    None => None,
                };
                Operation { creds_opt, ..op }
            },
        };
        proof {
            assert(eff_op@.cmd == op@.cmd && eff_op@.payload == op@.payload && eff_op@.creds
                == effective_creds(op, self.settings));
        }
        let connected = self.supervisor.is_connected();
        let mut tries: usize = 0;
        while tries < 8
            invariant
                self.wf(),
                !self.registry.contains_key(key),
                now + self.settings.operation_timeout <= u64::MAX,
                self.settings == old(self).settings,
                self.heartbeat == old(self).heartbeat,
                self.supervisor == old(self).supervisor,
                self.registry.entries@ == old(self).registry.entries@,
                out@ == old(out)@,
                key == old(self).next_key,
                old(self).supervisor.state != ConnectionState::Closing,
                old(self).supervisor.state != ConnectionState::Closed,
                connected == (old(self).supervisor.state == ConnectionState::Connected),
                eff_op@.cmd == op@.cmd,
                eff_op@.payload == op@.payload,
                eff_op@.creds == effective_creds(op, old(self).settings),
            decreases 8 - tries,
        {
            let id = crate::id_gen::fresh_correlation_id();
            let op2 = crate::registry::clone_operation(&eff_op);
            match self.registry.register(key, op2, id, now, connected) {
                RegisterOutcome::Sent(pkg) => {
                    out.push(Output::Send(pkg));
                    return key;
                },
                RegisterOutcome::Queued => {
                    return key;
                },
                RegisterOutcome::IdInUse => {
                    tries = tries + 1;
                },
            }
        }
        // Eight fresh random ids all collided with ids in flight; give up
        // rather than loop without bound.
        out.push(Output::FailOp { key, error: OperationError::ConnectionClosed });
        key
    }

    /// Handles one mailbox message and appends what it produced to `out`.
    pub fn handle_msg(&mut self, msg: Msg, now: u64, out: &mut Vec<Output>)
        requires
            old(self).wf(),
            now + old(self).settings.operation_timeout <= u64::MAX,
            now + old(self).settings.operation_check_period <= u64::MAX,
            old(self).heartbeat.last_ingress <= now,
            old(self).heartbeat.probe_sent_at matches Some(t) ==> t <= now,
        ensures
            final(self).wf(),
            final(self).settings == old(self).settings,
            final(self).heartbeat.last_ingress <= now,
            final(self).heartbeat.probe_sent_at matches Some(t) ==> t <= now,
            msg is Pkg ==> final(self).heartbeat.last_ingress == now
                && final(self).heartbeat.probe_sent_at is None,
            msg matches Msg::Pkg(p) ==> (p.cmd == CMD_HEARTBEAT_REQUEST ==> final(out)@.len()
                == old(out)@.len() + 1 && (final(out)@.last() matches Output::Send(q) && q.cmd
                == CMD_HEARTBEAT_RESPONSE && q.correlation == p.correlation && q.payload@.len()
                == 0)),
            (msg is Connected && old(self).supervisor.state == ConnectionState::Connecting) ==> (
            final(out)@.last() matches Output::Send(q) && q.cmd == CMD_IDENTIFY_CLIENT),
            (msg is Tick && old(self).heartbeat.probe_sent_at is None && now - old(self).heartbeat.last_ingress >= old(self).settings.heartbeat_delay) ==> (
            final(out)@[old(out)@.len() as int] matches Output::Send(q) && q.cmd
                == CMD_HEARTBEAT_REQUEST && q.payload@.len() == 0),
            msg is Tick ==> (old(self).heartbeat.probe_sent_at matches Some(t) ==> (now - t
                >= old(self).settings.heartbeat_timeout ==> final(out)@[old(out)@.len() as int]
                == Output::CloseTransport)),
            msg is Shutdown ==> final(self).registry.entries@.len() == 0
                && final(self).supervisor.state == ConnectionState::Closed,
            msg is Shutdown ==> final(out)@.len() == old(out)@.len() + old(self).registry.entries@.len() + 1 && (forall|k: int|
                0 <= k < old(self).registry.entries@.len() ==> final(out)@[old(out)@.len() + k]
                    == (Output::FailOp {
                    key: old(self).registry.entries@[k].key,
                    error: OperationError::ConnectionClosed,
                })) && final(out)@.last() == Output::Closed,
    {
        match msg {
            Msg::Start => {
                match self.supervisor.state {
                    ConnectionState::Init => {
                        self.supervisor.start();
                        out.push(Output::ConnectTransport);
                    },
                    _ => (),
                }
            },
            Msg::Connected => {
                match self.supervisor.state {
                    ConnectionState::Connecting => {
                        self.supervisor.on_established();
                        let id = crate::id_gen::fresh_correlation_id();
                        let name = match &self.settings.connection_name {
                            Some(n) => n.as_str().as_bytes_vec(),
                            None => Vec::new(),
                        };
                        let pkg = Package::with_payload(CMD_IDENTIFY_CLIENT, id, None, name);
                        out.push(Output::Send(pkg));
                    },
                    _ => (),
                }
            },
            Msg::Pkg(pkg) => {
                self.heartbeat.on_ingress(now);
                if pkg.cmd == CMD_HEARTBEAT_REQUEST {
                    out.push(Output::Send(Package::new(CMD_HEARTBEAT_RESPONSE, pkg.correlation)));
                } else if pkg.cmd == CMD_HEARTBEAT_RESPONSE {
                    // Proof of life; the ingress update above is all.
                } else if pkg.cmd == CMD_CLIENT_IDENTIFIED {
                    match self.supervisor.state {
                        ConnectionState::Identifying => {
                            self.supervisor.on_identified();
                            let actions = self.registry.on_reconnected(now);
                            push_registry_actions(out, actions);
                        },
                        _ => (),
                    }
                } else {
                    let ghost pre_out = out@;
                    match self.registry.on_package(&pkg, now) {
                        PackageOutcome::Completed { key } => {
                            out.push(Output::CompleteOp { key, response: pkg });
                        },
                        PackageOutcome::Failed { key, error } => {
                            out.push(Output::FailOp { key, error });
                            if error == OperationError::ProtocolError {
                                // A protocol error is the one failure that
                                // forces a disconnect.
                                out.push(Output::CloseTransport);
                            }
                        },
                        PackageOutcome::Requeued { .. } => (),
                        PackageOutcome::Ignored => (),
                    }
                    proof {
                        assert forall|i: int|
                            0 <= i < old(self).registry.entries@.len() && (#[trigger] old(self).registry.entries@[i]).id == pkg.correlation implies out@ == pre_out
                            + routed_outputs(
                            old(self).registry.entries@[i],
                            pkg,
                            old(self).registry.retry_limit as int,
                        ) by {
                            assert(out@ =~= pre_out + routed_outputs(
                                old(self).registry.entries@[i],
                                pkg,
                                old(self).registry.retry_limit as int,
                            ));
                        }
                    }
                }
            },
            Msg::NewOp { op } => {
                // The key counter never reaches the maximum in practice;
                // were it to, further submissions are dropped rather than
                // reusing a key.
                if self.next_key < u64::MAX {
                    let _ = self.submit(op, now, out);
                }
            },
            Msg::Tick => {
                let decision = self.heartbeat.on_tick(
                    now,
                    self.settings.heartbeat_delay,
                    self.settings.heartbeat_timeout,
                );
                match decision {
                    HeartbeatDecision::SendProbe => {
                        let id = crate::id_gen::fresh_correlation_id();
                        out.push(Output::Send(Package::new(CMD_HEARTBEAT_REQUEST, id)));
                    },
                    HeartbeatDecision::Dead => {
                        out.push(Output::CloseTransport);
                    },
                    HeartbeatDecision::Quiet => (),
                }
                let connected = self.supervisor.is_connected();
                let actions = self.registry.tick(now, connected);
                let ghost acts = actions@;
                let ghost pre_out = out@;
                push_registry_actions(out, actions);
                proof {
                    assert forall|k: int|
                        0 <= k < old(self).registry.entries@.len()
                            && crate::registry::entry_due_failed(
                            #[trigger] old(self).registry.entries@[k],
                            now,
                        ) implies exists|a: int|
                        pre_out.len() <= a < out@.len() && out@[a] == (Output::FailOp {
                            key: old(self).registry.entries@[k].key,
                            error: OperationError::OperationTimeout,
                        }) by {
                        let w = choose|w: int|
                            0 <= w < acts.len() && (#[trigger] acts[w] matches RegistryAction::Fail {
                                key: kk,
                                error: ee,
                            } && kk == old(self).registry.entries@[k].key && ee
                                == OperationError::OperationTimeout);
                        assert(out@[pre_out.len() + w] == action_output(acts[w]));
                    }
                }
            },
            Msg::Disconnected => {
                match self.supervisor.state {
                    ConnectionState::Connecting
                    | ConnectionState::Identifying
                    | ConnectionState::Connected => {
                        match self.supervisor.on_disconnected() {
                            DisconnectDecision::Reconnect => {
                                out.push(Output::ConnectTransport);
                            },
                            DisconnectDecision::Close => {
                                let actions = self.registry.on_closing();
                                let ghost acts = actions@;
                                let ghost pre_out = out@;
                                push_registry_actions(out, actions);
                                proof {
                                    assert forall|k: int|
                                        0 <= k < acts.len() implies out@[pre_out.len() + k] == (
                                    Output::FailOp {
                                        key: old(self).registry.entries@[k].key,
                                        error: OperationError::ConnectionClosed,
                                    }) by {
                                        assert(out@[pre_out.len() + k] == action_output(acts[k]));
                                    }
                                }
                                out.push(Output::Closed);
                            },
                        }
                    },
                    _ => (),
                }
            },
            Msg::Shutdown => {
                self.supervisor.close();
                let actions = self.registry.on_closing();
                let ghost acts = actions@;
                let ghost pre_out = out@;
                push_registry_actions(out, actions);
                proof {
                    assert forall|k: int|
                        0 <= k < acts.len() implies out@[pre_out.len() + k] == (Output::FailOp {
                        key: old(self).registry.entries@[k].key,
                        error: OperationError::ConnectionClosed,
                    }) by {
                        assert(out@[pre_out.len() + k] == action_output(acts[k]));
                    }
                }
                out.push(Output::Closed);
            },
        }
    }
}

/// The outputs the driver owes for a non-heartbeat package that reached
/// the in-flight entry `e`: a completion resolves the sink with the
/// package; a failure resolves the sink with the error, and a protocol
/// error additionally forces a disconnect; a busy requeue emits nothing.
pub open spec fn routed_outputs(e: crate::registry::OpEntry, pkg: Package, retry_limit: int) -> Seq<
    Output,
> {
    match crate::registry::routing_verdict(e, pkg, retry_limit) {
        PackageOutcome::Completed { key } => seq![Output::CompleteOp { key, response: pkg }],
        PackageOutcome::Failed { key, error } => if error == OperationError::ProtocolError {
            seq![Output::FailOp { key, error }, Output::CloseTransport]
        } else {
            seq![Output::FailOp { key, error }]
        },
        PackageOutcome::Requeued { .. } => Seq::<Output>::empty(),
        PackageOutcome::Ignored => Seq::<Output>::empty(),
    }
}

/// The driver output one registry action becomes: a resubmission is a
/// package write, a failure resolves the operation's sink.
pub open spec fn action_output(a: RegistryAction) -> Output {
    match a {
        RegistryAction::Resend(pkg) => Output::Send(pkg),
        RegistryAction::Fail { key, error } => Output::FailOp { key, error },
    }
}

/// Turns registry actions into driver outputs, one for one and in order.
fn push_registry_actions(out: &mut Vec<Output>, actions: Vec<RegistryAction>)
    ensures
        final(out)@.len() == old(out)@.len() + actions@.len(),
        forall|j: int| 0 <= j < old(out)@.len() ==> final(out)@[j] == old(out)@[j],
        forall|k: int|
            0 <= k < actions@.len() ==> final(out)@[old(out)@.len() + k] == action_output(
                actions@[k],
            ),
{
    let n = actions.len();
    let ghost orig = actions@;
    let mut actions = actions;
    let mut i: usize = 0;
    while i < n
        invariant
            i <= n == orig.len(),
            actions@ == orig.skip(i as int),
            out@.len() == old(out)@.len() + i,
            forall|j: int| 0 <= j < old(out)@.len() ==> out@[j] == old(out)@[j],
            forall|k: int|
                0 <= k < i ==> out@[old(out)@.len() + k] == action_output(orig[k]),
        decreases n - i,
    {
        proof {
            assert(actions@[0] == orig[i as int]);
        }
        match actions.remove(0) {
            RegistryAction::Resend(pkg) => out.push(Output::Send(pkg)),
            RegistryAction::Fail { key, error } => out.push(Output::FailOp { key, error }),
        }
        i = i + 1;
        proof {
            assert(actions@ =~= orig.skip(i as int));
        }
    }
}

} // verus!
