//! The heartbeat monitor: liveness probing on a quiet connection and
//! deadline enforcement on an unanswered probe.

use vstd::prelude::*;

verus! {

/// What a heartbeat check decided.
#[derive(Debug, PartialEq, Eq, Copy, Clone, Structural)]
pub enum HeartbeatDecision {
    /// The connection has been quiet long enough: send a heartbeat request.
    SendProbe,
    /// An outstanding probe went unanswered past the timeout: the
    /// connection is dead.
    Dead,
    /// Nothing to do.
    Quiet,
}

/// Tracks the instant of the last inbound package and of the outstanding
/// probe, if one is out. Instants are milliseconds on the driver's clock.
pub struct HeartbeatMonitor {
    pub last_ingress: u64,
    pub probe_sent_at: Option<u64>,
}

impl HeartbeatMonitor {
    pub fn new(now: u64) -> (r: HeartbeatMonitor)
        ensures
            r.last_ingress == now,
            r.probe_sent_at is None,
    {
        HeartbeatMonitor { last_ingress: now, probe_sent_at: None }
    }

    /// Any inbound package is proof of life: it refreshes the ingress
    /// instant and clears the outstanding probe.
    pub fn on_ingress(&mut self, now: u64)
        ensures
            final(self).last_ingress == now,
            final(self).probe_sent_at is None,
    {
        self.last_ingress = now;
        self.probe_sent_at = None;
    }

    /// The periodic check. With no probe outstanding and the connection
    /// quiet for at least `heartbeat_delay`, a probe goes out and its
    /// instant is recorded; with a probe outstanding and unanswered for at
    /// least `heartbeat_timeout`, the connection is declared dead;
    /// otherwise nothing changes.
    pub fn on_tick(&mut self, now: u64, heartbeat_delay: u64, heartbeat_timeout: u64) -> (r:
        HeartbeatDecision)
        requires
            old(self).last_ingress <= now,
            old(self).probe_sent_at matches Some(t) ==> t <= now,
        ensures
            match r {
                HeartbeatDecision::SendProbe => {
                    &&& old(self).probe_sent_at is None
                    &&& now - old(self).last_ingress >= heartbeat_delay
                    &&& final(self).probe_sent_at == Some(now)
                    &&& final(self).last_ingress == old(self).last_ingress
                },
                HeartbeatDecision::Dead => {
                    &&& old(self).probe_sent_at matches Some(t) && now - t >= heartbeat_timeout
                    &&& *final(self) == *old(self)
                },
                HeartbeatDecision::Quiet => {
                    &&& *final(self) == *old(self)
                    &&& match old(self).probe_sent_at {
                        None => now - old(self).last_ingress < heartbeat_delay,
                        Some(t) => now - t < heartbeat_timeout,
                    }
                },
            },
    {
        match self.probe_sent_at {
            None => {
                if now - self.last_ingress >= heartbeat_delay {
                    self.probe_sent_at = Some(now);
                    HeartbeatDecision::SendProbe
                } else {
                    HeartbeatDecision::Quiet
                }
            },
            Some(t) => {
                if now - t >= heartbeat_timeout {
                    HeartbeatDecision::Dead
                } else {
                    HeartbeatDecision::Quiet
                }
            },
        }
    }
}

} // verus!
