//! The connection supervisor: drives the connection state machine and
//! bounds reconnection.

use vstd::prelude::*;
use crate::types::Retry;

verus! {

/// The connection's life-cycle states.
#[derive(Debug, PartialEq, Eq, Copy, Clone, Structural)]
pub enum ConnectionState {
    Init,
    Connecting,
    Identifying,
    Connected,
    Closing,
    Closed,
}

/// What the supervisor decided on a disconnect.
#[derive(Debug, PartialEq, Eq, Copy, Clone, Structural)]
pub enum DisconnectDecision {
    /// Try again: the state returns to `Connecting`.
    Reconnect,
    /// The retry bound is spent: every in-flight operation fails and the
    /// state is `Closed`.
    Close,
}

/// The connection state machine with its reconnection attempt counter.
pub struct Supervisor {
    pub state: ConnectionState,
    pub attempts: usize,
    pub retry_limit: usize,
}

impl Supervisor {
    pub fn new(connection_retry: Retry) -> (r: Supervisor)
        ensures
            r.state == ConnectionState::Init,
            r.attempts == 0,
            r.retry_limit == connection_retry.bound(),
    {
        Supervisor { state: ConnectionState::Init, attempts: 0, retry_limit: connection_retry.to_usize() }
    }

    /// Starts the first connection attempt.
    pub fn start(&mut self)
        requires
            old(self).state == ConnectionState::Init,
        ensures
            final(self).state == ConnectionState::Connecting,
            final(self).attempts == old(self).attempts,
            final(self).retry_limit == old(self).retry_limit,
    {
        self.state = ConnectionState::Connecting;
    }

    /// The socket opened: the supervisor identifies the client before the
    /// connection counts as live.
    pub fn on_established(&mut self)
        requires
            old(self).state == ConnectionState::Connecting,
        ensures
            final(self).state == ConnectionState::Identifying,
            final(self).attempts == old(self).attempts,
            final(self).retry_limit == old(self).retry_limit,
    {
        self.state = ConnectionState::Identifying;
    }

    /// The server acknowledged the identification: the connection is live
    /// and the attempt counter resets.
    pub fn on_identified(&mut self)
        requires
            old(self).state == ConnectionState::Identifying,
        ensures
            final(self).state == ConnectionState::Connected,
            final(self).attempts == 0,
            final(self).retry_limit == old(self).retry_limit,
    {
        self.state = ConnectionState::Connected;
        self.attempts = 0;
    }

    /// The transport dropped. Within the bound the state returns to
    /// `Connecting` with the attempt counted; past the bound the connection
    /// closes for good.
    pub fn on_disconnected(&mut self) -> (r: DisconnectDecision)
        requires
            old(self).state == ConnectionState::Connecting || old(self).state
                == ConnectionState::Identifying || old(self).state == ConnectionState::Connected,
        ensures
            final(self).retry_limit == old(self).retry_limit,
            match r {
                DisconnectDecision::Reconnect => {
                    &&& old(self).attempts < old(self).retry_limit
                    &&& final(self).state == ConnectionState::Connecting
                    &&& final(self).attempts == old(self).attempts + 1
                },
                DisconnectDecision::Close => {
                    &&& old(self).attempts >= old(self).retry_limit
                    &&& final(self).state == ConnectionState::Closed
                    &&& final(self).attempts == old(self).attempts
                },
            },
    {
        if self.attempts < self.retry_limit {
            self.attempts = self.attempts + 1;
            self.state = ConnectionState::Connecting;
            DisconnectDecision::Reconnect
        } else {
            self.state = ConnectionState::Closed;
            DisconnectDecision::Close
        }
    }

    /// The user asked to close: submissions are refused from here on and
    /// in-flight operations fail with `ConnectionClosed`.
    pub fn close(&mut self)
        ensures
            final(self).state == ConnectionState::Closed,
            final(self).attempts == old(self).attempts,
            final(self).retry_limit == old(self).retry_limit,
    {
        self.state = ConnectionState::Closed;
    }

    /// Whether the connection is live for submissions.
    pub fn is_connected(&self) -> (r: bool)
        ensures
            r == (self.state == ConnectionState::Connected),
    {
        match self.state {
            ConnectionState::Connected => true,
            _ => false,
        }
    }
}

} // verus!
