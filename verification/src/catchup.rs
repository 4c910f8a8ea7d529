//! The catch-up flow: a subscription that first reads a stream's history
//! slice by slice, then upgrades to a live (volatile) subscription with no
//! gap. Events of the overlap around the upgrade are told apart by event
//! number here; consumers dedupe by event id across the seam.

use vstd::prelude::*;

verus! {

/// What the catch-up flow asks the driver to do next.
#[derive(Debug, PartialEq, Eq, Copy, Clone, Structural)]
pub enum CatchupAction {
    /// Read the next historical slice, starting at this event number.
    ReadSlice { from: i64 },
    /// The live edge is near: subscribe to the stream.
    SubscribeLive,
}

/// The catch-up phase of one subscription: where the next historical read
/// starts, and whether the flow has gone live.
pub struct CatchupSubscription {
    pub next_from: i64,
    pub live: bool,
}

impl CatchupSubscription {
    /// A catch-up starting at the given event number, in the historical
    /// phase.
    pub fn new(from: i64) -> (r: CatchupSubscription)
        ensures
            r.next_from == from,
            !r.live,
    {
        CatchupSubscription { next_from: from, live: false }
    }

    /// The first read of the historical phase.
    pub fn start(&self) -> (r: CatchupAction)
        requires
            !self.live,
        ensures
            r == (CatchupAction::ReadSlice { from: self.next_from }),
    {
        CatchupAction::ReadSlice { from: self.next_from }
    }

    /// Takes the outcome of one historical read: the server's continuation
    /// point and whether the end of the stream was reached. The next read
    /// continues exactly at the continuation — no gap — and the flow goes
    /// live exactly when the history is exhausted.
    pub fn on_slice(&mut self, next_num_opt: Option<i64>, end_of_stream: bool) -> (r: CatchupAction)
        requires
            !old(self).live,
        ensures
            final(self).next_from == (match next_num_opt {
                Some(n) => n,
                None => old(self).next_from,
            }),
            final(self).live == end_of_stream,
            r == (if end_of_stream {
                CatchupAction::SubscribeLive
            } else {
                CatchupAction::ReadSlice { from: final(self).next_from }
            }),
    {
        match next_num_opt {
            Some(n) => {
                self.next_from = n;
            },
            None => (),
        }
        if end_of_stream {
            self.live = true;
            CatchupAction::SubscribeLive
        } else {
            CatchupAction::ReadSlice { from: self.next_from }
        }
    }

    /// Whether a live event is new to this subscription. The live phase
    /// may replay a bounded overlap of events the historical phase already
    /// delivered; exactly those below the continuation point are dropped,
    /// so none is delivered twice and none is skipped.
    pub fn live_event_is_new(&self, event_number: i64) -> (r: bool)
        requires
            self.live,
        ensures
            r == (event_number >= self.next_from),
    {
        event_number >= self.next_from
    }
}

} // verus!
