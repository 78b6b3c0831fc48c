//! Per-viewer connection state: the protocol state machine that one
//! connection handler drives for exactly one viewer.

use vstd::prelude::*;

verus! {

/// Lifecycle of one viewer connection. A handler first sends the response
/// header, then streams frames, and finally closes; `Closed` is terminal.
#[derive(PartialEq, Eq, Structural, Debug, Clone, Copy)]
pub enum ViewerState {
    /// Registered with the hub; the response header has not been written yet.
    Registered,
    /// The header went out; the handler is delivering frames.
    Streaming,
    /// The connection is finished; nothing more will be written.
    Closed,
}

/// The state one connection handler keeps for its viewer. It is owned by
/// that handler alone: no other handler and no producer reads or writes it,
/// so one viewer's progress can never block another's.
pub struct ViewerConnection {
    /// Identifier handed out by the hub at registration.
    pub id: u64,
    /// Highest sequence number this viewer has been shown, initialized to
    /// the hub's current sequence number at registration time. Frames at or
    /// below this number are never delivered to this viewer.
    pub last_seq: u64,
    /// Where this connection stands in its lifecycle.
    pub state: ViewerState,
}

impl ViewerConnection {
    /// Record the outcome of writing the response header. On success the
    /// viewer starts streaming; on a write failure the connection closes and
    /// never retries.
    pub fn header_write_result(&mut self, ok: bool)
        requires
            old(self).state is Registered,
        ensures
            final(self).id == old(self).id,
            final(self).last_seq == old(self).last_seq,
            ok ==> final(self).state is Streaming,
            !ok ==> final(self).state is Closed,
    {
        if ok {
            self.state = ViewerState::Streaming;
        } else {
            self.state = ViewerState::Closed;
        }
    }

    /// Record the outcome of writing one frame. A failed write closes the
    /// connection; the returned flag tells the handler to unregister from
    /// the hub and stop. Only this viewer's state changes either way.
    pub fn frame_write_result(&mut self, ok: bool) -> (closed: bool)
        requires
            old(self).state is Streaming,
        ensures
            final(self).id == old(self).id,
            final(self).last_seq == old(self).last_seq,
            closed == !ok,
            ok ==> final(self).state is Streaming,
            !ok ==> final(self).state is Closed,
    {
        if ok {
            false
        } else {
            self.state = ViewerState::Closed;
            true
        }
    }
}

} // verus!
