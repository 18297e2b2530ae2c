//! The connection supervisor: the foreground-owned lifecycle manager
//! that holds at most one live worker.
//!
//! The supervisor decides; the caller performs. `connect` answers with
//! the action to take (spawn a worker, or nothing: one is already live),
//! `disconnect` tears the render sink down and answers whether there is a
//! worker to signal and join. Both are safe to call repeatedly and in any
//! order.

use vstd::prelude::*;

verus! {

use crate::sink::RenderSink;

/// What a `connect` call asks the caller to do.
pub enum ConnectAction {
    /// No worker was live: spawn one for this channel, with a fresh
    /// cancellation signal pair and the shared render sink.
    Spawn { channel: String },
    /// A worker is already live: a recoverable no-op, spawn nothing.
    AlreadyConnected,
}

/// What a `disconnect` call asks the caller to do.
#[derive(PartialEq, Eq, Structural, Clone, Copy, Debug)]
pub enum DisconnectOutcome {
    /// A worker was live: send the cancellation signal, wait for the
    /// worker's execution unit to finish, and discard its result.
    SignalAndJoin,
    /// No worker was live: a recoverable no-op, nothing to wait for.
    NotConnected,
}

/// Whether a worker is live after a `connect`: always.
pub open spec fn live_after_connect(live: bool) -> bool {
    true
}

/// Whether a `connect` spawns a worker: only when none was live.
pub open spec fn connect_spawns(live: bool) -> bool {
    !live
}

/// `connect` is idempotent: whatever the starting state, a second
/// `connect` in a row finds a live worker and spawns nothing, so two
/// calls leave exactly one worker live.
pub proof fn lemma_second_connect_never_spawns(live: bool)
    ensures
        live_after_connect(live),
        !connect_spawns(live_after_connect(live)),
{
}

/// The lifecycle manager for at most one connection worker.
pub struct Supervisor {
    /// Whether a worker handle (and its cancellation sender) is recorded.
    pub worker_live: bool,
}

impl Supervisor {
    /// A supervisor with no worker recorded.
    pub fn new() -> (s: Self)
        ensures
            !s.worker_live,
    {
        Supervisor { worker_live: false }
    }

    /// Requests a connection to `channel`. When a worker is already
    /// live this is a no-op — no second worker, no second feed
    /// connection; otherwise the caller is told to spawn one, and the
    /// supervisor records it as live.
    pub fn connect(&mut self, channel: String) -> (r: ConnectAction)
        ensures
            final(self).worker_live == live_after_connect(old(self).worker_live),
            match r {
                ConnectAction::Spawn { channel: c } => {
                    &&& connect_spawns(old(self).worker_live)
                    &&& c == channel
                },
                ConnectAction::AlreadyConnected => !connect_spawns(old(self).worker_live),
            },
    {
        if self.worker_live {
            ConnectAction::AlreadyConnected
        } else {
            self.worker_live = true;
            ConnectAction::Spawn { channel }
        }
    }

    /// Requests a disconnect. The render sink's target is torn down
    /// first, so no further render can be observed even with a final
    /// event in flight; then, if a worker is live, the caller is told to
    /// signal and join it, else this reports the recoverable
    /// "not connected" condition without anything to wait for. Either
    /// way no worker is recorded afterwards.
    pub fn disconnect(&mut self, sink: &mut RenderSink) -> (r: DisconnectOutcome)
        ensures
            !final(self).worker_live,
            final(sink)@ is None,
            r == (if old(self).worker_live {
                DisconnectOutcome::SignalAndJoin
            } else {
                DisconnectOutcome::NotConnected
            }),
    {
        sink.teardown();
        if self.worker_live {
            self.worker_live = false;
            DisconnectOutcome::SignalAndJoin
        } else {
            DisconnectOutcome::NotConnected
        }
    }
}

} // verus!
