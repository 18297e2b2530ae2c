//! The connection worker: the state machine of the background unit that
//! owns the feed connection.
//!
//! The worker itself runs outside this library (it blocks on the feed);
//! here stand its decisions: the phase transitions from opening the
//! connection through streaming to a stop, and the delivery of one feed
//! event through the formatter into the render sink.

use vstd::prelude::*;

verus! {

use crate::event::ChatEvent;
use crate::event::format_spec;
use crate::sink::RenderSink;
use crate::sink::sink_after_append;

/// The phase a connection worker is in.
#[derive(PartialEq, Eq, Structural, Clone, Copy, Debug)]
pub enum WorkerPhase {
    /// Opening an anonymous feed connection.
    Starting,
    /// Requesting membership in the target channel.
    Joining,
    /// Pulling events and delivering them to the sink.
    Streaming,
    /// The feed ended on its own; the worker exits normally.
    Draining,
    /// The cancellation signal arrived; the worker exits at once.
    Cancelled,
    /// Terminal: the worker's result is observable.
    Stopped,
}

/// What one pull from the feed produced.
pub enum FeedPoll {
    /// The next parsed event.
    Message(ChatEvent),
    /// The feed is exhausted: the connection was closed by the peer.
    Closed,
}

/// The state of one connection worker.
pub struct Worker {
    /// The current phase.
    pub phase: WorkerPhase,
    /// Whether joining the channel failed; set only on a join rejection,
    /// and then the worker's terminal result is that failure.
    pub join_failed: bool,
}

/// The sink model after delivering one event: one appended line when the
/// event formats to one, else unchanged.
pub open spec fn sink_after_deliver(m: Option<Seq<Seq<char>>>, e: ChatEvent) -> Option<
    Seq<Seq<char>>,
> {
    match format_spec(e) {
        Option::Some(line) => sink_after_append(m, line),
        Option::None => m,
    }
}

/// Delivers one feed event: formats it and, if a display line came out,
/// appends that line to the sink. A non-chat event, a suppressed line and
/// an absent target all leave the sink as it was; none of them fails.
pub fn deliver(sink: &mut RenderSink, e: &ChatEvent)
    ensures
        final(sink)@ == sink_after_deliver(old(sink)@, *e),
{
    match crate::event::format(e) {
        Option::Some(line) => {
            sink.append(line);
        },
        Option::None => {},
    }
}

impl Worker {
    /// A fresh worker, about to open its connection.
    pub fn new() -> (w: Self)
        ensures
            w.phase is Starting,
            !w.join_failed,
    {
        Worker { phase: WorkerPhase::Starting, join_failed: false }
    }

    /// The feed connection is open: move on to joining the channel.
    pub fn on_connected(&mut self)
        requires
            old(self).phase is Starting,
        ensures
            final(self).phase is Joining,
            final(self).join_failed == old(self).join_failed,
    {
        self.phase = WorkerPhase::Joining;
    }

    /// The join request was answered. Acceptance starts streaming; a
    /// rejection (a structurally invalid channel name) is fatal to the
    /// worker alone and becomes its terminal result.
    pub fn on_join_result(&mut self, accepted: bool)
        requires
            old(self).phase is Joining,
        ensures
            final(self).phase == (if accepted {
                WorkerPhase::Streaming
            } else {
                WorkerPhase::Stopped
            }),
            final(self).join_failed == !accepted,
    {
        if accepted {
            self.phase = WorkerPhase::Streaming;
            self.join_failed = false;
        } else {
            self.phase = WorkerPhase::Stopped;
            self.join_failed = true;
        }
    }

    /// One round of the streaming loop: deliver what the poll produced,
    /// then honour a pending cancellation. A closed feed drains the
    /// worker without touching the sink; after a delivered message the
    /// worker keeps streaming unless the cancellation signal had arrived.
    pub fn on_poll(&mut self, poll: &FeedPoll, cancel_pending: bool, sink: &mut RenderSink)
        requires
            old(self).phase is Streaming,
        ensures
            final(self).join_failed == old(self).join_failed,
            match *poll {
                FeedPoll::Closed => {
                    &&& final(self).phase is Draining
                    &&& final(sink)@ == old(sink)@
                },
                FeedPoll::Message(e) => {
                    &&& final(sink)@ == sink_after_deliver(old(sink)@, e)
                    &&& final(self).phase == (if cancel_pending {
                        WorkerPhase::Cancelled
                    } else {
                        WorkerPhase::Streaming
                    })
                },
            },
    {
        match poll {
            FeedPoll::Closed => {
                self.phase = WorkerPhase::Draining;
            },
            FeedPoll::Message(e) => {
                deliver(sink, e);
                if cancel_pending {
                    self.phase = WorkerPhase::Cancelled;
                }
            },
        }
    }

    /// A draining or cancelled worker completes: its execution unit ends
    /// and its result becomes observable.
    pub fn finish(&mut self)
        requires
            old(self).phase is Draining || old(self).phase is Cancelled,
        ensures
            final(self).phase is Stopped,
            final(self).join_failed == old(self).join_failed,
    {
        self.phase = WorkerPhase::Stopped;
    }
}

} // verus!
