//! The decisions of the background WebSocket readers: what each read outcome leads to.

use vstd::prelude::*;

verus! {

/// What one read of a WebSocket gave.
#[derive(Clone, Copy, Debug, PartialEq, Eq, Structural)]
pub enum ReadOutcome {
    /// A text message.
    Text,
    /// A binary, ping, pong or raw frame message.
    Other,
    /// A close message.
    Close,
    /// The read timed out or would have blocked: the socket is idle.
    Idle,
    /// The connection is closed (or was already closed).
    Closed,
    /// Any other read error.
    Failed,
}

/// What the reader of the bidirectional connection does after a read.
#[derive(Clone, Copy, Debug, PartialEq, Eq, Structural)]
pub enum BidiReaderStep {
    /// Parse the text and route it.
    Dispatch,
    /// Read again.
    Continue,
    /// Fail every pending request and stop reading.
    FailAllAndStop,
}

/// The bidi reader routes text messages, stops (failing what is pending) when the connection
/// closes, and reads again after anything else, errors included.
pub fn bidi_reader_step(o: ReadOutcome) -> (s: BidiReaderStep)
    ensures
        s == (match o {
            ReadOutcome::Text => BidiReaderStep::Dispatch,
            ReadOutcome::Close | ReadOutcome::Closed => BidiReaderStep::FailAllAndStop,
            _ => BidiReaderStep::Continue,
        }),
{
    match o {
        ReadOutcome::Text => BidiReaderStep::Dispatch,
        ReadOutcome::Close | ReadOutcome::Closed => BidiReaderStep::FailAllAndStop,
        _ => BidiReaderStep::Continue,
    }
}

/// What a subscription's background reader does after a read.
#[derive(Clone, Copy, Debug, PartialEq, Eq, Structural)]
pub enum StreamReaderStep {
    /// Hand the text to the subscriber.
    Deliver,
    /// Read again.
    Continue,
    /// Wait, reconnect to the stream, and read again.
    Reconnect,
    /// Stop reading.
    Stop,
}

/// A subscription's reader hands text messages on, reads again after other messages and idle
/// timeouts, and after a read error stops if it was asked to, or else reconnects.
pub fn stream_reader_step(o: ReadOutcome, stopping: bool) -> (s: StreamReaderStep)
    ensures
        s == (match o {
            ReadOutcome::Text => StreamReaderStep::Deliver,
            ReadOutcome::Other | ReadOutcome::Close | ReadOutcome::Idle => StreamReaderStep::Continue,
            _ => if stopping {
                StreamReaderStep::Stop
            } else {
                StreamReaderStep::Reconnect
            },
        }),
{
    match o {
        ReadOutcome::Text => StreamReaderStep::Deliver,
        ReadOutcome::Other | ReadOutcome::Close | ReadOutcome::Idle => StreamReaderStep::Continue,
        _ => if stopping {
            StreamReaderStep::Stop
        } else {
            StreamReaderStep::Reconnect
        },
    }
}

/// What the WebSocket of an embedded counter cache does after a read.
#[derive(Clone, Copy, Debug, PartialEq, Eq, Structural)]
pub enum CounterSocketStep {
    /// Apply the text to the local mirror when it is an update, and return the message.
    ApplyAndReturn,
    /// Return the message as it is.
    Return,
    /// Wait, reconnect to the stream, and read again.
    Reconnect,
}

/// An embedded counter cache's socket returns every message it reads, applying text messages to the
/// local mirror first; any read error (an idle timeout included) leads to a reconnect.
pub fn counter_socket_step(o: ReadOutcome) -> (s: CounterSocketStep)
    ensures
        s == (match o {
            ReadOutcome::Text => CounterSocketStep::ApplyAndReturn,
            ReadOutcome::Other | ReadOutcome::Close => CounterSocketStep::Return,
            _ => CounterSocketStep::Reconnect,
        }),
{
    match o {
        ReadOutcome::Text => CounterSocketStep::ApplyAndReturn,
        ReadOutcome::Other | ReadOutcome::Close => CounterSocketStep::Return,
        _ => CounterSocketStep::Reconnect,
    }
}

/// Whether a subscription has been closed: closing it acts only the first time.
pub struct CloseOnce {
    closed: bool,
}

impl CloseOnce {
    /// The subscription has been closed.
    pub closed spec fn is_closed(&self) -> bool {
        self.closed
    }

    /// A subscription that is open.
    pub fn new() -> (c: Self)
        ensures
            !c.is_closed(),
    {
        CloseOnce { closed: false }
    }

    /// Closes the subscription; the result says whether this call is the one that closed it, and
    /// so should remove the listener and send the unsubscribe frame. Every later call is a no-op.
    pub fn close(&mut self) -> (first: bool)
        ensures
            first == !old(self).is_closed(),
            final(self).is_closed(),
    {
        let first = !self.closed;
        self.closed = true;
        first
    }
}

} // verus!
