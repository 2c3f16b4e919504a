//! One relayed connection: a stream of the session paired with a plain TCP
//! connection.

use crate::error::ForwardError;
use crate::pipe::pipe_step;
use crate::pipe::BidirectionalPipe;
use crate::pipe::PipeAction;
use crate::pipe::PipeEnd;
use crate::pipe::PipeEvent;
use crate::pipe::Side;
use crate::session::LogicalStream;
use crate::session::LogicalStreamView;
use vstd::prelude::*;

verus! {

/// The work of relaying one connection. It owns its stream and its pipe, and
/// shares nothing with any other task nor with the forwarder that started it:
/// whatever happens to it happens to this one connection only.
#[derive(Debug, PartialEq, Eq)]
pub struct ConnectionTask {
    stream: LogicalStream,
    pipe: BidirectionalPipe,
}

/// What a `ConnectionTask` stands for.
pub struct ConnectionTaskView {
    /// The stream being relayed.
    pub stream: LogicalStreamView,
    /// `None` while the task relays, then the reason it stopped.
    pub pipe: Option<PipeEnd>,
}

impl View for ConnectionTask {
    type V = ConnectionTaskView;

    closed spec fn view(&self) -> ConnectionTaskView {
        ConnectionTaskView { stream: self.stream@, pipe: self.pipe@ }
    }
}

impl ConnectionTaskView {
    /// A task that has just been given `stream` and relays.
    pub open spec fn started(stream: LogicalStreamView) -> ConnectionTaskView {
        ConnectionTaskView { stream, pipe: None }
    }

    /// How the task ended: not yet, well, or with a failure of its relay.
    pub open spec fn outcome(self) -> Option<Result<(), ForwardError>> {
        match self.pipe {
            None => None,
            Some(end) => match end.spec_error() {
                None => Some(Ok(())),
                Some(e) => Some(Err(e)),
            },
        }
    }
}

impl ConnectionTask {
    /// The side of the pipe that stands for the plain TCP connection.
    pub open spec fn spec_socket_side() -> Side {
        Side::A
    }

    /// The side of the pipe that stands for the stream of the session.
    pub open spec fn spec_stream_side() -> Side {
        Side::B
    }

    #[verifier::when_used_as_spec(spec_socket_side)]
    pub fn socket_side() -> (side: Side)
        ensures
            side == Self::spec_socket_side(),
    {
        Side::A
    }

    #[verifier::when_used_as_spec(spec_stream_side)]
    pub fn stream_side() -> (side: Side)
        ensures
            side == Self::spec_stream_side(),
    {
        Side::B
    }

    /// Pairs `stream` with the plain connection that is ready for it.
    pub fn start(stream: LogicalStream) -> (task: ConnectionTask)
        ensures
            task@ == ConnectionTaskView::started(stream@),
    {
        ConnectionTask { stream, pipe: BidirectionalPipe::new() }
    }

    /// The stream being relayed.
    pub fn stream(&self) -> (stream: &LogicalStream)
        ensures
            stream@ == self@.stream,
    {
        &self.stream
    }

    /// Why the task stopped relaying, or `None` while it relays.
    pub fn ended(&self) -> (end: Option<PipeEnd>)
        ensures
            end == self@.pipe,
    {
        self.pipe.ended()
    }

    /// How the task ended: `None` while it relays, `Ok` once either side has
    /// reached the end of its stream, and the relay's failure otherwise. That
    /// failure concerns this connection alone.
    pub fn outcome(&self) -> (outcome: Option<Result<(), ForwardError>>)
        ensures
            outcome == self@.outcome(),
            outcome matches Some(Err(e)) ==> e == ForwardError::Pipe,
    {
        match self.pipe.ended() {
            None => None,
            Some(end) => match end.error() {
                None => Some(Ok(())),
                Some(e) => Some(Err(e)),
            },
        }
    }

    /// Takes one event of the relay and says what to do: see
    /// `BidirectionalPipe::step`. The stream stays the task's own.
    pub fn step(&mut self, event: PipeEvent) -> (action: PipeAction)
        ensures
            final(self)@.stream == old(self)@.stream,
            (final(self)@.pipe, action) == pipe_step(old(self)@.pipe, event),
    {
        self.pipe.step(event)
    }
}

} // verus!
