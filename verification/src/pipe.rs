//! The relay between the two byte streams of one connection.
//!
//! The pipe holds no data. It is told what was read and answers what to write,
//! one chunk at a time, until one side ends or fails.

use crate::error::ForwardError;
use vstd::prelude::*;

verus! {

/// How many bytes a pipe wants to be given at most in one chunk. Reading no
/// more than this at a time from each side bounds the memory one relay takes.
pub const CHUNK_SIZE: usize = 8192;

/// One of the two streams that a pipe joins.
#[derive(Clone, Copy, Debug, PartialEq, Eq, Structural)]
pub enum Side {
    A,
    B,
}

impl Side {
    pub open spec fn spec_other(self) -> Side {
        match self {
            Side::A => Side::B,
            Side::B => Side::A,
        }
    }

    /// The stream at the other end of the pipe.
    #[verifier::when_used_as_spec(spec_other)]
    pub fn other(self) -> (side: Side)
        ensures
            side == self.spec_other(),
    {
        match self {
            Side::A => Side::B,
            Side::B => Side::A,
        }
    }
}

/// Why a pipe stopped relaying.
#[derive(Clone, Copy, Debug, PartialEq, Eq, Structural)]
pub enum PipeEnd {
    /// This side reached the end of its stream.
    Eof(Side),
    /// Reading from or writing to this side failed.
    Failed(Side),
}

impl PipeEnd {
    pub open spec fn spec_error(self) -> Option<ForwardError> {
        match self {
            PipeEnd::Eof(_) => None,
            PipeEnd::Failed(_) => Some(ForwardError::Pipe),
        }
    }

    /// The failure to report for this ending, if it was one. A failed relay
    /// is never more than the failure of its own connection.
    #[verifier::when_used_as_spec(spec_error)]
    pub fn error(self) -> (e: Option<ForwardError>)
        ensures
            e == self.spec_error(),
            e matches Some(failure) ==> failure.spec_reach() == crate::error::Reach::Connection,
    {
        match self {
            PipeEnd::Eof(_) => None,
            PipeEnd::Failed(_) => Some(ForwardError::Pipe),
        }
    }
}

/// What happened on one of the two streams.
#[derive(Debug, PartialEq, Eq)]
pub enum PipeEvent {
    /// These bytes were read from this side.
    Data(Side, Vec<u8>),
    /// This side has no more bytes to give.
    Eof(Side),
    /// Reading from or writing to this side failed.
    Failed(Side),
}

/// What to do with the two streams next.
#[derive(Debug, PartialEq, Eq)]
pub enum PipeAction {
    /// Write these bytes to this side, then go on reading both sides.
    Write(Side, Vec<u8>),
    /// Flush and close the write half of both streams as far as they allow,
    /// and stop: the relay ended for this reason.
    Shutdown(PipeEnd),
    /// The relay had already ended; nothing is to be done.
    Idle,
}

/// What a pipe in state `end` does on `event`: the state it moves to and the
/// action it asks for.
pub open spec fn pipe_step(end: Option<PipeEnd>, event: PipeEvent) -> (Option<PipeEnd>, PipeAction) {
    match end {
        Some(_) => (end, PipeAction::Idle),
        None => match event {
            PipeEvent::Data(from, bytes) => (None, PipeAction::Write(from.spec_other(), bytes)),
            PipeEvent::Eof(side) => (
                Some(PipeEnd::Eof(side)),
                PipeAction::Shutdown(PipeEnd::Eof(side)),
            ),
            PipeEvent::Failed(side) => (
                Some(PipeEnd::Failed(side)),
                PipeAction::Shutdown(PipeEnd::Failed(side)),
            ),
        },
    }
}

/// The actions a pipe in state `end` asks for, one per event, as the events
/// come in.
pub open spec fn pipe_run(end: Option<PipeEnd>, events: Seq<PipeEvent>) -> Seq<PipeAction>
    decreases events.len(),
{
    if events.len() == 0 {
        Seq::empty()
    } else {
        let (next, action) = pipe_step(end, events[0]);
        seq![action] + pipe_run(next, events.drop_first())
    }
}

/// The state of a pipe that started in `end` and saw `events`.
pub open spec fn pipe_after(end: Option<PipeEnd>, events: Seq<PipeEvent>) -> Option<PipeEnd>
    decreases events.len(),
{
    if events.len() == 0 {
        end
    } else {
        pipe_after(pipe_step(end, events[0]).0, events.drop_first())
    }
}

/// All the bytes that `actions` write to `side`, in order.
pub open spec fn written_to(actions: Seq<PipeAction>, side: Side) -> Seq<u8>
    decreases actions.len(),
{
    if actions.len() == 0 {
        Seq::empty()
    } else {
        let head = match actions[0] {
            PipeAction::Write(to, bytes) => if to == side {
                bytes@
            } else {
                Seq::empty()
            },
            _ => Seq::empty(),
        };
        head + written_to(actions.drop_first(), side)
    }
}

/// All the bytes that `events` report as read from `side`, in order, up to the
/// first event that reports an end or a failure on either side.
pub open spec fn read_from(events: Seq<PipeEvent>, side: Side) -> Seq<u8>
    decreases events.len(),
{
    if events.len() == 0 {
        Seq::empty()
    } else {
        match events[0] {
            PipeEvent::Data(from, bytes) => {
                let head = if from == side {
                    bytes@
                } else {
                    Seq::empty()
                };
                head + read_from(events.drop_first(), side)
            },
            _ => Seq::empty(),
        }
    }
}

/// The first end or failure that `events` report, if they report one.
pub open spec fn first_end(events: Seq<PipeEvent>) -> Option<PipeEnd>
    decreases events.len(),
{
    if events.len() == 0 {
        None
    } else {
        match events[0] {
            PipeEvent::Data(_, _) => first_end(events.drop_first()),
            PipeEvent::Eof(side) => Some(PipeEnd::Eof(side)),
            PipeEvent::Failed(side) => Some(PipeEnd::Failed(side)),
        }
    }
}

/// Copies bytes between two streams, both ways, until one of them ends or
/// fails.
#[derive(Debug, PartialEq, Eq)]
pub struct BidirectionalPipe {
    end: Option<PipeEnd>,
}

impl View for BidirectionalPipe {
    type V = Option<PipeEnd>;

    /// `None` while the pipe relays, then the reason it stopped.
    closed spec fn view(&self) -> Option<PipeEnd> {
        self.end
    }
}

impl BidirectionalPipe {
    /// A pipe that relays.
    pub fn new() -> (pipe: BidirectionalPipe)
        ensures
            pipe@ == None::<PipeEnd>,
    {
        BidirectionalPipe { end: None }
    }

    /// Why the pipe stopped, or `None` while it relays.
    pub fn ended(&self) -> (end: Option<PipeEnd>)
        ensures
            end == self@,
    {
        self.end
    }

    /// Takes one event and says what to do. Bytes read from one side are
    /// written to the other as they are, and are not kept. The first end or
    /// failure stops the relay for both directions; from then on every event
    /// is answered with `Idle`.
    pub fn step(&mut self, event: PipeEvent) -> (action: PipeAction)
        ensures
            (final(self)@, action) == pipe_step(old(self)@, event),
    {
        if self.end.is_some() {
            return PipeAction::Idle;
        }
        match event {
            PipeEvent::Data(from, bytes) => PipeAction::Write(from.other(), bytes),
            PipeEvent::Eof(side) => {
                self.end = Some(PipeEnd::Eof(side));
                PipeAction::Shutdown(PipeEnd::Eof(side))
            },
            PipeEvent::Failed(side) => {
                self.end = Some(PipeEnd::Failed(side));
                PipeAction::Shutdown(PipeEnd::Failed(side))
            },
        }
    }
}

/// A pipe that has stopped writes nothing, whatever it is told.
pub proof fn stopped_pipe_writes_nothing(end: PipeEnd, events: Seq<PipeEvent>, side: Side)
    ensures
        written_to(pipe_run(Some(end), events), side) == Seq::<u8>::empty(),
        pipe_after(Some(end), events) == Some(end),
    decreases events.len(),
{
    if events.len() > 0 {
        let rest = events.drop_first();
        stopped_pipe_writes_nothing(end, rest, side);
        let actions = pipe_run(Some(end), events);
        assert(actions[0] == PipeAction::Idle);
        assert(actions.drop_first() =~= pipe_run(Some(end), rest));
    }
}

/// A fresh pipe relays until the first end or failure on either side and no
/// further: it has stopped exactly when one was reported, for the reason first
/// reported.
pub proof fn relay_ends_at_first_end(events: Seq<PipeEvent>)
    ensures
        pipe_after(None, events) == first_end(events),
    decreases events.len(),
{
    if events.len() > 0 {
        let rest = events.drop_first();
        match events[0] {
            PipeEvent::Data(_, _) => {
                relay_ends_at_first_end(rest);
            },
            PipeEvent::Eof(side) => {
                stopped_pipe_writes_nothing(PipeEnd::Eof(side), rest, side);
            },
            PipeEvent::Failed(side) => {
                stopped_pipe_writes_nothing(PipeEnd::Failed(side), rest, side);
            },
        }
    }
}

/// The relay keeps every byte and their order, in both directions: what a
/// fresh pipe writes to one side is exactly what was read from the other side
/// before the first end or failure, whatever the events are.
pub proof fn relay_preserves_bytes(events: Seq<PipeEvent>, from: Side)
    ensures
        written_to(pipe_run(None, events), from.spec_other()) == read_from(events, from),
    decreases events.len(),
{
    let to = from.spec_other();
    if events.len() > 0 {
        let rest = events.drop_first();
        let (next, action) = pipe_step(None, events[0]);
        let actions = pipe_run(None, events);
        assert(actions[0] == action);
        assert(actions.drop_first() =~= pipe_run(next, rest));
        match events[0] {
            PipeEvent::Data(side, bytes) => {
                relay_preserves_bytes(rest, from);
                assert(side.spec_other() == to <==> side == from);
            },
            PipeEvent::Eof(side) => {
                stopped_pipe_writes_nothing(PipeEnd::Eof(side), rest, to);
            },
            PipeEvent::Failed(side) => {
                stopped_pipe_writes_nothing(PipeEnd::Failed(side), rest, to);
            },
        }
    }
}

} // verus!
