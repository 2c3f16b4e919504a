//! Local forwarding: connections accepted on a local socket are relayed
//! through the session to one fixed target behind the peer.

use crate::endpoint::ForwardTarget;
use crate::endpoint::Origin;
use crate::error::ForwardError;
use crate::error::Reach;
use crate::pipe::pipe_step;
use crate::pipe::PipeAction;
use crate::pipe::PipeEvent;
use crate::session::Initiator;
use crate::session::LogicalStreamView;
use crate::session::OpenRequest;
use crate::session::Reply;
use crate::session::Session;
use crate::session::SessionView;
use crate::task::ConnectionTask;
use crate::task::ConnectionTaskView;
use vstd::prelude::*;

verus! {

/// Where a local forwarder stands.
#[derive(Clone, Copy, Debug, PartialEq, Eq, Structural)]
pub enum ListenState {
    /// Not bound yet.
    Idle,
    /// Bound, and accepting connections.
    Listening,
    /// Done for good: the bind failed, the forwarder was shut down, or the
    /// session closed.
    Stopped,
}

/// What the accept loop and the connections it started report.
#[derive(Debug, PartialEq, Eq)]
pub enum LocalEvent {
    /// A client connected to the local socket, from this address.
    Accepted(Origin),
    /// Accepting a connection failed.
    AcceptFailed,
    /// The peer answered this request to open a stream.
    Opened(OpenRequest, Reply),
    /// A keep-alive probe was answered in time, or was not.
    Probe(bool),
    /// The transport failed.
    Lost,
    /// The forwarder is asked to stop.
    Shutdown,
}

/// What the one who reported an event is to do.
#[derive(Debug, PartialEq, Eq)]
pub enum LocalAction {
    /// Ask the peer for this stream on behalf of the connection that was just
    /// accepted, without waiting for the answer, and go on accepting.
    Open(OpenRequest),
    /// The stream is there: this is the work of relaying the connection, to be run.
    Relay(ConnectionTask),
    /// Close this one connection, for this reason. The loop is not concerned.
    Close(ForwardError),
    /// Nothing to do; go on accepting.
    Continue,
    /// Leave the accept loop: with `None` because the forwarder is not
    /// listening, else because of this failure.
    Stop(Option<ForwardError>),
}

/// What a `LocalAction` stands for.
pub enum LocalActionView {
    Open(OpenRequest),
    Relay(ConnectionTaskView),
    Close(ForwardError),
    Continue,
    Stop(Option<ForwardError>),
}

impl View for LocalAction {
    type V = LocalActionView;

    open spec fn view(&self) -> LocalActionView {
        match *self {
            LocalAction::Open(request) => LocalActionView::Open(request),
            LocalAction::Relay(task) => LocalActionView::Relay(task@),
            LocalAction::Close(e) => LocalActionView::Close(e),
            LocalAction::Continue => LocalActionView::Continue,
            LocalAction::Stop(e) => LocalActionView::Stop(e),
        }
    }
}

/// Accepts connections on a local address and has each of them relayed to a
/// fixed target behind the peer.
pub struct LocalForwarder {
    session: Session,
    local_addr: String,
    target: ForwardTarget,
    state: ListenState,
}

/// What a `LocalForwarder` stands for.
pub struct LocalForwarderView {
    pub session: SessionView,
    /// The local address to listen on.
    pub local_addr: String,
    /// Where behind the peer every connection is relayed to.
    pub target: ForwardTarget,
    pub state: ListenState,
}

impl View for LocalForwarder {
    type V = LocalForwarderView;

    closed spec fn view(&self) -> LocalForwarderView {
        LocalForwarderView {
            session: self.session@,
            local_addr: self.local_addr,
            target: self.target,
            state: self.state,
        }
    }
}

impl LocalForwarderView {
    /// This forwarder, stopped.
    pub open spec fn halted(self) -> LocalForwarderView {
        LocalForwarderView { state: ListenState::Stopped, ..self }
    }

    /// What `bind` makes of the forwarder, and what it answers.
    pub open spec fn bind(self, bound: bool) -> (LocalForwarderView, Result<(), ForwardError>) {
        if self.state != ListenState::Idle {
            (self, Err(ForwardError::Bind))
        } else if bound {
            (LocalForwarderView { state: ListenState::Listening, ..self }, Ok(()))
        } else {
            (self.halted(), Err(ForwardError::Bind))
        }
    }

    /// Whether the loop goes on as things stand. A closed session stops the
    /// forwarder; a forwarder that is not listening has no loop to go on with.
    pub open spec fn standing(self) -> (LocalForwarderView, LocalActionView) {
        if !self.session.connected {
            (self.halted(), LocalActionView::Stop(Some(ForwardError::SessionClosed)))
        } else if self.state == ListenState::Listening {
            (self, LocalActionView::Continue)
        } else {
            (self, LocalActionView::Stop(None))
        }
    }

    /// What `run` makes of the forwarder on `event`, and the action it asks
    /// for.
    pub open spec fn run(self, event: LocalEvent) -> (LocalForwarderView, LocalActionView) {
        match event {
            LocalEvent::Shutdown => (self.halted(), LocalActionView::Stop(None)),
            LocalEvent::Lost => (
                LocalForwarderView { session: self.session.closed(), ..self }.halted(),
                LocalActionView::Stop(Some(ForwardError::SessionClosed)),
            ),
            LocalEvent::Probe(answered) => LocalForwarderView {
                session: self.session.after_probe(answered),
                ..self
            }.standing(),
            LocalEvent::AcceptFailed => self.standing(),
            LocalEvent::Accepted(origin) => if self.standing().1 is Continue {
                (self, LocalActionView::Open(OpenRequest { target: self.target, origin }))
            } else {
                self.standing()
            },
            LocalEvent::Opened(request, reply) => match self.session.stream_opened(request, reply) {
                Ok(stream) => (self, LocalActionView::Relay(ConnectionTaskView::started(stream))),
                Err(e) => if e == ForwardError::SessionClosed {
                    (
                        LocalForwarderView {
                            session: self.session.unless_lost(reply == Reply::Lost),
                            ..self
                        }.halted(),
                        LocalActionView::Stop(Some(ForwardError::SessionClosed)),
                    )
                } else {
                    (self, LocalActionView::Close(e))
                },
            },
        }
    }
}

impl LocalForwarder {
    /// A forwarder that is not bound yet.
    pub fn new(session: Session, local_addr: String, target: ForwardTarget) -> (forwarder:
        LocalForwarder)
        ensures
            forwarder@ == (LocalForwarderView {
                session: session@,
                local_addr,
                target,
                state: ListenState::Idle,
            }),
    {
        LocalForwarder { session, local_addr, target, state: ListenState::Idle }
    }

    /// The local address to listen on.
    pub fn local_addr(&self) -> (addr: &String)
        ensures
            *addr == self@.local_addr,
    {
        &self.local_addr
    }

    /// Where every connection is relayed to.
    pub fn target(&self) -> (target: &ForwardTarget)
        ensures
            *target == self@.target,
    {
        &self.target
    }

    pub fn state(&self) -> (state: ListenState)
        ensures
            state == self@.state,
    {
        self.state
    }

    pub fn session(&self) -> (session: &Session)
        ensures
            session@ == self@.session,
    {
        &self.session
    }

    /// Takes the result of opening the listening socket on `local_addr`.
    /// A forwarder binds once: on success it listens, on failure it is done
    /// for, and the caller is left to decide what that means for the process.
    pub fn bind(&mut self, bound: bool) -> (r: Result<(), ForwardError>)
        ensures
            (final(self)@, r) == old(self)@.bind(bound),
    {
        match self.state {
            ListenState::Idle => {
                if bound {
                    self.state = ListenState::Listening;
                    Ok(())
                } else {
                    self.state = ListenState::Stopped;
                    Err(ForwardError::Bind)
                }
            },
            _ => Err(ForwardError::Bind),
        }
    }

    fn standing(&mut self) -> (action: LocalAction)
        ensures
            (final(self)@, action@) == old(self)@.standing(),
    {
        if !self.session.is_connected() {
            self.state = ListenState::Stopped;
            LocalAction::Stop(Some(ForwardError::SessionClosed))
        } else {
            match self.state {
                ListenState::Listening => LocalAction::Continue,
                _ => LocalAction::Stop(None),
            }
        }
    }

    /// One step of the accept loop. The caller reports what happened and does
    /// what the answer says.
    ///
    /// An accepted connection is answered with the request for its stream. A
    /// failed accept, or a stream that the peer refuses, costs at most the one
    /// connection: the forwarder stays as it is and goes on listening. Only a
    /// closed session or a shutdown ends the loop.
    pub fn run(&mut self, event: LocalEvent) -> (action: LocalAction)
        ensures
            (final(self)@, action@) == old(self)@.run(event),
    {
        match event {
            LocalEvent::Shutdown => {
                self.state = ListenState::Stopped;
                LocalAction::Stop(None)
            },
            LocalEvent::Lost => {
                self.session.transport_lost();
                self.state = ListenState::Stopped;
                LocalAction::Stop(Some(ForwardError::SessionClosed))
            },
            LocalEvent::Probe(answered) => {
                let _ = self.session.probe(answered);
                self.standing()
            },
            LocalEvent::AcceptFailed => self.standing(),
            LocalEvent::Accepted(origin) => {
                match self.standing() {
                    LocalAction::Continue => match self.session.open_stream(&self.target, origin) {
                        Ok(request) => LocalAction::Open(request),
                        Err(e) => LocalAction::Stop(Some(e)),
                    },
                    other => other,
                }
            },
            LocalEvent::Opened(request, reply) => {
                match self.session.stream_opened(request, reply) {
                    Ok(stream) => LocalAction::Relay(ConnectionTask::start(stream)),
                    Err(e) => match e {
                        ForwardError::SessionClosed => {
                            self.state = ListenState::Stopped;
                            LocalAction::Stop(Some(ForwardError::SessionClosed))
                        },
                        _ => LocalAction::Close(e),
                    },
                }
            },
        }
    }
}

/// One connection's failure is its own. While the forwarder listens on a
/// connected session, a failed accept or a refused stream leaves the forwarder
/// exactly as it was. The next connection is then accepted, the stream asked
/// for it leads to the forwarder's target, and once the peer grants it the
/// task that is started relays what it is given.
pub proof fn failed_connection_leaves_loop_running(
    forwarder: LocalForwarderView,
    failed: OpenRequest,
    origin: Origin,
    side: crate::pipe::Side,
    bytes: Vec<u8>,
)
    requires
        forwarder.state == ListenState::Listening,
        forwarder.session.connected,
    ensures
        forwarder.run(LocalEvent::AcceptFailed) == (forwarder, LocalActionView::Continue),
        forwarder.run(LocalEvent::Opened(failed, Reply::Refused)) == (
            forwarder,
            LocalActionView::Close(ForwardError::Open),
        ),
        forwarder.run(LocalEvent::Accepted(origin)) == (
            forwarder,
            LocalActionView::Open(OpenRequest { target: forwarder.target, origin }),
        ),
        forwarder.run(
            LocalEvent::Opened(OpenRequest { target: forwarder.target, origin }, Reply::Granted),
        ) == (
            forwarder,
            LocalActionView::Relay(
                ConnectionTaskView::started(
                    LogicalStreamView {
                        initiator: Initiator::Local,
                        target: forwarder.target,
                        origin,
                    },
                ),
            ),
        ),
        pipe_step(None, PipeEvent::Data(side, bytes)) == (
            None::<crate::pipe::PipeEnd>,
            PipeAction::Write(side.spec_other(), bytes),
        ),
{
}

impl ListenState {
    /// How far along a forwarder in this state is: not bound, listening, done.
    pub open spec fn rank(self) -> nat {
        match self {
            ListenState::Idle => 0,
            ListenState::Listening => 1,
            ListenState::Stopped => 2,
        }
    }
}

/// A forwarder only moves forward: from not bound to listening to stopped,
/// never back, and once stopped it stays stopped. Only `bind` makes it
/// listen, and it stops listening for two reasons alone: it was shut down, or
/// the session is closed. Its addresses never change.
pub proof fn local_forwarder_only_advances(
    forwarder: LocalForwarderView,
    event: LocalEvent,
    bound: bool,
)
    ensures
        forwarder.run(event).0.state.rank() >= forwarder.state.rank(),
        forwarder.bind(bound).0.state.rank() >= forwarder.state.rank(),
        forwarder.run(event).0.state == ListenState::Listening ==> forwarder.state
            == ListenState::Listening,
        forwarder.state == ListenState::Listening && forwarder.run(event).0.state
            != ListenState::Listening ==> event is Shutdown || !forwarder.run(
            event,
        ).0.session.connected,
        forwarder.bind(bound).0.state == ListenState::Listening ==> forwarder.state
            == ListenState::Listening || (forwarder.state == ListenState::Idle && bound),
        forwarder.run(event).0.local_addr == forwarder.local_addr,
        forwarder.run(event).0.target == forwarder.target,
        forwarder.bind(bound).0.local_addr == forwarder.local_addr,
        forwarder.bind(bound).0.target == forwarder.target,
        forwarder.bind(bound).0.session == forwarder.session,
{
}

/// No failure is taken for one of another kind. What closes one connection
/// is a failure of that connection alone and leaves the forwarder as it was.
/// What ends the loop with a failure is the closing of the session, and the
/// forwarder is then stopped. And a closed session never goes unnoticed:
/// whenever the session is closed after a step, the answer is to stop.
pub proof fn local_failures_keep_their_reach(forwarder: LocalForwarderView, event: LocalEvent)
    ensures
        forwarder.run(event).1 matches LocalActionView::Close(e) ==> e.spec_reach()
            == Reach::Connection && forwarder.run(event).0 == forwarder,
        forwarder.run(event).1 matches LocalActionView::Stop(Some(e)) ==> e
            == ForwardError::SessionClosed && !forwarder.run(event).0.session.connected
            && forwarder.run(event).0.state == ListenState::Stopped,
        !forwarder.run(event).0.session.connected ==> forwarder.run(event).1 is Stop,
{
}

/// Once the session is closed the loop is over: whatever is reported next,
/// the forwarder stops, or has stopped, and no connection is taken on or
/// relayed.
pub proof fn closed_session_ends_local_run(forwarder: LocalForwarderView, event: LocalEvent)
    requires
        !forwarder.session.connected,
    ensures
        forwarder.run(event).1 is Stop,
        forwarder.run(event).0.state == ListenState::Stopped,
        !forwarder.run(event).0.session.connected,
{
}

} // verus!
