//! Remote forwarding: the peer listens on its side, and every connection it
//! receives there is pushed through the session and relayed to one fixed
//! local address.

use crate::client::Client;
use crate::client::ClientView;
use crate::endpoint::ForwardTarget;
use crate::error::ForwardError;
use crate::error::Reach;
use crate::session::DisconnectReason;
use crate::session::InboundPush;
use crate::session::Initiator;
use crate::session::ListenReply;
use crate::session::ListenerHandle;
use crate::session::LogicalStream;
use crate::session::LogicalStreamView;
use crate::session::Session;
use crate::session::SessionView;
use crate::task::ConnectionTask;
use crate::task::ConnectionTaskView;
use vstd::prelude::*;

verus! {

/// Where a remote forwarder stands.
#[derive(Debug, PartialEq, Eq)]
pub enum RemoteState {
    /// The peer has not been asked to listen yet.
    Idle,
    /// The peer listens, under this handle.
    Listening(ListenerHandle),
    /// Done for good: the peer refused to listen, the forwarder was stopped,
    /// or the session closed.
    Stopped,
}

/// What the session and the connections in progress report.
#[derive(Debug, PartialEq, Eq)]
pub enum RemoteEvent {
    /// The peer pushed a stream.
    Inbound(InboundPush),
    /// The local address was reached for this stream.
    Connected(LogicalStream),
    /// The local address could not be reached for this stream.
    ConnectFailed(LogicalStream),
    /// A keep-alive probe was answered in time, or was not.
    Probe(bool),
    /// The transport failed.
    Lost,
}

/// What the one who reported an event is to do.
#[derive(Debug, PartialEq, Eq)]
pub enum RemoteAction {
    /// Connect to this local address on behalf of this stream, without
    /// holding up the streams that follow, and report how it went.
    Connect(String, LogicalStream),
    /// Both ends are there: this is the work of relaying the connection, to be run.
    Relay(ConnectionTask),
    /// Close this one stream, for this reason. The loop is not concerned.
    Close(ForwardError),
    /// Nothing to do; go on waiting for streams.
    Continue,
    /// Leave the loop: with `None` because the forwarder is not listening,
    /// else because of this failure.
    Stop(Option<ForwardError>),
}

/// What a `RemoteAction` stands for.
pub enum RemoteActionView {
    Connect(String, LogicalStreamView),
    Relay(ConnectionTaskView),
    Close(ForwardError),
    Continue,
    Stop(Option<ForwardError>),
}

impl View for RemoteAction {
    type V = RemoteActionView;

    open spec fn view(&self) -> RemoteActionView {
        match *self {
            RemoteAction::Connect(addr, stream) => RemoteActionView::Connect(addr, stream@),
            RemoteAction::Relay(task) => RemoteActionView::Relay(task@),
            RemoteAction::Close(e) => RemoteActionView::Close(e),
            RemoteAction::Continue => RemoteActionView::Continue,
            RemoteAction::Stop(e) => RemoteActionView::Stop(e),
        }
    }
}

/// What is left to do with the peer when a remote forwarder stops. Both steps
/// are best effort, in this order.
#[derive(Debug, PartialEq, Eq)]
pub struct StopPlan {
    /// The listener to have the peer cancel, if one is open.
    pub cancel: Option<ForwardTarget>,
    /// What to tell the peer of the end of the session, if it is to be told.
    pub disconnect: Option<DisconnectReason>,
}

/// Has the peer listen on an address of its own and has each connection that
/// arrives there relayed to a fixed local address.
pub struct RemoteForwarder {
    session: Session,
    client: Client,
    bind: ForwardTarget,
    state: RemoteState,
}

/// What a `RemoteForwarder` stands for.
pub struct RemoteForwarderView {
    pub session: SessionView,
    /// Holds the local address that every pushed stream is connected to.
    pub client: ClientView,
    /// Where the peer is asked to listen.
    pub bind: ForwardTarget,
    pub state: RemoteState,
}

impl View for RemoteForwarder {
    type V = RemoteForwarderView;

    closed spec fn view(&self) -> RemoteForwarderView {
        RemoteForwarderView {
            session: self.session@,
            client: self.client@,
            bind: self.bind,
            state: self.state,
        }
    }
}

impl RemoteForwarderView {
    /// This forwarder, stopped.
    pub open spec fn halted(self) -> RemoteForwarderView {
        RemoteForwarderView { state: RemoteState::Stopped, ..self }
    }

    /// What `request` answers.
    pub open spec fn request(self) -> Result<ForwardTarget, ForwardError> {
        if self.state is Idle {
            self.session.request_remote_listener(self.bind)
        } else {
            Err(ForwardError::Open)
        }
    }

    /// What `start` makes of the forwarder, and what it answers.
    pub open spec fn start(self, reply: ListenReply) -> (RemoteForwarderView, Result<
        ListenerHandle,
        ForwardError,
    >) {
        if !(self.state is Idle) {
            (self, Err(ForwardError::Open))
        } else {
            let session = self.session.after_listener_opened(self.bind, reply);
            match self.session.remote_listener_opened(self.bind, reply) {
                Ok(handle) => (
                    RemoteForwarderView { session, state: RemoteState::Listening(handle), ..self },
                    Ok(handle),
                ),
                Err(e) => (RemoteForwarderView { session, ..self }.halted(), Err(e)),
            }
        }
    }

    /// Whether the loop goes on as things stand. A closed session stops the
    /// forwarder; a forwarder for which the peer does not listen has no loop
    /// to go on with.
    pub open spec fn standing(self) -> (RemoteForwarderView, RemoteActionView) {
        if !self.session.connected {
            (self.halted(), RemoteActionView::Stop(Some(ForwardError::SessionClosed)))
        } else if self.state is Listening {
            (self, RemoteActionView::Continue)
        } else {
            (self, RemoteActionView::Stop(None))
        }
    }

    /// What `run` makes of the forwarder on `event`, and the action it asks
    /// for.
    pub open spec fn run(self, event: RemoteEvent) -> (RemoteForwarderView, RemoteActionView) {
        match event {
            RemoteEvent::Lost => (
                RemoteForwarderView { session: self.session.closed(), ..self }.halted(),
                RemoteActionView::Stop(Some(ForwardError::SessionClosed)),
            ),
            RemoteEvent::Probe(answered) => RemoteForwarderView {
                session: self.session.after_probe(answered),
                ..self
            }.standing(),
            RemoteEvent::Inbound(push) => if self.standing().1 is Continue {
                match self.session.accept_inbound_stream(push) {
                    Ok(stream) => (self, RemoteActionView::Connect(self.client.local, stream)),
                    Err(e) => (self, RemoteActionView::Close(e)),
                }
            } else {
                self.standing()
            },
            RemoteEvent::Connected(stream) => (
                self,
                RemoteActionView::Relay(ConnectionTaskView::started(stream@)),
            ),
            RemoteEvent::ConnectFailed(_) => (self, RemoteActionView::Close(ForwardError::Pipe)),
        }
    }

    /// What `stop` makes of the forwarder, and the plan it answers.
    pub open spec fn stop(self) -> (RemoteForwarderView, StopPlan) {
        (
            RemoteForwarderView { session: self.session.closed(), ..self }.halted(),
            StopPlan {
                cancel: match self.state {
                    RemoteState::Listening(handle) => match self.session.cancel_remote_listener(
                        handle,
                    ) {
                        Ok(target) => Some(target),
                        Err(_) => None,
                    },
                    _ => None,
                },
                disconnect: self.session.disconnect(DisconnectReason::ByApplication),
            },
        )
    }
}

impl RemoteForwarder {
    /// A forwarder for which the peer has not been asked to listen yet.
    pub fn new(session: Session, client: Client, bind: ForwardTarget) -> (forwarder:
        RemoteForwarder)
        ensures
            forwarder@ == (RemoteForwarderView {
                session: session@,
                client: client@,
                bind,
                state: RemoteState::Idle,
            }),
    {
        RemoteForwarder { session, client, bind, state: RemoteState::Idle }
    }

    /// Where the peer is asked to listen.
    pub fn bind(&self) -> (bind: &ForwardTarget)
        ensures
            *bind == self@.bind,
    {
        &self.bind
    }

    /// The local address that every pushed stream is connected to.
    pub fn local(&self) -> (local: &String)
        ensures
            *local == self@.client.local,
    {
        self.client.local()
    }

    pub fn state(&self) -> (state: &RemoteState)
        ensures
            *state == self@.state,
    {
        &self.state
    }

    pub fn session(&self) -> (session: &Session)
        ensures
            session@ == self@.session,
    {
        &self.session
    }

    /// Says what to ask of the peer to have it listen. A forwarder asks once,
    /// and only on a connected session.
    pub fn request(&self) -> (r: Result<ForwardTarget, ForwardError>)
        ensures
            r == self@.request(),
    {
        match self.state {
            RemoteState::Idle => self.session.request_remote_listener(&self.bind),
            _ => Err(ForwardError::Open),
        }
    }

    /// Takes the peer's answer to the request to listen. Where the peer
    /// listens, the handle names the port it listens on, which may differ from
    /// the one asked for. Any other answer leaves the forwarder done for.
    pub fn start(&mut self, reply: ListenReply) -> (r: Result<ListenerHandle, ForwardError>)
        ensures
            (final(self)@, r) == old(self)@.start(reply),
            r matches Ok(handle) ==> final(self)@.session.listens_on(handle.port),
    {
        match self.state {
            RemoteState::Idle => {
                match self.session.remote_listener_opened(self.bind.clone(), reply) {
                    Ok(handle) => {
                        self.state = RemoteState::Listening(handle.clone());
                        Ok(handle)
                    },
                    Err(e) => {
                        self.state = RemoteState::Stopped;
                        Err(e)
                    },
                }
            },
            _ => Err(ForwardError::Open),
        }
    }

    fn standing(&mut self) -> (action: RemoteAction)
        ensures
            (final(self)@, action@) == old(self)@.standing(),
    {
        if !self.session.is_connected() {
            self.state = RemoteState::Stopped;
            RemoteAction::Stop(Some(ForwardError::SessionClosed))
        } else {
            match self.state {
                RemoteState::Listening(_) => RemoteAction::Continue,
                _ => RemoteAction::Stop(None),
            }
        }
    }

    /// One step of the loop that takes pushed streams. The caller reports
    /// what happened and does what the answer says.
    ///
    /// A pushed stream that belongs to one of the session's listeners is
    /// answered with the local address to connect it to. If that address
    /// cannot be reached, the one stream is closed and the forwarder stays as
    /// it is. Only a closed session or `stop` ends the loop.
    pub fn run(&mut self, event: RemoteEvent) -> (action: RemoteAction)
        ensures
            (final(self)@, action@) == old(self)@.run(event),
    {
        match event {
            RemoteEvent::Lost => {
                self.session.transport_lost();
                self.state = RemoteState::Stopped;
                RemoteAction::Stop(Some(ForwardError::SessionClosed))
            },
            RemoteEvent::Probe(answered) => {
                let _ = self.session.probe(answered);
                self.standing()
            },
            RemoteEvent::Inbound(push) => {
                match self.standing() {
                    RemoteAction::Continue => match self.session.accept_inbound_stream(push) {
                        Ok(stream) => RemoteAction::Connect(self.client.local().clone(), stream),
                        Err(e) => RemoteAction::Close(e),
                    },
                    other => other,
                }
            },
            RemoteEvent::Connected(stream) => RemoteAction::Relay(ConnectionTask::start(stream)),
            RemoteEvent::ConnectFailed(_) => RemoteAction::Close(ForwardError::Pipe),
        }
    }

    /// Stops the forwarder and closes the session, and says what is left to
    /// do with the peer: cancel the listener if one is open, then say goodbye
    /// if the session was connected. From here on no pushed stream is taken.
    /// Stopping again, or after the session closed by itself, asks nothing
    /// more of the peer.
    pub fn stop(&mut self) -> (plan: StopPlan)
        ensures
            (final(self)@, plan) == old(self)@.stop(),
    {
        let cancel = match &self.state {
            RemoteState::Listening(handle) => match self.session.cancel_remote_listener(handle) {
                Ok(target) => Some(target),
                Err(_) => None,
            },
            _ => None,
        };
        let disconnect = self.session.disconnect(DisconnectReason::ByApplication);
        self.state = RemoteState::Stopped;
        StopPlan { cancel, disconnect }
    }
}

/// One connection's failure is its own. While the peer listens for the
/// forwarder on a connected session, a local address that cannot be reached
/// for one stream, or a stream pushed for no listener of the session, leaves
/// the forwarder exactly as it was. The next stream pushed for one of its
/// listeners is taken and connected to the forwarder's local address, and once
/// that is reached a task is started that relays it.
pub proof fn failed_stream_leaves_loop_running(
    forwarder: RemoteForwarderView,
    failed: LogicalStream,
    stray: InboundPush,
    push: InboundPush,
    stream: LogicalStream,
)
    requires
        forwarder.state is Listening,
        forwarder.session.connected,
        !forwarder.session.listens_on(stray.connected.port),
        forwarder.session.listens_on(push.connected.port),
    ensures
        forwarder.run(RemoteEvent::ConnectFailed(failed)) == (
            forwarder,
            RemoteActionView::Close(ForwardError::Pipe),
        ),
        forwarder.run(RemoteEvent::Inbound(stray)) == (
            forwarder,
            RemoteActionView::Close(ForwardError::Open),
        ),
        forwarder.run(RemoteEvent::Inbound(push)) == (
            forwarder,
            RemoteActionView::Connect(
                forwarder.client.local,
                LogicalStreamView {
                    initiator: Initiator::Remote,
                    target: push.connected,
                    origin: push.origin,
                },
            ),
        ),
        forwarder.run(RemoteEvent::Connected(stream)) == (
            forwarder,
            RemoteActionView::Relay(ConnectionTaskView::started(stream@)),
        ),
{
}

/// A forwarder that was started takes the streams pushed for its listener:
/// once the peer has answered that it listens, the session listens on the port
/// that the handle names, which is the port the peer reported if it reported
/// one.
pub proof fn started_forwarder_listens(forwarder: RemoteForwarderView, reported: u32)
    requires
        forwarder.state is Idle,
        forwarder.session.connected,
    ensures
        forwarder.start(ListenReply::Bound(reported)).1 == Ok::<ListenerHandle, ForwardError>(
            SessionView::granted(forwarder.bind, reported),
        ),
        forwarder.start(ListenReply::Bound(reported)).0.state == RemoteState::Listening(
            SessionView::granted(forwarder.bind, reported),
        ),
        forwarder.start(ListenReply::Bound(reported)).0.session.connected,
        forwarder.start(ListenReply::Bound(reported)).0.session.listens_on(
            SessionView::granted(forwarder.bind, reported).port,
        ),
        reported != 0 ==> SessionView::granted(forwarder.bind, reported).port == reported,
        reported == 0 ==> SessionView::granted(forwarder.bind, reported).port
            == forwarder.bind.port,
{
    let after = forwarder.start(ListenReply::Bound(reported)).0.session;
    let last = after.listeners.len() - 1;
    assert(after.listeners[last] == SessionView::granted(forwarder.bind, reported));
}

/// Stopping is final and can be repeated: after `stop` the session is closed
/// and the forwarder stopped, a second `stop` changes nothing and asks nothing
/// of the peer, and a stream that the peer still pushes is not taken.
pub proof fn stop_is_final(forwarder: RemoteForwarderView, push: InboundPush)
    ensures
        !forwarder.stop().0.session.connected,
        forwarder.stop().0.state == RemoteState::Stopped,
        forwarder.stop().0.stop() == (
            forwarder.stop().0,
            StopPlan { cancel: None, disconnect: None },
        ),
        forwarder.stop().0.run(RemoteEvent::Inbound(push)) == (
            forwarder.stop().0,
            RemoteActionView::Stop(Some(ForwardError::SessionClosed)),
        ),
        !forwarder.session.connected ==> forwarder.stop().1 == (StopPlan {
            cancel: None,
            disconnect: None,
        }),
        forwarder.session.connected ==> forwarder.stop().1.disconnect == Some(
            DisconnectReason::ByApplication,
        ),
{
}

impl RemoteState {
    /// How far along a forwarder in this state is: not started, listening,
    /// done.
    pub open spec fn rank(self) -> nat {
        match self {
            RemoteState::Idle => 0,
            RemoteState::Listening(_) => 1,
            RemoteState::Stopped => 2,
        }
    }
}

/// A forwarder only moves forward: from not started to listening to stopped,
/// never back, and once stopped it stays stopped. Only `start` makes it
/// listen, and while it takes streams it stops for one reason alone: the
/// session is closed. Its addresses never change, and neither does the
/// listener it was given.
pub proof fn remote_forwarder_only_advances(
    forwarder: RemoteForwarderView,
    event: RemoteEvent,
    reply: ListenReply,
)
    ensures
        forwarder.run(event).0.state.rank() >= forwarder.state.rank(),
        forwarder.start(reply).0.state.rank() >= forwarder.state.rank(),
        forwarder.stop().0.state.rank() >= forwarder.state.rank(),
        forwarder.run(event).0.state is Listening ==> forwarder.run(event).0.state
            == forwarder.state,
        forwarder.state is Listening && !(forwarder.run(event).0.state is Listening)
            ==> !forwarder.run(event).0.session.connected,
        forwarder.start(reply).0.state is Listening ==> forwarder.start(reply).0.state
            == forwarder.state || (forwarder.state is Idle && reply is Bound
            && forwarder.session.connected),
        forwarder.run(event).0.bind == forwarder.bind,
        forwarder.run(event).0.client == forwarder.client,
        forwarder.start(reply).0.bind == forwarder.bind,
        forwarder.start(reply).0.client == forwarder.client,
        forwarder.stop().0.bind == forwarder.bind,
        forwarder.stop().0.client == forwarder.client,
{
}

/// No failure is taken for one of another kind. What closes one stream is a
/// failure of that stream alone and leaves the forwarder as it was. What ends
/// the loop with a failure is the closing of the session, and the forwarder
/// is then stopped. And a session that is closed when a stream is pushed, a
/// probe reported or the transport lost never goes unnoticed: the answer is to
/// stop.
pub proof fn remote_failures_keep_their_reach(forwarder: RemoteForwarderView, event: RemoteEvent)
    ensures
        forwarder.run(event).1 matches RemoteActionView::Close(e) ==> e.spec_reach()
            == Reach::Connection && forwarder.run(event).0 == forwarder,
        forwarder.run(event).1 matches RemoteActionView::Stop(Some(e)) ==> e
            == ForwardError::SessionClosed && !forwarder.run(event).0.session.connected
            && forwarder.run(event).0.state == RemoteState::Stopped,
        !forwarder.run(event).0.session.connected && (event is Inbound || event is Probe
            || event is Lost) ==> forwarder.run(event).1 == RemoteActionView::Stop(
            Some(ForwardError::SessionClosed),
        ),
{
}

/// Once the session is closed the loop is over: no pushed stream is taken,
/// and a probe or a lost transport only confirms the stop.
pub proof fn closed_session_ends_remote_run(forwarder: RemoteForwarderView, event: RemoteEvent)
    requires
        !forwarder.session.connected,
        event is Inbound || event is Probe || event is Lost,
    ensures
        forwarder.run(event).1 == RemoteActionView::Stop(Some(ForwardError::SessionClosed)),
        forwarder.run(event).0.state == RemoteState::Stopped,
        !forwarder.run(event).0.session.connected,
{
}

} // verus!
