//! The transport session: one authenticated connection to the peer, over
//! which streams are opened in both directions.
//!
//! A `Session` records what the engine knows of the connection. It is either
//! connected or closed, and once closed it stays closed: every later operation
//! fails with `ForwardError::SessionClosed`.

use crate::endpoint::Credentials;
use crate::endpoint::ForwardTarget;
use crate::endpoint::KeepAlive;
use crate::endpoint::Origin;
use crate::error::ForwardError;
use vstd::prelude::*;

verus! {

/// What the transport reported of the attempt to connect and authenticate.
#[derive(Clone, Copy, Debug, PartialEq, Eq, Structural)]
pub enum ConnectOutcome {
    /// The peer was not reached, or the handshake failed.
    Unreachable,
    /// The peer turned the credentials down.
    Rejected,
    /// The peer took the credentials and asks for more.
    Partial,
    /// The peer let the session in.
    Authenticated,
}

impl ConnectOutcome {
    /// The failure that this outcome amounts to, if any. Only full success
    /// opens a session.
    pub open spec fn failure(self) -> Option<ForwardError> {
        match self {
            ConnectOutcome::Unreachable => Some(ForwardError::Connect),
            ConnectOutcome::Rejected | ConnectOutcome::Partial => Some(ForwardError::Auth),
            ConnectOutcome::Authenticated => None,
        }
    }
}

/// The peer's answer to a request to open a stream or to cancel a listener.
#[derive(Clone, Copy, Debug, PartialEq, Eq, Structural)]
pub enum Reply {
    /// The peer did as asked.
    Granted,
    /// The peer said no; the session goes on.
    Refused,
    /// No answer came because the transport is gone.
    Lost,
}

/// The peer's answer to a request for a remote listener.
#[derive(Clone, Copy, Debug, PartialEq, Eq, Structural)]
pub enum ListenReply {
    /// The peer listens. The number is the port it reports, or zero where it
    /// reports none because the port asked for was taken as it is.
    Bound(u32),
    /// The peer said no; the session goes on.
    Refused,
    /// No answer came because the transport is gone.
    Lost,
}

/// Why this side ends the session. It is told to the peer and changes nothing
/// here.
#[derive(Clone, Copy, Debug, PartialEq, Eq, Structural)]
pub enum DisconnectReason {
    /// The one who runs the forwarder asked for it.
    ByApplication,
    /// The peer broke the rules of the transport.
    ProtocolError,
    /// The connection under the session is gone.
    ConnectionLost,
}

/// What to ask of the peer to open a stream.
#[derive(Debug, PartialEq, Eq)]
pub struct OpenRequest {
    /// Where the peer is to connect the stream.
    pub target: ForwardTarget,
    /// Where the connection came from; passed on as it is.
    pub origin: Origin,
}

/// A listener that the peer opened for this session.
#[derive(Debug, PartialEq, Eq)]
pub struct ListenerHandle {
    /// The address the peer was asked to listen on.
    pub host: String,
    /// The port the peer listens on.
    pub port: u32,
}

impl Clone for ListenerHandle {
    fn clone(&self) -> (copy: ListenerHandle)
        ensures
            copy == *self,
    {
        ListenerHandle { host: self.host.clone(), port: self.port }
    }
}

/// Whether two handles name the same listener: same address text, same port.
pub open spec fn same_listener(a: ListenerHandle, b: ListenerHandle) -> bool {
    a.host@ == b.host@ && a.port == b.port
}

/// `listeners` without the entries that name the same listener as `handle`;
/// the others stay in their order.
pub open spec fn without(listeners: Seq<ListenerHandle>, handle: ListenerHandle) -> Seq<
    ListenerHandle,
>
    decreases listeners.len(),
{
    if listeners.len() == 0 {
        Seq::empty()
    } else {
        let rest = without(listeners.drop_last(), handle);
        if same_listener(listeners.last(), handle) {
            rest
        } else {
            rest.push(listeners.last())
        }
    }
}

/// A stream that the peer pushes to this side, with what the peer says of it.
#[derive(Debug, PartialEq, Eq)]
pub struct InboundPush {
    /// The address and port on the peer that the connection came in on.
    pub connected: ForwardTarget,
    /// Where the peer says the connection came from.
    pub origin: Origin,
}

/// Which side asked for a stream.
#[derive(Clone, Copy, Debug, PartialEq, Eq, Structural)]
pub enum Initiator {
    /// This side opened it toward a target behind the peer.
    Local,
    /// The peer pushed it for one of this session's listeners.
    Remote,
}

/// One stream of the session. Only a connected session hands one out.
#[derive(Debug, PartialEq, Eq)]
pub struct LogicalStream {
    initiator: Initiator,
    target: ForwardTarget,
    origin: Origin,
}

/// What a `LogicalStream` stands for.
pub struct LogicalStreamView {
    pub initiator: Initiator,
    /// For a stream opened from here, where the peer connects it; for a pushed
    /// stream, the peer's address and port that the connection came in on.
    pub target: ForwardTarget,
    /// Where the relayed connection came from. It is a note, not an identity.
    pub origin: Origin,
}

impl View for LogicalStream {
    type V = LogicalStreamView;

    closed spec fn view(&self) -> LogicalStreamView {
        LogicalStreamView { initiator: self.initiator, target: self.target, origin: self.origin }
    }
}

impl LogicalStream {
    pub fn initiator(&self) -> (initiator: Initiator)
        ensures
            initiator == self@.initiator,
    {
        self.initiator
    }

    pub fn target(&self) -> (target: &ForwardTarget)
        ensures
            *target == self@.target,
    {
        &self.target
    }

    pub fn origin(&self) -> (origin: &Origin)
        ensures
            *origin == self@.origin,
    {
        &self.origin
    }
}

/// One authenticated connection to the peer.
pub struct Session {
    host: String,
    credentials: Credentials,
    keepalive: KeepAlive,
    connected: bool,
    missed: usize,
    listeners: Vec<ListenerHandle>,
}

/// What a `Session` stands for.
pub struct SessionView {
    /// The peer's address.
    pub host: String,
    pub credentials: Credentials,
    pub keepalive: KeepAlive,
    /// Connected, or closed for good.
    pub connected: bool,
    /// How many probes went unanswered since the last answer.
    pub missed: usize,
    /// The remote listeners that are open, oldest first.
    pub listeners: Seq<ListenerHandle>,
}

impl View for Session {
    type V = SessionView;

    closed spec fn view(&self) -> SessionView {
        SessionView {
            host: self.host,
            credentials: self.credentials,
            keepalive: self.keepalive,
            connected: self.connected,
            missed: self.missed,
            listeners: self.listeners@,
        }
    }
}

impl SessionView {
    /// The session as `connect` makes it.
    pub open spec fn fresh(host: String, credentials: Credentials, keepalive: KeepAlive) -> SessionView {
        SessionView {
            host,
            credentials,
            keepalive,
            connected: true,
            missed: 0,
            listeners: Seq::empty(),
        }
    }

    /// This session, closed: no listener is left and the probe count is void.
    pub open spec fn closed(self) -> SessionView {
        SessionView { connected: false, missed: 0, listeners: Seq::empty(), ..self }
    }

    /// This session after an answer that may report the transport as gone.
    pub open spec fn unless_lost(self, lost: bool) -> SessionView {
        if self.connected && lost {
            self.closed()
        } else {
            self
        }
    }

    /// This session after one probe. An answer voids the count. A miss adds
    /// to it, and closes the session when the count reaches the limit.
    pub open spec fn after_probe(self, answered: bool) -> SessionView {
        if !self.connected {
            self
        } else if answered {
            SessionView { missed: 0, ..self }
        } else if !self.keepalive.limited() {
            self
        } else if self.missed + 1 >= self.keepalive.max_missed {
            self.closed()
        } else {
            SessionView { missed: (self.missed + 1) as usize, ..self }
        }
    }

    /// This session after `n` probes in a row went unanswered.
    pub open spec fn after_misses(self, n: nat) -> SessionView
        decreases n,
    {
        if n == 0 {
            self
        } else {
            self.after_probe(false).after_misses((n - 1) as nat)
        }
    }

    /// This session after the peer has been silent for `secs` seconds, a
    /// probe falling due every interval.
    pub open spec fn after_silence(self, secs: nat) -> SessionView
        recommends
            self.keepalive.interval_secs > 0,
    {
        self.after_misses(secs / (self.keepalive.interval_secs as nat))
    }

    /// Whether a listener of this session listens on `port`.
    pub open spec fn listens_on(self, port: u32) -> bool {
        exists|i: int| 0 <= i < self.listeners.len() && (#[trigger] self.listeners[i]).port == port
    }

    /// Whether `handle` names a listener of this session.
    pub open spec fn holds(self, handle: ListenerHandle) -> bool {
        exists|i: int|
            0 <= i < self.listeners.len() && same_listener(#[trigger] self.listeners[i], handle)
    }

    /// What `disconnect` answers.
    pub open spec fn disconnect(self, reason: DisconnectReason) -> Option<DisconnectReason> {
        if self.connected {
            Some(reason)
        } else {
            None
        }
    }

    /// What `open_stream` answers.
    pub open spec fn open_stream(self, target: ForwardTarget, origin: Origin) -> Result<
        OpenRequest,
        ForwardError,
    > {
        if self.connected {
            Ok(OpenRequest { target, origin })
        } else {
            Err(ForwardError::SessionClosed)
        }
    }

    /// What `stream_opened` answers.
    pub open spec fn stream_opened(self, request: OpenRequest, reply: Reply) -> Result<
        LogicalStreamView,
        ForwardError,
    > {
        if !self.connected {
            Err(ForwardError::SessionClosed)
        } else {
            match reply {
                Reply::Granted => Ok(
                    LogicalStreamView {
                        initiator: Initiator::Local,
                        target: request.target,
                        origin: request.origin,
                    },
                ),
                Reply::Refused => Err(ForwardError::Open),
                Reply::Lost => Err(ForwardError::SessionClosed),
            }
        }
    }

    /// What `accept_inbound_stream` answers.
    pub open spec fn accept_inbound_stream(self, push: InboundPush) -> Result<
        LogicalStreamView,
        ForwardError,
    > {
        if !self.connected {
            Err(ForwardError::SessionClosed)
        } else if !self.listens_on(push.connected.port) {
            Err(ForwardError::Open)
        } else {
            Ok(
                LogicalStreamView {
                    initiator: Initiator::Remote,
                    target: push.connected,
                    origin: push.origin,
                },
            )
        }
    }

    /// What `request_remote_listener` answers.
    pub open spec fn request_remote_listener(self, bind: ForwardTarget) -> Result<
        ForwardTarget,
        ForwardError,
    > {
        if self.connected {
            Ok(bind)
        } else {
            Err(ForwardError::SessionClosed)
        }
    }

    /// The listener that the peer opened when it answered `Bound(reported)`
    /// to a request for `bind`: on the port it reported, or on the port asked
    /// for where it reported none.
    pub open spec fn granted(bind: ForwardTarget, reported: u32) -> ListenerHandle {
        ListenerHandle {
            host: bind.host,
            port: if reported != 0 {
                reported
            } else {
                bind.port
            },
        }
    }

    /// What `remote_listener_opened` answers.
    pub open spec fn remote_listener_opened(self, bind: ForwardTarget, reply: ListenReply) -> Result<
        ListenerHandle,
        ForwardError,
    > {
        if !self.connected {
            Err(ForwardError::SessionClosed)
        } else {
            match reply {
                ListenReply::Bound(reported) => Ok(Self::granted(bind, reported)),
                ListenReply::Refused => Err(ForwardError::Open),
                ListenReply::Lost => Err(ForwardError::SessionClosed),
            }
        }
    }

    /// The session after `remote_listener_opened`.
    pub open spec fn after_listener_opened(self, bind: ForwardTarget, reply: ListenReply) -> SessionView {
        if !self.connected {
            self
        } else {
            match reply {
                ListenReply::Bound(reported) => SessionView {
                    listeners: self.listeners.push(Self::granted(bind, reported)),
                    ..self
                },
                ListenReply::Refused => self,
                ListenReply::Lost => self.closed(),
            }
        }
    }

    /// What `cancel_remote_listener` answers.
    pub open spec fn cancel_remote_listener(self, handle: ListenerHandle) -> Result<
        ForwardTarget,
        ForwardError,
    > {
        if !self.connected {
            Err(ForwardError::SessionClosed)
        } else if !self.holds(handle) {
            Err(ForwardError::Cancel)
        } else {
            Ok(ForwardTarget { host: handle.host, port: handle.port })
        }
    }

    /// What `remote_listener_cancelled` answers.
    pub open spec fn remote_listener_cancelled(self, reply: Reply) -> Result<(), ForwardError> {
        if !self.connected {
            Err(ForwardError::SessionClosed)
        } else {
            match reply {
                Reply::Granted => Ok(()),
                Reply::Refused => Err(ForwardError::Cancel),
                Reply::Lost => Err(ForwardError::SessionClosed),
            }
        }
    }

    /// The session after `remote_listener_cancelled`.
    pub open spec fn after_listener_cancelled(self, handle: ListenerHandle, reply: Reply) -> SessionView {
        if !self.connected {
            self
        } else {
            match reply {
                Reply::Granted => SessionView { listeners: without(self.listeners, handle), ..self },
                Reply::Refused => self,
                Reply::Lost => self.closed(),
            }
        }
    }
}

impl Session {
    /// Makes the session from what the transport reported of the attempt to
    /// connect to `host` and authenticate with `credentials`. There is a
    /// session only where the peer let it in; a refusal, or an acceptance that
    /// asks for more, is an authentication failure, and anything earlier a
    /// connection failure.
    pub fn connect(
        host: String,
        credentials: Credentials,
        keepalive: KeepAlive,
        outcome: ConnectOutcome,
    ) -> (r: Result<Session, ForwardError>)
        ensures
            match r {
                Ok(session) => outcome.failure() is None && session@ == SessionView::fresh(
                    host,
                    credentials,
                    keepalive,
                ),
                Err(e) => outcome.failure() == Some(e),
            },
    {
        match outcome {
            ConnectOutcome::Unreachable => Err(ForwardError::Connect),
            ConnectOutcome::Rejected => Err(ForwardError::Auth),
            ConnectOutcome::Partial => Err(ForwardError::Auth),
            ConnectOutcome::Authenticated => Ok(
                Session {
                    host,
                    credentials,
                    keepalive,
                    connected: true,
                    missed: 0,
                    listeners: Vec::new(),
                },
            ),
        }
    }

    pub fn is_connected(&self) -> (connected: bool)
        ensures
            connected == self@.connected,
    {
        self.connected
    }

    /// The peer's address.
    pub fn host(&self) -> (host: &String)
        ensures
            *host == self@.host,
    {
        &self.host
    }

    pub fn credentials(&self) -> (credentials: &Credentials)
        ensures
            *credentials == self@.credentials,
    {
        &self.credentials
    }

    pub fn keepalive(&self) -> (keepalive: KeepAlive)
        ensures
            keepalive == self@.keepalive,
    {
        self.keepalive
    }

    fn close(&mut self)
        ensures
            final(self)@ == old(self)@.closed(),
    {
        self.connected = false;
        self.missed = 0;
        self.listeners = Vec::new();
    }

    /// Closes the session on this side's wish. Returns what to tell the
    /// peer: the reason, the first time, and nothing once the session is
    /// closed.
    pub fn disconnect(&mut self, reason: DisconnectReason) -> (notice: Option<DisconnectReason>)
        ensures
            final(self)@ == old(self)@.closed(),
            notice == old(self)@.disconnect(reason),
    {
        let notice = if self.connected {
            Some(reason)
        } else {
            None
        };
        self.close();
        notice
    }

    /// Records that the transport failed.
    pub fn transport_lost(&mut self)
        ensures
            final(self)@ == old(self)@.closed(),
    {
        self.close();
    }

    /// Records the fate of one keep-alive probe: answered before the next one
    /// was due, or not. Returns whether the session is still connected.
    pub fn probe(&mut self, answered: bool) -> (alive: bool)
        ensures
            final(self)@ == old(self)@.after_probe(answered),
            alive == final(self)@.connected,
    {
        if !self.connected {
            return false;
        }
        if answered {
            self.missed = 0;
        } else if self.keepalive.max_missed != 0 {
            if self.missed >= self.keepalive.max_missed - 1 {
                self.close();
                return false;
            }
            self.missed = self.missed + 1;
        }
        true
    }

    /// Says what to ask of the peer to open a stream toward `target` for a
    /// connection that came from `origin`. A closed session asks nothing.
    pub fn open_stream(&self, target: &ForwardTarget, origin: Origin) -> (r: Result<
        OpenRequest,
        ForwardError,
    >)
        ensures
            r == self@.open_stream(*target, origin),
    {
        if self.connected {
            Ok(OpenRequest { target: target.clone(), origin })
        } else {
            Err(ForwardError::SessionClosed)
        }
    }

    /// Takes the peer's answer to `request` and hands out the stream if there
    /// is one. An answer that reports the transport as gone closes the
    /// session.
    pub fn stream_opened(&mut self, request: OpenRequest, reply: Reply) -> (r: Result<
        LogicalStream,
        ForwardError,
    >)
        ensures
            final(self)@ == old(self)@.unless_lost(reply == Reply::Lost),
            match r {
                Ok(stream) => old(self)@.stream_opened(request, reply) == Ok::<
                    LogicalStreamView,
                    ForwardError,
                >(stream@),
                Err(e) => old(self)@.stream_opened(request, reply) == Err::<
                    LogicalStreamView,
                    ForwardError,
                >(e),
            },
    {
        if !self.connected {
            return Err(ForwardError::SessionClosed);
        }
        match reply {
            Reply::Granted => Ok(
                LogicalStream {
                    initiator: Initiator::Local,
                    target: request.target,
                    origin: request.origin,
                },
            ),
            Reply::Refused => Err(ForwardError::Open),
            Reply::Lost => {
                self.close();
                Err(ForwardError::SessionClosed)
            },
        }
    }

    fn has_listener_on(&self, port: u32) -> (found: bool)
        ensures
            found == self@.listens_on(port),
    {
        let mut i: usize = 0;
        while i < self.listeners.len()
            invariant
                i <= self.listeners.len(),
                forall|j: int| 0 <= j < i ==> (#[trigger] self.listeners@[j]).port != port,
            decreases self.listeners.len() - i,
        {
            if self.listeners[i].port == port {
                assert(self@.listeners[i as int].port == port);
                return true;
            }
            i = i + 1;
        }
        false
    }

    fn has_listener(&self, handle: &ListenerHandle) -> (found: bool)
        ensures
            found == self@.holds(*handle),
    {
        let mut i: usize = 0;
        while i < self.listeners.len()
            invariant
                i <= self.listeners.len(),
                forall|j: int| 0 <= j < i ==> !same_listener(#[trigger] self.listeners@[j], *handle),
            decreases self.listeners.len() - i,
        {
            let held = &self.listeners[i];
            if held.port == handle.port && held.host == handle.host {
                assert(same_listener(self@.listeners[i as int], *handle));
                return true;
            }
            i = i + 1;
        }
        false
    }

    /// Takes a stream that the peer pushed. It is handed out if the session is
    /// connected and the stream came in on the port of one of its listeners;
    /// a stream for a listener that was cancelled, or never asked for, is
    /// turned away.
    pub fn accept_inbound_stream(&self, push: InboundPush) -> (r: Result<
        LogicalStream,
        ForwardError,
    >)
        ensures
            match r {
                Ok(stream) => self@.accept_inbound_stream(push) == Ok::<
                    LogicalStreamView,
                    ForwardError,
                >(stream@),
                Err(e) => self@.accept_inbound_stream(push) == Err::<
                    LogicalStreamView,
                    ForwardError,
                >(e),
            },
    {
        if !self.connected {
            Err(ForwardError::SessionClosed)
        } else if !self.has_listener_on(push.connected.port) {
            Err(ForwardError::Open)
        } else {
            Ok(
                LogicalStream {
                    initiator: Initiator::Remote,
                    target: push.connected,
                    origin: push.origin,
                },
            )
        }
    }

    /// Says what to ask of the peer to have it listen on `bind`. A closed
    /// session asks nothing.
    pub fn request_remote_listener(&self, bind: &ForwardTarget) -> (r: Result<
        ForwardTarget,
        ForwardError,
    >)
        ensures
            r == self@.request_remote_listener(*bind),
    {
        if self.connected {
            Ok(bind.clone())
        } else {
            Err(ForwardError::SessionClosed)
        }
    }

    /// Takes the peer's answer to a request to listen on `bind`. Where the
    /// peer listens, the handle names the port it really listens on: the one
    /// it reported, or the one asked for where it reported none.
    pub fn remote_listener_opened(&mut self, bind: ForwardTarget, reply: ListenReply) -> (r: Result<
        ListenerHandle,
        ForwardError,
    >)
        ensures
            final(self)@ == old(self)@.after_listener_opened(bind, reply),
            r == old(self)@.remote_listener_opened(bind, reply),
            r matches Ok(handle) ==> final(self)@.holds(handle) && final(self)@.listens_on(
                handle.port,
            ),
    {
        if !self.connected {
            return Err(ForwardError::SessionClosed);
        }
        match reply {
            ListenReply::Bound(reported) => {
                let port = if reported != 0 {
                    reported
                } else {
                    bind.port
                };
                let handle = ListenerHandle { host: bind.host, port };
                self.listeners.push(handle.clone());
                assert(self@.listeners[self@.listeners.len() - 1] == handle);
                Ok(handle)
            },
            ListenReply::Refused => Err(ForwardError::Open),
            ListenReply::Lost => {
                self.close();
                Err(ForwardError::SessionClosed)
            },
        }
    }

    /// Says what to ask of the peer to have it stop the listener that `handle`
    /// names. Only a listener of this session can be cancelled.
    pub fn cancel_remote_listener(&self, handle: &ListenerHandle) -> (r: Result<
        ForwardTarget,
        ForwardError,
    >)
        ensures
            r == self@.cancel_remote_listener(*handle),
    {
        if !self.connected {
            Err(ForwardError::SessionClosed)
        } else if !self.has_listener(handle) {
            Err(ForwardError::Cancel)
        } else {
            Ok(ForwardTarget { host: handle.host.clone(), port: handle.port })
        }
    }

    /// Takes the peer's answer to a request to stop the listener that `handle`
    /// names. Once the peer has stopped it, the session no longer holds it,
    /// and streams pushed for it are turned away.
    pub fn remote_listener_cancelled(&mut self, handle: &ListenerHandle, reply: Reply) -> (r: Result<
        (),
        ForwardError,
    >)
        ensures
            final(self)@ == old(self)@.after_listener_cancelled(*handle, reply),
            r == old(self)@.remote_listener_cancelled(reply),
            r is Ok ==> !final(self)@.holds(*handle),
    {
        if !self.connected {
            return Err(ForwardError::SessionClosed);
        }
        match reply {
            Reply::Granted => {
                let mut kept: Vec<ListenerHandle> = Vec::new();
                let mut i: usize = 0;
                while i < self.listeners.len()
                    invariant
                        i <= self.listeners.len(),
                        kept@ == without(self.listeners@.take(i as int), *handle),
                    decreases self.listeners.len() - i,
                {
                    let held = &self.listeners[i];
                    proof {
                        let prefix = self.listeners@.take(i + 1);
                        assert(prefix.drop_last() =~= self.listeners@.take(i as int));
                        assert(prefix.last() == self.listeners@[i as int]);
                    }
                    if !(held.port == handle.port && held.host == handle.host) {
                        kept.push(held.clone());
                    }
                    i = i + 1;
                }
                proof {
                    assert(self.listeners@.take(i as int) =~= self.listeners@);
                    cancelled_listener_is_gone(self.listeners@, *handle);
                }
                self.listeners = kept;
                Ok(())
            },
            Reply::Refused => Err(ForwardError::Cancel),
            Reply::Lost => {
                self.close();
                Err(ForwardError::SessionClosed)
            },
        }
    }
}

/// Streams open on a connected session and on no other. Asking is answered
/// with a request exactly while the session is connected. Where the peer does
/// not refuse, a stream is handed out exactly when the session is still
/// connected afterwards. A session that was just made is connected, and one
/// that was closed opens nothing, whatever the peer answers.
pub proof fn stream_opens_iff_connected(
    session: SessionView,
    target: ForwardTarget,
    origin: Origin,
    request: OpenRequest,
    reply: Reply,
)
    requires
        reply != Reply::Refused,
    ensures
        session.open_stream(target, origin) is Ok <==> session.connected,
        session.stream_opened(request, reply) is Ok <==> session.unless_lost(
            reply == Reply::Lost,
        ).connected,
        SessionView::fresh(session.host, session.credentials, session.keepalive).open_stream(
            target,
            origin,
        ) is Ok,
        SessionView::fresh(session.host, session.credentials, session.keepalive).stream_opened(
            request,
            Reply::Granted,
        ) is Ok,
        session.closed().open_stream(target, origin) == Err::<OpenRequest, ForwardError>(
            ForwardError::SessionClosed,
        ),
        session.closed().stream_opened(request, reply) == Err::<LogicalStreamView, ForwardError>(
            ForwardError::SessionClosed,
        ),
{
}

/// On a session that is not connected every operation fails with
/// `SessionClosed`, whatever the peer is said to have answered, and nothing
/// brings the session back.
pub proof fn closed_session_fails_everything(
    session: SessionView,
    target: ForwardTarget,
    origin: Origin,
    request: OpenRequest,
    push: InboundPush,
    handle: ListenerHandle,
    reply: Reply,
    listening: ListenReply,
    answered: bool,
)
    requires
        !session.connected,
    ensures
        session.open_stream(target, origin) == Err::<OpenRequest, ForwardError>(
            ForwardError::SessionClosed,
        ),
        session.stream_opened(request, reply) == Err::<LogicalStreamView, ForwardError>(
            ForwardError::SessionClosed,
        ),
        session.accept_inbound_stream(push) == Err::<LogicalStreamView, ForwardError>(
            ForwardError::SessionClosed,
        ),
        session.request_remote_listener(target) == Err::<ForwardTarget, ForwardError>(
            ForwardError::SessionClosed,
        ),
        session.remote_listener_opened(target, listening) == Err::<ListenerHandle, ForwardError>(
            ForwardError::SessionClosed,
        ),
        session.cancel_remote_listener(handle) == Err::<ForwardTarget, ForwardError>(
            ForwardError::SessionClosed,
        ),
        session.remote_listener_cancelled(reply) == Err::<(), ForwardError>(
            ForwardError::SessionClosed,
        ),
        session.unless_lost(reply == Reply::Lost) == session,
        session.after_listener_opened(target, listening) == session,
        session.after_listener_cancelled(handle, reply) == session,
        session.after_probe(answered) == session,
{
}

/// However many probes a session that is not connected misses, it stays as
/// it is.
pub proof fn closed_session_ignores_probes(session: SessionView, n: nat)
    requires
        !session.connected,
    ensures
        session.after_misses(n) == session,
    decreases n,
{
    if n > 0 {
        closed_session_ignores_probes(session, (n - 1) as nat);
    }
}

/// Keep-alive: once as many probes in a row have gone unanswered as the limit
/// allows, the session is closed, and it stays closed however many more are
/// missed. With probes sent at the configured interval this happens no later
/// than limit times interval after the last sign of life.
pub proof fn unanswered_probes_close_session(session: SessionView, n: nat)
    requires
        session.keepalive.limited(),
        n >= 1,
        n + session.missed >= session.keepalive.max_missed,
    ensures
        !session.after_misses(n).connected,
    decreases n,
{
    let next = session.after_probe(false);
    if !next.connected {
        closed_session_ignores_probes(next, (n - 1) as nat);
    } else {
        unanswered_probes_close_session(next, (n - 1) as nat);
    }
}

/// Keep-alive in time: with a probe falling due every interval, a peer that
/// has been silent for limit times interval seconds, or longer, has closed
/// the session.
pub proof fn silence_closes_session_in_bounded_time(session: SessionView, secs: nat)
    requires
        session.keepalive.limited(),
        session.keepalive.interval_secs > 0,
        secs >= session.keepalive.interval_secs * session.keepalive.max_missed,
    ensures
        !session.after_silence(secs).connected,
{
    let interval = session.keepalive.interval_secs as nat;
    let limit = session.keepalive.max_missed as nat;
    assert(secs / interval >= limit) by (nonlinear_arith)
        requires
            interval > 0,
            secs >= interval * limit,
    ;
    unanswered_probes_close_session(session, secs / interval);
}

/// Keep-alive, the other way round: after a sign of life the session outlasts
/// any number of missed probes below the limit, and any number at all where no
/// limit is set. The count it keeps is the number of probes missed.
pub proof fn fewer_misses_keep_session(session: SessionView, n: nat)
    requires
        session.connected,
        session.keepalive.limited() ==> n + session.missed < session.keepalive.max_missed,
    ensures
        session.after_misses(n).connected,
        session.after_misses(n).listeners == session.listeners,
        session.keepalive.limited() ==> session.after_misses(n).missed == n + session.missed,
    decreases n,
{
    if n > 0 {
        fewer_misses_keep_session(session.after_probe(false), (n - 1) as nat);
    }
}

/// A listener that was cancelled is gone: the session holds no entry that
/// names it, and every listener it still holds was held before.
pub proof fn cancelled_listener_is_gone(listeners: Seq<ListenerHandle>, handle: ListenerHandle)
    ensures
        forall|i: int|
            0 <= i < without(listeners, handle).len() ==> !same_listener(
                #[trigger] without(listeners, handle)[i],
                handle,
            ),
        forall|i: int|
            0 <= i < without(listeners, handle).len() ==> listeners.contains(
                #[trigger] without(listeners, handle)[i],
            ),
    decreases listeners.len(),
{
    if listeners.len() > 0 {
        let front = listeners.drop_last();
        cancelled_listener_is_gone(front, handle);
        let kept = without(listeners, handle);
        assert forall|i: int| 0 <= i < kept.len() implies listeners.contains(#[trigger] kept[i]) by {
            if i < without(front, handle).len() {
                let found = without(front, handle)[i];
                assert(front.contains(found));
                let j = choose|j: int| 0 <= j < front.len() && front[j] == found;
                assert(listeners[j] == found);
            } else {
                assert(kept[i] == listeners[listeners.len() - 1]);
            }
        }
    }
}

} // verus!
