//! The entry point: one authenticated session, ready to forward in either
//! direction.

use crate::client::Client;
use crate::client::ClientView;
use crate::endpoint::Credentials;
use crate::endpoint::ForwardTarget;
use crate::endpoint::KeepAlive;
use crate::error::ForwardError;
use crate::local::ListenState;
use crate::local::LocalForwarder;
use crate::local::LocalForwarderView;
use crate::remote::RemoteForwarder;
use crate::remote::RemoteForwarderView;
use crate::remote::RemoteState;
use crate::session::ConnectOutcome;
use crate::session::Session;
use crate::session::SessionView;
use vstd::prelude::*;

verus! {

/// A connected session together with the two addresses to forward between.
/// There is no `PortForwarder` without a session that the peer let in, so
/// nothing can be forwarded, and no connection relayed, before that.
pub struct PortForwarder {
    session: Session,
    client: Client,
    local_addr: String,
    remote: ForwardTarget,
}

/// What a `PortForwarder` stands for.
pub struct PortForwarderView {
    pub session: SessionView,
    pub client: ClientView,
    /// The address on this side: listened on when forwarding from here,
    /// connected to when forwarding from the peer.
    pub local_addr: String,
    /// The address on the peer's side: connected to when forwarding from
    /// here, listened on when forwarding from the peer.
    pub remote: ForwardTarget,
}

impl View for PortForwarder {
    type V = PortForwarderView;

    closed spec fn view(&self) -> PortForwarderView {
        PortForwarderView {
            session: self.session@,
            client: self.client@,
            local_addr: self.local_addr,
            remote: self.remote,
        }
    }
}

impl PortForwarderView {
    /// The forwarder that `new` makes once the peer has let the session in:
    /// probed every 30 seconds, given up after 4 probes in a row went
    /// unanswered.
    pub open spec fn connected(
        ssh_host: String,
        ssh_user: String,
        ssh_password: String,
        local_addr: String,
        remote_ip: String,
        remote_port: u32,
    ) -> PortForwarderView {
        PortForwarderView {
            session: SessionView::fresh(
                ssh_host,
                Credentials { user: ssh_user, password: ssh_password },
                KeepAlive { interval_secs: 30, max_missed: 4 },
            ),
            client: ClientView { local: local_addr, pinned: None },
            local_addr,
            remote: ForwardTarget { host: remote_ip, port: remote_port },
        }
    }
}

impl PortForwarder {
    /// Makes the forwarder from what the transport reported of the attempt to
    /// connect to `ssh_host` and to authenticate as `ssh_user`. Anything short
    /// of full success yields the failure and no forwarder: a connection
    /// failure where the peer was not reached, an authentication failure
    /// where it turned the credentials down or asked for more.
    pub fn new(
        ssh_host: String,
        ssh_user: String,
        ssh_password: String,
        local_addr: String,
        remote_ip: String,
        remote_port: u32,
        outcome: ConnectOutcome,
    ) -> (r: Result<PortForwarder, ForwardError>)
        ensures
            match r {
                Ok(forwarder) => outcome.failure() is None && forwarder@
                    == PortForwarderView::connected(
                    ssh_host,
                    ssh_user,
                    ssh_password,
                    local_addr,
                    remote_ip,
                    remote_port,
                ),
                Err(e) => outcome.failure() == Some(e),
            },
    {
        let credentials = Credentials::new(ssh_user, ssh_password);
        let client = Client::new(local_addr.clone());
        match Session::connect(ssh_host, credentials, KeepAlive::default(), outcome) {
            Ok(session) => Ok(
                PortForwarder {
                    session,
                    client,
                    local_addr,
                    remote: ForwardTarget::new(remote_ip, remote_port),
                },
            ),
            Err(e) => Err(e),
        }
    }

    pub fn session(&self) -> (session: &Session)
        ensures
            session@ == self@.session,
    {
        &self.session
    }

    /// The address on this side.
    pub fn local_addr(&self) -> (addr: &String)
        ensures
            *addr == self@.local_addr,
    {
        &self.local_addr
    }

    /// The address on the peer's side.
    pub fn remote(&self) -> (remote: &ForwardTarget)
        ensures
            *remote == self@.remote,
    {
        &self.remote
    }

    /// Turns to forwarding from here: the local address is to be listened
    /// on, and every connection accepted there relayed to the remote address.
    /// The forwarder that comes back is not bound yet.
    pub fn local_forward(self) -> (forwarder: LocalForwarder)
        ensures
            forwarder@ == (LocalForwarderView {
                session: self@.session,
                local_addr: self@.local_addr,
                target: self@.remote,
                state: ListenState::Idle,
            }),
    {
        LocalForwarder::new(self.session, self.local_addr, self.remote)
    }

    /// Turns to forwarding from the peer: the peer is to listen on the
    /// remote address, and every connection it receives there relayed to the
    /// local address. The forwarder that comes back has not asked the peer
    /// yet.
    pub fn remote_forward(self) -> (forwarder: RemoteForwarder)
        ensures
            forwarder@ == (RemoteForwarderView {
                session: self@.session,
                client: self@.client,
                bind: self@.remote,
                state: RemoteState::Idle,
            }),
    {
        RemoteForwarder::new(self.session, self.client, self.remote)
    }
}

} // verus!
