//! The failures a forwarder can meet, and how far each of them reaches.

use vstd::prelude::*;

verus! {

/// Every failure the tunnel engine reports.
#[derive(Clone, Copy, Debug, PartialEq, Eq, Structural)]
pub enum ForwardError {
    /// The transport peer could not be reached, or the handshake failed.
    Connect,
    /// The peer rejected the credentials.
    Auth,
    /// The local listening socket could not be opened.
    Bind,
    /// A stream or a remote listener could not be opened.
    Open,
    /// A remote listener could not be cancelled.
    Cancel,
    /// I/O failed while one connection was being relayed.
    Pipe,
    /// The session is closed: by disconnect, by transport failure, or because
    /// the keep-alive probes went unanswered.
    SessionClosed,
}

/// How much of the program a failure takes down.
#[derive(Clone, Copy, Debug, PartialEq, Eq, Structural)]
pub enum Reach {
    /// Setup failed: the process has nothing to run and ends with a diagnostic.
    Startup,
    /// One connection or one listener request failed; everything else goes on.
    Connection,
    /// The session is gone: the forwarder's run ends, and retrying is useless.
    Session,
}

impl ForwardError {
    /// How far this failure reaches.
    pub open spec fn spec_reach(self) -> Reach {
        match self {
            ForwardError::Connect | ForwardError::Auth | ForwardError::Bind => Reach::Startup,
            ForwardError::Open | ForwardError::Cancel | ForwardError::Pipe => Reach::Connection,
            ForwardError::SessionClosed => Reach::Session,
        }
    }

    /// The text shown for this failure.
    pub open spec fn spec_describe(self) -> Seq<char> {
        match self {
            ForwardError::Connect => "cannot reach the transport peer"@,
            ForwardError::Auth => "authentication rejected"@,
            ForwardError::Bind => "cannot bind the local listener"@,
            ForwardError::Open => "stream or listener refused by the peer"@,
            ForwardError::Cancel => "remote listener could not be cancelled"@,
            ForwardError::Pipe => "relay failed"@,
            ForwardError::SessionClosed => "session closed"@,
        }
    }

    #[verifier::when_used_as_spec(spec_reach)]
    pub fn reach(self) -> (r: Reach)
        ensures
            r == self.spec_reach(),
    {
        match self {
            ForwardError::Connect | ForwardError::Auth | ForwardError::Bind => Reach::Startup,
            ForwardError::Open | ForwardError::Cancel | ForwardError::Pipe => Reach::Connection,
            ForwardError::SessionClosed => Reach::Session,
        }
    }

    /// Whether the forwarder can go on serving other connections after this
    /// failure.
    pub fn is_recoverable(self) -> (b: bool)
        ensures
            b == (self.spec_reach() == Reach::Connection),
    {
        match self.reach() {
            Reach::Connection => true,
            _ => false,
        }
    }

    /// A human-readable diagnostic.
    pub fn describe(self) -> (text: &'static str)
        ensures
            text@ == self.spec_describe(),
    {
        match self {
            ForwardError::Connect => "cannot reach the transport peer",
            ForwardError::Auth => "authentication rejected",
            ForwardError::Bind => "cannot bind the local listener",
            ForwardError::Open => "stream or listener refused by the peer",
            ForwardError::Cancel => "remote listener could not be cancelled",
            ForwardError::Pipe => "relay failed",
            ForwardError::SessionClosed => "session closed",
        }
    }
}

} // verus!
