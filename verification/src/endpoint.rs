//! Plain values that name the two ends of a tunnel and configure the session.

use vstd::prelude::*;

verus! {

/// A host and a port on either side of the tunnel: where connections are sent,
/// or where a listener is opened.
#[derive(Debug, PartialEq, Eq)]
pub struct ForwardTarget {
    pub host: String,
    pub port: u32,
}

impl ForwardTarget {
    pub fn new(host: String, port: u32) -> (target: ForwardTarget)
        ensures
            target == (ForwardTarget { host, port }),
    {
        ForwardTarget { host, port }
    }
}

impl Clone for ForwardTarget {
    fn clone(&self) -> (copy: ForwardTarget)
        ensures
            copy == *self,
    {
        ForwardTarget { host: self.host.clone(), port: self.port }
    }
}

/// Where a relayed connection came from, as the accepting side saw it. It is
/// handed to the peer for its own records and decides nothing here.
#[derive(Debug, PartialEq, Eq)]
pub struct Origin {
    pub host: String,
    pub port: u32,
}

impl Origin {
    pub fn new(host: String, port: u32) -> (origin: Origin)
        ensures
            origin == (Origin { host, port }),
    {
        Origin { host, port }
    }
}

impl Clone for Origin {
    fn clone(&self) -> (copy: Origin)
        ensures
            copy == *self,
    {
        Origin { host: self.host.clone(), port: self.port }
    }
}

/// What the session presents to the peer to authenticate. The engine carries
/// it and never looks inside.
#[derive(PartialEq, Eq)]
pub struct Credentials {
    pub user: String,
    pub password: String,
}

impl Credentials {
    pub fn new(user: String, password: String) -> (credentials: Credentials)
        ensures
            credentials == (Credentials { user, password }),
    {
        Credentials { user, password }
    }
}

/// How the session checks that the peer is still there.
#[derive(Clone, Copy, Debug, PartialEq, Eq, Structural)]
pub struct KeepAlive {
    /// Seconds between two probes.
    pub interval_secs: u64,
    /// How many probes in a row may go unanswered before the session is
    /// declared dead. Zero sets no limit.
    pub max_missed: usize,
}

impl KeepAlive {
    pub fn new(interval_secs: u64, max_missed: usize) -> (keepalive: KeepAlive)
        ensures
            keepalive == (KeepAlive { interval_secs, max_missed }),
    {
        KeepAlive { interval_secs, max_missed }
    }

    /// Whether unanswered probes can close the session at all.
    pub open spec fn limited(self) -> bool {
        self.max_missed != 0
    }
}

impl Default for KeepAlive {
    /// A probe every 30 seconds, and the session is given up after 4 of them
    /// went unanswered in a row.
    fn default() -> (keepalive: KeepAlive)
        ensures
            keepalive == (KeepAlive { interval_secs: 30, max_missed: 4 }),
    {
        KeepAlive { interval_secs: 30, max_missed: 4 }
    }
}

} // verus!
