//! What this side brings to a session: where pushed streams are to be
//! connected, and which peer it is willing to talk to.

use vstd::prelude::*;

verus! {

/// This side's part in a session.
#[derive(Debug, PartialEq, Eq)]
pub struct Client {
    local: String,
    pinned: Option<Vec<u8>>,
}

/// What a `Client` stands for.
pub struct ClientView {
    /// The local address that streams pushed by the peer are connected to.
    pub local: String,
    /// The one server key that is accepted, or `None` to accept any.
    pub pinned: Option<Seq<u8>>,
}

impl View for Client {
    type V = ClientView;

    closed spec fn view(&self) -> ClientView {
        ClientView {
            local: self.local,
            pinned: match self.pinned {
                Some(key) => Some(key@),
                None => None,
            },
        }
    }
}

impl ClientView {
    /// Whether a peer that presents `key` is accepted.
    pub open spec fn accepts(self, key: Seq<u8>) -> bool {
        match self.pinned {
            Some(expected) => expected == key,
            None => true,
        }
    }
}

impl Client {
    /// A client that connects pushed streams to `local` and accepts whatever
    /// key the peer presents.
    pub fn new(local: String) -> (client: Client)
        ensures
            client@ == (ClientView { local, pinned: None }),
    {
        Client { local, pinned: None }
    }

    /// A client that connects pushed streams to `local` and accepts the peer
    /// only if it presents exactly `key`.
    pub fn pinned_to(local: String, key: Vec<u8>) -> (client: Client)
        ensures
            client@ == (ClientView { local, pinned: Some(key@) }),
    {
        Client { local, pinned: Some(key) }
    }

    /// The local address that pushed streams are connected to.
    pub fn local(&self) -> (local: &String)
        ensures
            *local == self@.local,
    {
        &self.local
    }

    /// Decides whether to go on with a peer that presents `key`.
    pub fn check_server_key(&self, key: &[u8]) -> (accepted: bool)
        ensures
            accepted == self@.accepts(key@),
    {
        match &self.pinned {
            None => true,
            Some(expected) => {
                if expected.len() != key.len() {
                    return false;
                }
                let mut i: usize = 0;
                while i < key.len()
                    invariant
                        i <= key.len(),
                        self@.pinned == Some(expected@),
                        expected@.len() == key@.len(),
                        forall|j: int| 0 <= j < i ==> expected@[j] == key@[j],
                    decreases key.len() - i,
                {
                    if expected[i] != key[i] {
                        return false;
                    }
                    i = i + 1;
                }
                assert(expected@ =~= key@);
                true
            },
        }
    }
}

} // verus!
