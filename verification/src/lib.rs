//! Decision logic of a TCP tunnel forwarder that relays connections through one
//! authenticated, multiplexed transport session.
//!
//! Nothing in this crate performs I/O. Every operation that needs the network is
//! split in two: a function that says what to ask of the outside world, and a
//! function that takes what the outside world answered and says what follows.
//! The caller performs the requests and reports the answers.
//!
//! - `session`: the session with the peer, connected or closed, its streams,
//!   its remote listeners and its keep-alive count.
//! - `pipe` and `task`: the relay between the two ends of one connection.
//! - `local`: connections accepted here are relayed to a target behind the
//!   peer.
//! - `remote`: connections accepted by the peer are relayed to an address here.
//! - `forwarder`: the entry point, from which either direction is taken.
//! - `client`, `endpoint`, `error`: the values the others work with.
//!
//! Values that carry text, such as addresses, are handed on as they were given:
//! the contracts speak of the values themselves, and equal values have equal
//! text.

pub mod client;
pub mod endpoint;
pub mod error;
pub mod forwarder;
pub mod local;
pub mod pipe;
pub mod remote;
pub mod session;
pub mod task;

pub use client::Client;
pub use endpoint::Credentials;
pub use endpoint::ForwardTarget;
pub use endpoint::KeepAlive;
pub use endpoint::Origin;
pub use error::ForwardError;
pub use error::Reach;
pub use forwarder::PortForwarder;
pub use local::ListenState;
pub use local::LocalAction;
pub use local::LocalEvent;
pub use local::LocalForwarder;
pub use pipe::BidirectionalPipe;
pub use pipe::PipeAction;
pub use pipe::PipeEnd;
pub use pipe::PipeEvent;
pub use pipe::Side;
pub use remote::RemoteAction;
pub use remote::RemoteEvent;
pub use remote::RemoteForwarder;
pub use remote::RemoteState;
pub use remote::StopPlan;
pub use session::ConnectOutcome;
pub use session::DisconnectReason;
pub use session::InboundPush;
pub use session::Initiator;
pub use session::ListenReply;
pub use session::ListenerHandle;
pub use session::LogicalStream;
pub use session::OpenRequest;
pub use session::Reply;
pub use session::Session;
pub use task::ConnectionTask;
