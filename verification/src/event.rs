//! The values that pass between the event loop and the session logic.

use libp2p::{Multiaddr, PeerId};
use vstd::prelude::*;

verus! {

/// One expired discovery record, with discovery's answer to the question
/// asked again at the moment the record is handled: is the peer still among
/// the discovered nodes?
#[derive(Debug, PartialEq, Eq)]
pub struct Expiry {
    pub peer: PeerId,
    pub still_known: bool,
}

/// What the session coordinator can hand to the loop.
#[derive(Debug, PartialEq, Eq)]
pub enum Event {
    /// A listening address became active.
    ListeningOn(Multiaddr),
    /// Discovery saw these peers, for the first time or again after expiry.
    PeerDiscovered(Vec<PeerId>),
    /// These discovery records were not refreshed in time.
    PeerExpired(Vec<Expiry>),
    /// A message arrived on a subscribed topic.
    InboundMessage { source: PeerId, data: Vec<u8> },
    /// A connection to a peer failed or was dropped.
    ConnectionError,
    /// Anything else.
    Other,
}

/// What one turn of the loop waits for: the next line of local input, or
/// the next event of the session coordinator.
#[derive(Debug, PartialEq, Eq)]
pub enum Input {
    /// The user typed a line.
    Line(String),
    /// The local input stream has ended.
    Closed,
    /// The session coordinator produced an event.
    Network(Event),
}

/// The description of an event that the user is to see.
#[derive(Debug, PartialEq, Eq)]
pub enum Report {
    /// The node now listens on this address.
    Listening(Multiaddr),
    /// This peer published this payload.
    Message { source: PeerId, data: Vec<u8> },
}

/// The ways in which a node can fail.
#[derive(Debug, Clone, Copy, PartialEq, Eq)]
pub enum Failure {
    /// The identity or the transport could not be built.
    Startup,
    /// The listening address could not be bound.
    Bind,
    /// The peer that was to be dialled could not be reached.
    Dial,
    /// An established connection was dropped.
    Connection,
    /// The local input stream has ended.
    InputClosed,
}

impl Failure {
    /// Whether the failure ends the process. Failures of single
    /// connections and dials do not; the node goes on without that peer.
    pub open spec fn fatal(self) -> bool {
        self is Startup || self is Bind || self is InputClosed
    }

    /// Decides whether the process must stop on this failure.
    pub fn is_fatal(&self) -> (stop: bool)
        ensures
            stop == self.fatal(),
    {
        match self {
            Failure::Startup => true,
            Failure::Bind => true,
            Failure::Dial => false,
            Failure::Connection => false,
            Failure::InputClosed => true,
        }
    }
}

} // verus!
