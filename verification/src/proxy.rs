//! One relay node: the two paths it works on, and how it pairs each client
//! with a fresh connection to the raw side.
//!
//! Binding, accepting and dialing are the caller's work. The node says which
//! of them is due, and is told how it ended.

use crate::config::{defines_view, Service};
use crate::template::resolve;
use vstd::prelude::*;

verus! {

/// The resolved paths of one service. They are fixed when the node is made.
#[derive(Clone, Debug, PartialEq, Eq)]
pub struct Node {
    src: String,
    dst: String,
}

impl Node {
    /// The raw-side path: where the real service listens.
    pub closed spec fn raw(&self) -> Seq<char> {
        self.src@
    }

    /// The isolated-side path: where the node itself listens.
    pub closed spec fn isolated(&self) -> Seq<char> {
        self.dst@
    }

    /// Resolves both path templates of `service`. Neither path is looked at
    /// here: whether the raw side can be reached shows when a client is paired.
    pub fn from_config(service: &Service, defines: &[(String, String)]) -> (node: Node)
        ensures
            node.raw() == resolve(service.src@, defines_view(defines@)),
            node.isolated() == resolve(service.dst@, defines_view(defines@)),
    {
        Node { src: service.src_in(defines), dst: service.dst_in(defines) }
    }

    /// The path to dial for each accepted client.
    pub fn raw_path(&self) -> (path: &str)
        ensures
            path@ == self.raw(),
    {
        self.src.as_str()
    }

    /// The path to bind the listener at.
    pub fn isolated_path(&self) -> (path: &str)
        ensures
            path@ == self.isolated(),
    {
        self.dst.as_str()
    }
}

/// Where the pairing of the next client stands.
#[derive(Clone, Copy, Debug, PartialEq, Eq, Structural)]
pub enum Pairing {
    /// No connection is held; the node waits for a client on the isolated side.
    Listening,
    /// A client is held; the node waits for its connection to the raw side.
    Dialing,
}

/// The operation that the node waits for.
#[derive(Clone, Copy, Debug, PartialEq, Eq, Structural)]
pub enum PairingAction {
    /// Accept a client on the isolated-side listener.
    Accept,
    /// Connect to the raw-side path.
    Dial,
}

/// How the awaited operation ended.
#[derive(Clone, Copy, Debug, PartialEq, Eq, Structural)]
pub enum PairingEvent {
    /// A client connected; the node holds it.
    Accepted,
    /// Accepting failed; there is no client.
    AcceptFailed,
    /// The raw side answered. Client and raw-side connection form a pair,
    /// which leaves the node to be relayed.
    Connected,
    /// The raw side could not be reached. The client is closed.
    ConnectFailed,
}

impl Pairing {
    /// Whether the node holds a client that has no raw-side connection yet.
    pub open spec fn holds_client(self) -> bool {
        self is Dialing
    }

    /// The operation that the node waits for in this state.
    pub open spec fn pending(self) -> PairingAction {
        match self {
            Pairing::Listening => PairingAction::Accept,
            Pairing::Dialing => PairingAction::Dial,
        }
    }

    /// The state after `event`. Only an accepted client leads to dialing; every
    /// other outcome, a failure too, leads back to listening. An event that
    /// the state does not wait for changes nothing.
    pub open spec fn next(self, event: PairingEvent) -> Pairing {
        match (self, event) {
            (Pairing::Listening, PairingEvent::Accepted) => Pairing::Dialing,
            (Pairing::Listening, PairingEvent::AcceptFailed) => Pairing::Listening,
            (Pairing::Dialing, PairingEvent::Connected) => Pairing::Listening,
            (Pairing::Dialing, PairingEvent::ConnectFailed) => Pairing::Listening,
            _ => self,
        }
    }

    /// A node that holds nothing and waits for its first client.
    pub fn new() -> (p: Pairing)
        ensures
            p == Pairing::Listening,
    {
        Pairing::Listening
    }

    /// The operation to carry out now.
    pub fn action(&self) -> (a: PairingAction)
        ensures
            a == self.pending(),
    {
        match self {
            Pairing::Listening => PairingAction::Accept,
            Pairing::Dialing => PairingAction::Dial,
        }
    }

    /// Takes note of how the awaited operation ended.
    pub fn step(self, event: PairingEvent) -> (p: Pairing)
        ensures
            p == self.next(event),
    {
        match (self, event) {
            (Pairing::Listening, PairingEvent::Accepted) => Pairing::Dialing,
            (Pairing::Dialing, PairingEvent::Connected) => Pairing::Listening,
            (Pairing::Dialing, PairingEvent::ConnectFailed) => Pairing::Listening,
            _ => self,
        }
    }
}

/// When the raw side cannot be reached, the client does not stay with the
/// node, and the node goes on to accept the next client.
pub proof fn lemma_failed_dial_releases_client(p: Pairing)
    ensures
        !p.next(PairingEvent::ConnectFailed).holds_client(),
        p.next(PairingEvent::ConnectFailed).pending() == PairingAction::Accept,
{
}

} // verus!
