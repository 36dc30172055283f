//! The peer-client capability and the pool of shared client handles.
//!
//! Every transport supplies a concrete client; the node service reaches
//! other peers exclusively through this trait and never sees the wire. The
//! pool hands out one client per peer id, creating it lazily on first use.

use vstd::prelude::*;

use std::collections::HashMap;

use crate::addr::Addr;
use crate::{Node, NodeId};

verus! {

broadcast use vstd::std_specs::hash::group_hash_axioms;

/// How a peer call can fail, as the node service distinguishes failures:
/// only an unreachable peer (`ConnectionFailed`, or `NotInitialized`, a
/// client asked to act before its connection exists) triggers fallback and
/// repair; everything else is surfaced.
#[derive(Clone, Debug)]
pub enum ClientError {
    /// The call could not reach the peer.
    ConnectionFailed(Node),
    /// The peer answered with something malformed.
    InvalidRequest(String),
    /// The client was asked to act before it finished connecting.
    NotInitialized,
    /// Anything else.
    Unexpected(String),
}

impl ClientError {
    /// Whether the node service treats this error as the peer being
    /// unreachable: a failed connection, or a client with no connection yet.
    pub open spec fn spec_is_connection_failure(&self) -> bool {
        self is ConnectionFailed || self is NotInitialized
    }

    /// Exec test for `spec_is_connection_failure`.
    pub fn is_connection_failure(&self) -> (r: bool)
        ensures
            r == self.spec_is_connection_failure(),
    {
        match self {
            ClientError::ConnectionFailed(_) => true,
            ClientError::NotInitialized => true,
            _ => false,
        }
    }
}

/// The connection state a transport client can report.
pub enum ClientStatus {
    NotConnected,
    Connected,
    Disconnected,
}

/// The peer-client capability: the abstract surface every peer exposes.
///
/// A transport implements this for its concrete client. The node service
/// assumes nothing about the answers — every contract downstream states what
/// holds whatever a peer replies — so implementations carry no proof burden.
pub trait Client: Sized {
    /// Create a client for the peer at `addr`. Never fails at call time; a
    /// lazy connection is permitted.
    fn init(addr: Addr) -> Self;

    /// Ask the peer for the successor of `id`.
    fn find_successor(&self, id: NodeId) -> Result<Node, ClientError>;

    /// Ask the peer for its immediate successor.
    fn successor(&self) -> Result<Node, ClientError>;

    /// Ask the peer for its successor list.
    fn successor_list(&self) -> Result<Vec<Node>, ClientError>;

    /// Ask the peer for its predecessor.
    fn predecessor(&self) -> Result<Option<Node>, ClientError>;

    /// Tell the peer about a candidate predecessor.
    fn notify(&self, predecessor: Node) -> Result<(), ClientError>;

    /// Check that the peer is alive.
    fn ping(&self) -> Result<(), ClientError>;
}

/// Lazily initialised, deduplicated peer clients, keyed by peer id.
pub struct ClientsPool<C: Client> {
    clients: HashMap<u64, C>,
}

impl<C: Client> View for ClientsPool<C> {
    type V = Map<u64, C>;

    closed spec fn view(&self) -> Map<u64, C> {
        self.clients@
    }
}

impl<C: Client> Default for ClientsPool<C> {
    /// An empty pool.
    fn default() -> (pool: Self)
        ensures
            pool@ == Map::<u64, C>::empty(),
    {
        ClientsPool { clients: HashMap::new() }
    }
}

impl<C: Client + Clone> ClientsPool<C> {
    /// The number of distinct peers with a resident client.
    pub fn len(&self) -> (n: usize)
        ensures
            n == self@.dom().len(),
    {
        self.clients.len()
    }

    /// Whether a client for the peer with `id` is resident.
    pub fn contains(&self, id: u64) -> (r: bool)
        ensures
            r == self@.contains_key(id),
    {
        self.clients.contains_key(&id)
    }

    /// Install `client` as the resident client for the peer with `id`.
    pub fn insert(&mut self, id: u64, client: C)
        ensures
            final(self)@ == old(self)@.insert(id, client),
    {
        self.clients.insert(id, client);
    }

    /// The client for `node`: the resident one if the peer was contacted
    /// before, otherwise a fresh one from `Client::init`, which is kept.
    pub fn get_or_init(&mut self, node: &Node) -> (client: C)
        ensures
            final(self)@.contains_key(node.id.0),
            old(self)@.contains_key(node.id.0) ==> final(self)@ == old(self)@,
            !old(self)@.contains_key(node.id.0) ==> final(self)@ == old(self)@.insert(
                node.id.0,
                final(self)@[node.id.0],
            ),
            vstd::pervasive::cloned::<C>(final(self)@[node.id.0], client),
    {
        let existing = match self.clients.get(&node.id.0) {
            Some(c) => Some(c.clone()),
            None => None,
        };
        match existing {
            Some(c) => c,
            None => {
                let client = C::init(node.addr());
                let handed_out = client.clone();
                self.clients.insert(node.id.0, client);
                handed_out
            },
        }
    }
}

} // verus!
