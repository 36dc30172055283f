//! Core of a Chord distributed-hash-table node: identifier arithmetic on a
//! 64-bit ring, the node store (predecessor, finger table, successor list),
//! the peer-client capability and pool, and the maintenance procedures
//! (`stabilize`, `notify`, `check_predecessor`, `reconcile_successors`,
//! `fix_fingers`) around the recursive `find_successor` lookup.
//!
//! Transports, the lookup tool and the dashboard are external collaborators:
//! they speak to the node only through the peer-client capability and the
//! node-service surface defined here.

pub mod addr;
pub mod client;
pub mod error;
pub mod service;
pub mod hash;
pub mod lookup;
pub mod monitor;
pub mod finger;
pub mod ring;
pub mod store;
pub mod wire;

use vstd::prelude::*;

pub use client::Client;
pub use service::NodeService;

use crate::addr::{addr_encoding, Addr};
use crate::hash::{hash_bytes, seahash_of};
use crate::ring::{in_ring, in_ring_exclusive};

verus! {

/// A position on the 64-bit identifier ring.
#[derive(Clone, Copy, PartialEq, Eq, Structural, Debug, Hash)]
pub struct NodeId(pub u64);

/// A reference to a node in the chord ring: its ring id and the endpoint a
/// transport can reach it at. Two references denote the same peer exactly
/// when their ids are equal.
#[derive(Clone, Copy, Debug)]
pub struct Node {
    pub id: NodeId,
    pub addr: Addr,
}

impl PartialEq for Node {
    fn eq(&self, other: &Node) -> (r: bool) {
        self.id.0 == other.id.0
    }
}

impl vstd::std_specs::cmp::PartialEqSpecImpl for Node {
    open spec fn obeys_eq_spec() -> bool {
        true
    }

    open spec fn eq_spec(&self, other: &Node) -> bool {
        self.id.0 == other.id.0
    }
}

impl Node {
    /// A node reference whose id is derived from the address: the SeaHash
    /// digest of the address's canonical byte encoding.
    pub fn new(addr: Addr) -> (n: Node)
        ensures
            n.id.0 == seahash_of(addr_encoding(addr)),
            n.addr == addr,
    {
        let bytes = crate::addr::encode_addr(&addr);
        Node { id: NodeId(hash_bytes(bytes.as_slice())), addr }
    }

    /// A node reference with an explicitly chosen id.
    pub fn with_id(id: NodeId, addr: Addr) -> (n: Node)
        ensures
            n == (Node { id, addr }),
    {
        Node { id, addr }
    }

    /// The node's ring id.
    pub fn id(&self) -> (r: NodeId)
        ensures
            r == self.id,
    {
        self.id
    }

    /// The node's endpoint.
    pub fn addr(&self) -> (r: Addr)
        ensures
            r == self.addr,
    {
        self.addr
    }

    /// A fresh transport client for this node's endpoint.
    pub fn client<C: crate::client::Client>(&self) -> C {
        C::init(self.addr)
    }

    /// Whether `id` lies on the ring clockwise strictly after `node1` and at
    /// or before `node2`.
    pub fn is_between_on_ring(id: u64, node1: u64, node2: u64) -> (r: bool)
        ensures
            r == in_ring(id, node1, node2),
    {
        if node1 < node2 {
            node1 < id && id <= node2
        } else {
            node1 < id || id <= node2
        }
    }

    /// Whether `id` lies on the ring clockwise strictly after `node1` and
    /// strictly before `node2`.
    pub fn is_between_on_ring_exclusive(id: u64, node1: u64, node2: u64) -> (r: bool)
        ensures
            r == in_ring_exclusive(id, node1, node2),
    {
        if node1 < node2 {
            node1 < id && id < node2
        } else {
            node1 < id || id < node2
        }
    }
}

} // verus!
