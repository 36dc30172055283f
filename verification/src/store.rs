//! The node store: predecessor, finger table and successor list of one node.
//!
//! The store is plain owned state; callers that share it across tasks wrap
//! it in their own lock and keep critical sections to a single operation, so
//! every operation here takes the store by `&mut` and is atomic from the
//! ring's point of view.

use vstd::prelude::*;

use crate::finger::{finger_start, Finger};
use crate::ring::in_ring_exclusive;
use crate::Node;

verus! {

/// The mutable state of one chord node.
pub struct NodeStore {
    pub predecessor: Option<Node>,
    pub finger_table: Vec<Finger>,
    pub successor_list: Vec<Node>,
    pub replication: usize,
}

/// The successor list `list`, truncated to at most `replication` entries.
pub open spec fn truncated(list: Seq<Node>, replication: usize) -> Seq<Node> {
    if list.len() <= replication {
        list
    } else {
        list.subrange(0, replication as int)
    }
}

/// The closest preceding node for `id` among `fingers[0..i]`: walking from
/// the top of the table down, the first finger lying strictly between
/// `node_id` and `id` on the ring.
pub open spec fn closest_preceding_from(fingers: Seq<Finger>, node_id: u64, id: u64, i: int) -> Option<
    Node,
>
    decreases i,
{
    if i <= 0 {
        None
    } else if in_ring_exclusive(fingers[i - 1].node.id.0, node_id, id) {
        Some(fingers[i - 1].node)
    } else {
        closest_preceding_from(fingers, node_id, id, i - 1)
    }
}

/// The closest preceding node for `id` in the whole finger table.
pub open spec fn closest_preceding(fingers: Seq<Finger>, node_id: u64, id: u64) -> Option<Node> {
    closest_preceding_from(fingers, node_id, id, fingers.len() as int)
}

impl NodeStore {
    /// The store's structural invariant: a full finger table and a successor
    /// list no longer than the replication factor.
    pub open spec fn wf(self) -> bool {
        &&& self.finger_table@.len() == 64
        &&& self.replication >= 1
        &&& self.successor_list@.len() <= self.replication
    }

    /// A fresh store for `node`: no predecessor, every finger pointing at
    /// `node` itself, and `node` as the sole successor.
    pub fn new(node: Node, replication: usize) -> (store: NodeStore)
        requires
            replication >= 1,
        ensures
            store.wf(),
            store.predecessor is None,
            store.replication == replication,
            store.successor_list@ == seq![node],
            store.finger_table@.len() == 64,
            forall|i: int|
                0 <= i < 64 ==> #[trigger] store.finger_table@[i] == (Finger {
                    _start: finger_start(node.id.0, i + 1),
                    node,
                }),
    {
        let mut successor_list: Vec<Node> = Vec::new();
        successor_list.push(node);
        NodeStore {
            predecessor: None,
            finger_table: Finger::init_finger_table(node),
            successor_list,
            replication,
        }
    }

    /// Record `predecessor` as the node's predecessor.
    pub fn set_predecessor(&mut self, predecessor: Node)
        ensures
            *final(self) == (NodeStore { predecessor: Some(predecessor), ..*old(self) }),
    {
        self.predecessor = Some(predecessor);
    }

    /// Forget the predecessor (it was observed to fail).
    pub fn unset_predecessor(&mut self)
        ensures
            *final(self) == (NodeStore { predecessor: None, ..*old(self) }),
    {
        self.predecessor = None;
    }

    /// The current predecessor, if one is known.
    pub fn predecessor(&self) -> (r: Option<Node>)
        ensures
            r == self.predecessor,
    {
        self.predecessor
    }

    /// Install `successor` as the immediate successor: finger 0 points at it
    /// and the successor list collapses to just it.
    pub fn set_successor(&mut self, successor: Node)
        requires
            old(self).wf(),
        ensures
            final(self).wf(),
            final(self).predecessor == old(self).predecessor,
            final(self).replication == old(self).replication,
            final(self).successor_list@ == seq![successor],
            final(self).finger_table@ == old(self).finger_table@.update(
                0,
                Finger { _start: old(self).finger_table@[0]._start, node: successor },
            ),
    {
        let start = self.finger_table[0]._start;
        self.finger_table[0] = Finger { _start: start, node: successor };
        self.successor_list.clear();
        self.successor_list.push(successor);
    }

    /// The immediate successor: the peer finger 0 points at.
    pub fn successor(&self) -> (r: Node)
        requires
            self.wf(),
        ensures
            r == self.finger_table@[0].node,
    {
        self.finger_table[0].node
    }

    /// The successor list, head first.
    pub fn successor_list(&self) -> (r: Vec<Node>)
        ensures
            r@ == self.successor_list@,
    {
        copy_nodes(&self.successor_list)
    }

    /// Replace the successor list with `list`, truncated to the replication
    /// factor; a non-empty list also retargets finger 0 at its head, keeping
    /// "the successor" and the list head in step.
    pub fn set_successor_list(&mut self, list: Vec<Node>)
        requires
            old(self).wf(),
        ensures
            final(self).wf(),
            final(self).predecessor == old(self).predecessor,
            final(self).replication == old(self).replication,
            final(self).successor_list@ == truncated(list@, old(self).replication),
            list@.len() == 0 ==> final(self).finger_table@ == old(self).finger_table@,
            list@.len() > 0 ==> final(self).finger_table@ == old(self).finger_table@.update(
                0,
                Finger { _start: old(self).finger_table@[0]._start, node: list@[0] },
            ),
    {
        let mut list = list;
        if list.len() > self.replication {
            list.truncate(self.replication);
        }
        if list.len() > 0 {
            let start = self.finger_table[0]._start;
            self.finger_table[0] = Finger { _start: start, node: list[0] };
        }
        proof {
            assert(list@ == truncated(list@, old(self).replication));
        }
        self.successor_list = list;
    }

    /// Repoint finger `finger_id` at `node`; the finger's start is fixed.
    pub fn update_finger(&mut self, finger_id: usize, node: Node)
        requires
            old(self).wf(),
            finger_id < 64,
        ensures
            final(self).wf(),
            final(self).predecessor == old(self).predecessor,
            final(self).replication == old(self).replication,
            final(self).successor_list@ == old(self).successor_list@,
            final(self).finger_table@ == old(self).finger_table@.update(
                finger_id as int,
                Finger { _start: old(self).finger_table@[finger_id as int]._start, node },
            ),
    {
        let start = self.finger_table[finger_id]._start;
        self.finger_table[finger_id] = Finger { _start: start, node };
    }

    /// A copy of the finger table.
    pub fn finger_table(&self) -> (r: Vec<Finger>)
        ensures
            r@ == self.finger_table@,
    {
        let mut r: Vec<Finger> = Vec::new();
        let mut i: usize = 0;
        while i < self.finger_table.len()
            invariant
                i <= self.finger_table@.len(),
                r@ == self.finger_table@.subrange(0, i as int),
            decreases self.finger_table@.len() - i,
        {
            r.push(self.finger_table[i]);
            i = i + 1;
        }
        proof {
            assert(r@ =~= self.finger_table@);
        }
        r
    }

    /// Walk the finger table from the top down and return the first peer
    /// lying strictly between `node_id` and `id` on the ring — the closest
    /// preceding node for `id` — or `None` when no finger qualifies.
    pub fn closest_preceding_node(&self, node_id: u64, id: u64) -> (r: Option<Node>)
        ensures
            r == closest_preceding(self.finger_table@, node_id, id),
    {
        let mut i: usize = self.finger_table.len();
        while i > 0
            invariant
                i <= self.finger_table@.len(),
                closest_preceding(self.finger_table@, node_id, id) == closest_preceding_from(
                    self.finger_table@,
                    node_id,
                    id,
                    i as int,
                ),
            decreases i,
        {
            let finger = self.finger_table[i - 1];
            if Node::is_between_on_ring_exclusive(finger.node.id.0, node_id, id) {
                return Some(finger.node);
            }
            i = i - 1;
        }
        None
    }
}

/// When the walk over `fingers[0..i]` finds a node, some index below `i`
/// holds it, it qualifies, and no higher index below `i` qualifies.
pub(crate) proof fn lemma_closest_preceding_from_witness(
    fingers: Seq<Finger>,
    node_id: u64,
    id: u64,
    i: int,
) -> (k: int)
    requires
        0 <= i <= fingers.len(),
        closest_preceding_from(fingers, node_id, id, i) is Some,
    ensures
        0 <= k < i,
        fingers[k].node == closest_preceding_from(fingers, node_id, id, i)->0,
        in_ring_exclusive(fingers[k].node.id.0, node_id, id),
        forall|j: int|
            k < j < i ==> !in_ring_exclusive(#[trigger] fingers[j].node.id.0, node_id, id),
    decreases i,
{
    if in_ring_exclusive(fingers[i - 1].node.id.0, node_id, id) {
        i - 1
    } else {
        lemma_closest_preceding_from_witness(fingers, node_id, id, i - 1)
    }
}

/// When the walk over `fingers[0..i]` finds nothing, no index below `i`
/// qualifies.
pub(crate) proof fn lemma_closest_preceding_from_none(
    fingers: Seq<Finger>,
    node_id: u64,
    id: u64,
    i: int,
)
    requires
        0 <= i <= fingers.len(),
        closest_preceding_from(fingers, node_id, id, i) is None,
    ensures
        forall|j: int|
            0 <= j < i ==> !in_ring_exclusive(#[trigger] fingers[j].node.id.0, node_id, id),
    decreases i,
{
    if i > 0 {
        lemma_closest_preceding_from_none(fingers, node_id, id, i - 1);
    }
}

/// Correctness of the closest-preceding walk: the result, when there is
/// one, is a finger lying strictly between `node_id` and `id` on the ring,
/// and it is the qualifying finger with the highest index; when there is
/// none, no finger qualifies.
pub proof fn lemma_closest_preceding_correct(fingers: Seq<Finger>, node_id: u64, id: u64)
    ensures
        match closest_preceding(fingers, node_id, id) {
            Some(p) => in_ring_exclusive(p.id.0, node_id, id) && exists|k: int|
                0 <= k < fingers.len() && #[trigger] fingers[k].node == p && forall|j: int|
                    k < j < fingers.len() ==> !in_ring_exclusive(
                        #[trigger] fingers[j].node.id.0,
                        node_id,
                        id,
                    ),
            None => forall|j: int|
                0 <= j < fingers.len() ==> !in_ring_exclusive(
                    #[trigger] fingers[j].node.id.0,
                    node_id,
                    id,
                ),
        },
{
    match closest_preceding(fingers, node_id, id) {
        Some(p) => {
            let k = lemma_closest_preceding_from_witness(
                fingers,
                node_id,
                id,
                fingers.len() as int,
            );
            assert(fingers[k].node == p);
        },
        None => {
            lemma_closest_preceding_from_none(fingers, node_id, id, fingers.len() as int);
        },
    }
}

/// A copy of a vector of node references.
pub(crate) fn copy_nodes(v: &Vec<Node>) -> (r: Vec<Node>)
    ensures
        r@ == v@,
{
    let mut r: Vec<Node> = Vec::new();
    let mut i: usize = 0;
    while i < v.len()
        invariant
            i <= v@.len(),
            r@ == v@.subrange(0, i as int),
        decreases v@.len() - i,
    {
        r.push(v[i]);
        i = i + 1;
    }
    proof {
        assert(r@ =~= v@);
    }
    r
}

} // verus!
