//! The node service: the algorithms of a chord node.
//!
//! `find_successor` resolves ids, first against the local successor list,
//! then recursively through the finger table with failure-driven fallback;
//! `join`, `notify` and the periodic procedures (`stabilize`,
//! `reconcile_successors`, `check_predecessor`, `fix_fingers`) keep the ring
//! pointers converging as peers come and go.
//!
//! Peers answer through the [`Client`] capability, so a contract here can
//! pin an outcome only as far as it is a function of local state; where a
//! peer's reply decides, a separate public function takes the reply as an
//! argument and is exact in it, and the calling procedure states what holds
//! whatever the peer said.

use vstd::prelude::*;

use crate::addr::Addr;
use crate::client::{Client, ClientError, ClientsPool};
use crate::error::ServiceError;
use crate::finger::{Finger, finger_start};
use crate::ring::{in_ring, in_ring_exclusive};
use crate::store::{closest_preceding, truncated, NodeStore};
use crate::{Node, NodeId};

verus! {

/// The first entry of `list[i..]` whose id closes the ring interval
/// `(self_id, entry]` over `id` — the immediate-successor rule, from `i` on.
pub open spec fn immediate_successor_from(list: Seq<Node>, self_id: u64, id: u64, i: int) -> Option<
    Node,
>
    decreases list.len() - i,
{
    if i < 0 || i >= list.len() {
        None
    } else if in_ring(id, self_id, list[i].id.0) {
        Some(list[i])
    } else {
        immediate_successor_from(list, self_id, id, i + 1)
    }
}

/// The first entry of the successor list responsible for `id`, if any.
pub open spec fn immediate_successor(list: Seq<Node>, self_id: u64, id: u64) -> Option<Node> {
    immediate_successor_from(list, self_id, id, 0)
}

/// The number of fingers lying strictly between `self_id` and `target` on
/// the ring: the fingers that could still be consulted when resolving
/// `target`. The fallback recursion strictly shrinks this count.
pub open spec fn qualifying_fingers(fingers: Seq<Finger>, self_id: u64, target: u64) -> nat
    decreases fingers.len(),
{
    if fingers.len() == 0 {
        0
    } else {
        qualifying_fingers(fingers.drop_last(), self_id, target) + if in_ring_exclusive(
            fingers.last().node.id.0,
            self_id,
            target,
        ) {
            1nat
        } else {
            0nat
        }
    }
}

/// The id the fallback currently searches a preceding finger for: the last
/// failing node if one is recorded, else the lookup target itself.
pub open spec fn search_target(failing_node: Option<NodeId>, id: NodeId) -> u64 {
    match failing_node {
        Some(f) => f.0,
        None => id.0,
    }
}

/// The two stores hold the same state.
pub open spec fn store_eq(a: NodeStore, b: NodeStore) -> bool {
    &&& a.predecessor == b.predecessor
    &&& a.finger_table@ == b.finger_table@
    &&& a.successor_list@ == b.successor_list@
    &&& a.replication == b.replication
}

/// Whether `notify(candidate)` adopts the candidate as predecessor: always
/// when none is known (unless the candidate is the node itself), otherwise
/// exactly when the candidate lies strictly between the current predecessor
/// and the node on the ring.
pub open spec fn notify_accepts(predecessor: Option<Node>, self_id: u64, candidate: Node) -> bool {
    match predecessor {
        None => candidate.id.0 != self_id,
        Some(p) => in_ring_exclusive(candidate.id.0, p.id.0, self_id),
    }
}

/// The store after one `stabilize` decision, given the successor's reply
/// `x` to "who is your predecessor?": when `x` lies strictly after this node
/// and at or before the current successor, `x` becomes the sole successor;
/// otherwise nothing changes.
pub open spec fn stabilize_outcome(
    pre: NodeStore,
    self_id: u64,
    x: Option<Node>,
    post: NodeStore,
) -> bool {
    let old_succ = pre.finger_table@[0].node;
    match x {
        Some(n) => if in_ring(n.id.0, self_id, old_succ.id.0) {
            &&& post.predecessor == pre.predecessor
            &&& post.replication == pre.replication
            &&& post.successor_list@ == seq![n]
            &&& post.finger_table@ == pre.finger_table@.update(
                0,
                Finger { _start: pre.finger_table@[0]._start, node: n },
            )
        } else {
            store_eq(post, pre)
        },
        None => store_eq(post, pre),
    }
}

/// `list` without the entries that carry this node's own id.
pub open spec fn without_self(list: Seq<Node>, self_id: u64) -> Seq<Node>
    decreases list.len(),
{
    if list.len() == 0 {
        Seq::empty()
    } else {
        without_self(list.drop_last(), self_id) + if list.last().id.0 != self_id {
            seq![list.last()]
        } else {
            Seq::empty()
        }
    }
}

/// The store after one `reconcile_successors` decision, given the
/// successor's reply to "what is your successor list?": on success the new
/// list is the current successor followed by the reply (this node's own id
/// filtered out), truncated to the replication factor; on any failure the
/// current successor is assumed down and the list head is dropped. Finger 0
/// follows the head of the stored list.
pub open spec fn reconcile_outcome(
    pre: NodeStore,
    self_id: u64,
    response: Result<Vec<Node>, ClientError>,
    post: NodeStore,
) -> bool {
    let old_succ = pre.finger_table@[0].node;
    let new_list = match response {
        Ok(received) => truncated(seq![old_succ] + without_self(received@, self_id), pre.replication),
        Err(_) => truncated(
            if pre.successor_list@.len() == 0 {
                pre.successor_list@
            } else {
                pre.successor_list@.drop_first()
            },
            pre.replication,
        ),
    };
    &&& post.predecessor == pre.predecessor
    &&& post.replication == pre.replication
    &&& post.successor_list@ == new_list
    &&& if new_list.len() == 0 {
        post.finger_table@ == pre.finger_table@
    } else {
        post.finger_table@ == pre.finger_table@.update(
            0,
            Finger { _start: pre.finger_table@[0]._start, node: new_list[0] },
        )
    }
}

/// The store after one `check_predecessor` decision, given the reply to the
/// ping: the predecessor is forgotten exactly when it was set and the ping
/// failed with a connection failure.
pub open spec fn check_predecessor_outcome(
    pre: NodeStore,
    ping: Result<(), ClientError>,
    post: NodeStore,
) -> bool {
    let dropped = pre.predecessor is Some && (match ping {
        Ok(_) => false,
        Err(e) => e.spec_is_connection_failure(),
    });
    &&& post.predecessor == (if dropped {
        None
    } else {
        pre.predecessor
    })
    &&& post.finger_table@ == pre.finger_table@
    &&& post.successor_list@ == pre.successor_list@
    &&& post.replication == pre.replication
}

/// The store after one `fix_fingers` round, given the per-finger lookup
/// results: `results[i]` is `Some(p)` when the lookup for finger `i`'s
/// start returned peer `p` (the entry takes `p`, keeping its start) and
/// `None` when it failed (the entry is left alone). A start that the
/// successor list already resolves locally is decided with no peer call, so
/// its lookup can only have returned that local answer.
pub open spec fn fix_fingers_outcome(
    pre: NodeStore,
    self_id: u64,
    results: Seq<Option<Node>>,
    post: NodeStore,
) -> bool {
    &&& results.len() == 64
    &&& pre.finger_table@.len() == 64
    &&& post.predecessor == pre.predecessor
    &&& post.successor_list@ == pre.successor_list@
    &&& post.replication == pre.replication
    &&& post.finger_table@.len() == 64
    &&& (forall|i: int|
        0 <= i < 64 ==> #[trigger] post.finger_table@[i] == (match results[i] {
            Some(p) => Finger { _start: pre.finger_table@[i]._start, node: p },
            None => pre.finger_table@[i],
        }))
    &&& (forall|i: int|
        0 <= i < 64 && immediate_successor(
            pre.successor_list@,
            self_id,
            finger_start(self_id, i + 1),
        ) is Some ==> #[trigger] results[i] == immediate_successor(
            pre.successor_list@,
            self_id,
            finger_start(self_id, i + 1),
        ))
}

/// Fewer fingers qualify for `t2` than for `t1` when every finger
/// qualifying for `t2` also qualifies for `t1`.
proof fn lemma_qualifying_monotone(fingers: Seq<Finger>, s: u64, t1: u64, t2: u64)
    requires
        forall|j: int|
            0 <= j < fingers.len() ==> (#[trigger] in_ring_exclusive(fingers[j].node.id.0, s, t2)
                ==> in_ring_exclusive(fingers[j].node.id.0, s, t1)),
    ensures
        qualifying_fingers(fingers, s, t2) <= qualifying_fingers(fingers, s, t1),
    decreases fingers.len(),
{
    if fingers.len() > 0 {
        assert(forall|j: int|
            0 <= j < fingers.drop_last().len() ==> fingers.drop_last()[j] == fingers[j]);
        lemma_qualifying_monotone(fingers.drop_last(), s, t1, t2);
    }
}

/// And strictly fewer when some finger qualifies for `t1` but not `t2`.
proof fn lemma_qualifying_strictly_fewer(fingers: Seq<Finger>, s: u64, t1: u64, t2: u64, k: int)
    requires
        forall|j: int|
            0 <= j < fingers.len() ==> (#[trigger] in_ring_exclusive(fingers[j].node.id.0, s, t2)
                ==> in_ring_exclusive(fingers[j].node.id.0, s, t1)),
        0 <= k < fingers.len(),
        in_ring_exclusive(fingers[k].node.id.0, s, t1),
        !in_ring_exclusive(fingers[k].node.id.0, s, t2),
    ensures
        qualifying_fingers(fingers, s, t2) < qualifying_fingers(fingers, s, t1),
    decreases fingers.len(),
{
    assert(forall|j: int|
        0 <= j < fingers.drop_last().len() ==> fingers.drop_last()[j] == fingers[j]);
    if k == fingers.len() - 1 {
        lemma_qualifying_monotone(fingers.drop_last(), s, t1, t2);
    } else {
        lemma_qualifying_strictly_fewer(fingers.drop_last(), s, t1, t2, k);
    }
}

/// The startup loop's decision after a failed join attempt: give up exactly
/// when the attempt count has reached the configured maximum; otherwise
/// wait and retry.
pub fn join_retries_exhausted(attempt: u32, max_retries: u32) -> (r: bool)
    ensures
        r == (attempt >= max_retries),
{
    attempt >= max_retries
}

/// `notify` never adopts the node itself as its own predecessor: whatever
/// the current predecessor, an accepted candidate carries another id.
pub proof fn lemma_notify_never_self(predecessor: Option<Node>, self_id: u64, candidate: Node)
    ensures
        notify_accepts(predecessor, self_id, candidate) ==> candidate.id.0 != self_id,
{
}

/// Monotonicity of `notify`: with a predecessor `p1` in place, a candidate
/// `p2` (not the node itself) is adopted exactly when it lies between `p1`
/// and the node on the ring — it moved closer; and a later candidate `p3`
/// adopted after `p2` still lies between `p1` and the node, so successive
/// accepted notifies only ever move the predecessor closer.
pub proof fn lemma_notify_monotonic(self_id: u64, p1: Node, p2: Node, p3: Node)
    requires
        p2.id.0 != self_id,
    ensures
        notify_accepts(Some(p1), self_id, p2) <==> in_ring(p2.id.0, p1.id.0, self_id),
        notify_accepts(Some(p1), self_id, p2) && notify_accepts(Some(p2), self_id, p3)
            ==> in_ring_exclusive(p3.id.0, p1.id.0, self_id),
{
    crate::ring::lemma_exclusive_agrees_with_inclusive(p2.id.0, p1.id.0, self_id);
    if notify_accepts(Some(p1), self_id, p2) && notify_accepts(Some(p2), self_id, p3) {
        crate::ring::lemma_exclusive_nesting_right(p3.id.0, p2.id.0, p1.id.0, self_id);
    }
}

/// Idempotence of the local stage of `find_successor`: which peer the
/// successor list resolves an id to is a function of the store alone, and
/// `find_successor` leaves the store unchanged — so on a quiescent ring two
/// successive lookups of the same id answered locally return the same peer.
pub proof fn lemma_local_resolution_deterministic(a: NodeStore, b: NodeStore, self_id: u64, id: u64)
    requires
        store_eq(a, b),
    ensures
        immediate_successor(a.successor_list@, self_id, id) == immediate_successor(
            b.successor_list@,
            self_id,
            id,
        ),
{
}

/// Successor-list recovery: when the current successor fails, one
/// reconcile tick promotes the next surviving entry of the list to
/// successor, and the following tick (answered by that survivor) keeps it
/// there — so after at most two ticks the node's successor is the next
/// surviving node of the ring.
pub proof fn lemma_successor_list_recovery(
    pre: NodeStore,
    mid: NodeStore,
    post: NodeStore,
    self_id: u64,
    failure: ClientError,
    received: Vec<Node>,
)
    requires
        pre.wf(),
        pre.successor_list@.len() >= 2,
        pre.finger_table@[0].node == pre.successor_list@[0],
        reconcile_outcome(pre, self_id, Err(failure), mid),
        reconcile_outcome(mid, self_id, Ok(received), post),
    ensures
        mid.finger_table@[0].node == pre.successor_list@[1],
        mid.successor_list@[0] == pre.successor_list@[1],
        post.finger_table@[0].node == pre.successor_list@[1],
        post.successor_list@[0] == pre.successor_list@[1],
{
    let survivors = pre.successor_list@.drop_first();
    assert(truncated(survivors, pre.replication)[0] == survivors[0]);
    let rebuilt = seq![mid.finger_table@[0].node] + without_self(received@, self_id);
    assert(rebuilt[0] == mid.finger_table@[0].node);
    assert(truncated(rebuilt, mid.replication)[0] == rebuilt[0]);
}

/// A node service: this node's identity plus its store and client pool.
pub struct NodeService<C: Client + Clone> {
    pub id: NodeId,
    pub addr: Addr,
    pub store: NodeStore,
    pub clients: ClientsPool<C>,
}

impl<C: Client + Clone> NodeService<C> {
    /// This node as a peer reference.
    pub open spec fn spec_own_node(&self) -> Node {
        Node { id: self.id, addr: self.addr }
    }

    /// A service for the node at `socket_addr`, its id derived from the
    /// address, alone on a fresh ring.
    pub fn new(socket_addr: Addr, replication_factor: usize) -> (s: NodeService<C>)
        requires
            replication_factor >= 1,
        ensures
            s.id.0 == crate::hash::seahash_of(crate::addr::addr_encoding(socket_addr)),
            s.addr == socket_addr,
            s.store.wf(),
            s.store.predecessor is None,
            s.store.replication == replication_factor,
            s.store.successor_list@ == seq![s.spec_own_node()],
            forall|i: int|
                0 <= i < 64 ==> #[trigger] s.store.finger_table@[i] == (Finger {
                    _start: finger_start(s.id.0, i + 1),
                    node: s.spec_own_node(),
                }),
            s.clients@ == Map::<u64, C>::empty(),
    {
        let node = Node::new(socket_addr);
        Self::with_id(node.id, socket_addr, replication_factor)
    }

    /// A service for a node with an explicitly chosen id.
    pub fn with_id(id: NodeId, addr: Addr, replication_factor: usize) -> (s: NodeService<C>)
        requires
            replication_factor >= 1,
        ensures
            s.id == id,
            s.addr == addr,
            s.store.wf(),
            s.store.predecessor is None,
            s.store.replication == replication_factor,
            s.store.successor_list@ == seq![s.spec_own_node()],
            forall|i: int|
                0 <= i < 64 ==> #[trigger] s.store.finger_table@[i] == (Finger {
                    _start: finger_start(id.0, i + 1),
                    node: s.spec_own_node(),
                }),
            s.clients@ == Map::<u64, C>::empty(),
    {
        let store = NodeStore::new(Node::with_id(id, addr), replication_factor);
        NodeService { id, addr, store, clients: ClientsPool::default() }
    }

    /// This node's ring id.
    pub fn id(&self) -> (r: NodeId)
        ensures
            r == self.id,
    {
        self.id
    }

    /// This node as a peer reference.
    pub fn own_node(&self) -> (n: Node)
        ensures
            n == self.spec_own_node(),
    {
        Node::with_id(self.id, self.addr)
    }

    /// Walk the successor list for the first entry `s` with
    /// `id ∈ (self, s]` on the ring: the common case of `find_successor`,
    /// decided entirely by local state.
    pub fn find_immediate_successor(&self, id: NodeId) -> (r: Option<Node>)
        ensures
            r == immediate_successor(self.store.successor_list@, self.id.0, id.0),
    {
        let list = &self.store.successor_list;
        let mut i: usize = 0;
        while i < list.len()
            invariant
                0 <= i <= list@.len(),
                list == &self.store.successor_list,
                immediate_successor(self.store.successor_list@, self.id.0, id.0)
                    == immediate_successor_from(list@, self.id.0, id.0, i as int),
            decreases list@.len() - i,
        {
            let s = list[i];
            if Node::is_between_on_ring(id.0, self.id.0, s.id.0) {
                return Some(s);
            }
            i = i + 1;
        }
        None
    }

    /// The closest preceding node for `id` out of the finger table, falling
    /// back to this node itself when no finger qualifies.
    pub fn closest_preceding_node(&self, id: NodeId) -> (r: Node)
        ensures
            r == match closest_preceding(self.store.finger_table@, self.id.0, id.0) {
                Some(n) => n,
                None => self.spec_own_node(),
            },
    {
        match self.store.closest_preceding_node(self.id.0, id.0) {
            Some(n) => n,
            None => self.own_node(),
        }
    }

    /// The client for `node`, shared through the pool.
    fn client(&mut self, node: &Node) -> (client: C)
        ensures
            final(self).id == old(self).id,
            final(self).addr == old(self).addr,
            final(self).store == old(self).store,
    {
        self.clients.get_or_init(node)
    }

    /// Resolve `id`: if an entry of the successor list is responsible, that
    /// entry; otherwise whatever the finger-table fallback reaches. Local
    /// state other than the client pool is untouched, so the outcome of the
    /// local stage is a function of the store alone.
    pub fn find_successor(&mut self, id: NodeId) -> (r: Result<Node, ServiceError>)
        ensures
            final(self).id == old(self).id,
            final(self).addr == old(self).addr,
            final(self).store == old(self).store,
            match immediate_successor(old(self).store.successor_list@, old(self).id.0, id.0) {
                Some(n) => r == Ok::<Node, ServiceError>(n),
                None => closest_preceding(old(self).store.finger_table@, old(self).id.0, id.0)
                    is None ==> r matches Err(ServiceError::Unexpected(_)),
            },
    {
        match self.find_immediate_successor(id) {
            Some(successor) => Ok(successor),
            None => self.find_successor_using_finger_table(id, None),
        }
    }

    /// The finger-table fallback: ask the closest preceding finger to
    /// resolve `id`; when that peer is unreachable, step the search back
    /// past it (`failing_node`) and try the next preceding finger. Each step
    /// strictly shrinks the set of fingers that could still help, so the
    /// recursion bottoms out; when no finger precedes the search target the
    /// lookup fails with `Unexpected`.
    pub fn find_successor_using_finger_table(&mut self, id: NodeId, failing_node: Option<NodeId>) -> (r:
        Result<Node, ServiceError>)
        ensures
            final(self).id == old(self).id,
            final(self).addr == old(self).addr,
            final(self).store == old(self).store,
            closest_preceding(
                old(self).store.finger_table@,
                old(self).id.0,
                search_target(failing_node, id),
            ) is None ==> r matches Err(ServiceError::Unexpected(_)),
        decreases qualifying_fingers(
            self.store.finger_table@,
            self.id.0,
            search_target(failing_node, id),
        ),
    {
        let search_id = match failing_node {
            Some(f) => f,
            None => id,
        };
        let n = self.closest_preceding_node(search_id);
        if n.id.0 == self.id.0 {
            return Err(
                ServiceError::Unexpected("cannot locate successor via finger table".to_string()),
            );
        }
        let client = self.client(&n);
        match client.find_successor(id) {
            Ok(successor) => Ok(successor),
            Err(report) => {
                if report.is_connection_failure() {
                    proof {
                        let fingers = self.store.finger_table@;
                        let s = self.id.0;
                        let k = crate::store::lemma_closest_preceding_from_witness(
                            fingers,
                            s,
                            search_id.0,
                            fingers.len() as int,
                        );
                        assert forall|j: int|
                            0 <= j < fingers.len() && #[trigger] in_ring_exclusive(
                                fingers[j].node.id.0,
                                s,
                                n.id.0,
                            ) implies in_ring_exclusive(fingers[j].node.id.0, s, search_id.0) by {
                            crate::ring::lemma_exclusive_nesting(
                                fingers[j].node.id.0,
                                n.id.0,
                                s,
                                search_id.0,
                            );
                        }
                        crate::ring::lemma_exclusive_irreflexive(n.id.0, s, n.id.0);
                        lemma_qualifying_strictly_fewer(fingers, s, search_id.0, n.id.0, k);
                    }
                    self.find_successor_using_finger_table(id, Some(n.id))
                } else {
                    Err(ServiceError::from(report))
                }
            },
        }
    }

    /// The current predecessor.
    pub fn get_predecessor(&self) -> (r: Result<Option<Node>, ServiceError>)
        ensures
            r == Ok::<Option<Node>, ServiceError>(self.store.predecessor),
    {
        Ok(self.store.predecessor())
    }

    /// The immediate successor.
    pub fn get_successor(&self) -> (r: Result<Node, ServiceError>)
        requires
            self.store.wf(),
        ensures
            r == Ok::<Node, ServiceError>(self.store.finger_table@[0].node),
    {
        Ok(self.store.successor())
    }

    /// The successor list.
    pub fn get_successor_list(&self) -> (r: Result<Vec<Node>, ServiceError>)
        ensures
            r is Ok && r->Ok_0@ == self.store.successor_list@,
    {
        Ok(self.store.successor_list())
    }

    /// A copy of the finger table.
    pub fn finger_table(&self) -> (r: Vec<Finger>)
        ensures
            r@ == self.store.finger_table@,
    {
        self.store.finger_table()
    }

    /// Join the ring `node` belongs to: ask it for the successor of this
    /// node's own id and install the answer as sole successor. On failure
    /// nothing changes and the error is surfaced for the caller to retry.
    pub fn join(&mut self, node: Node) -> (r: Result<(), ServiceError>)
        requires
            old(self).store.wf(),
        ensures
            final(self).id == old(self).id,
            final(self).addr == old(self).addr,
            final(self).store.wf(),
            final(self).store.predecessor == old(self).store.predecessor,
            final(self).store.replication == old(self).store.replication,
            r is Ok ==> exists|succ: Node|
                final(self).store.successor_list@ == seq![succ] && final(self).store.finger_table@
                    == old(self).store.finger_table@.update(
                    0,
                    Finger { _start: old(self).store.finger_table@[0]._start, node: succ },
                ),
            r is Err ==> store_eq(final(self).store, old(self).store),
    {
        let client = self.client(&node);
        match client.find_successor(self.id) {
            Ok(successor) => {
                self.store.set_successor(successor);
                Ok(())
            },
            Err(e) => Err(ServiceError::from(e)),
        }
    }

    /// A peer believes it is our predecessor: adopt it exactly when no
    /// predecessor is known (and the candidate is not this node itself), or
    /// when it lies strictly between the current predecessor and this node
    /// on the ring. A purely local decision.
    pub fn notify(&mut self, node: Node)
        ensures
            final(self).id == old(self).id,
            final(self).addr == old(self).addr,
            final(self).clients == old(self).clients,
            final(self).store == (NodeStore {
                predecessor: if notify_accepts(old(self).store.predecessor, old(self).id.0, node) {
                    Some(node)
                } else {
                    old(self).store.predecessor
                },
                ..old(self).store
            }),
    {
        let accept = match self.store.predecessor() {
            None => node.id.0 != self.id.0,
            Some(p) => Node::is_between_on_ring_exclusive(node.id.0, p.id.0, self.id.0),
        };
        if accept {
            self.store.set_predecessor(node);
        }
    }

    /// Apply the local half of `stabilize`, given the successor's reply to
    /// "who is your predecessor?". Exact in the reply.
    pub fn stabilize_update(&mut self, predecessor_of_successor: Option<Node>)
        requires
            old(self).store.wf(),
        ensures
            final(self).id == old(self).id,
            final(self).addr == old(self).addr,
            final(self).clients == old(self).clients,
            final(self).store.wf(),
            stabilize_outcome(
                old(self).store,
                old(self).id.0,
                predecessor_of_successor,
                final(self).store,
            ),
    {
        if let Some(x) = predecessor_of_successor {
            let successor = self.store.successor();
            if Node::is_between_on_ring(x.id.0, self.id.0, successor.id.0) {
                self.store.set_successor(x);
            }
        }
    }

    /// One round of stabilisation: ask the current successor for its
    /// predecessor, adopt it as successor when it sits between this node and
    /// the successor, then notify the (possibly new) successor of this node.
    /// A failed predecessor query changes nothing; a failed notify is
    /// surfaced (the next tick retries).
    pub fn stabilize(&mut self) -> (r: Result<(), ServiceError>)
        requires
            old(self).store.wf(),
        ensures
            final(self).id == old(self).id,
            final(self).addr == old(self).addr,
            final(self).store.wf(),
            final(self).store.predecessor == old(self).store.predecessor,
            final(self).store.replication == old(self).store.replication,
            exists|x: Option<Node>|
                stabilize_outcome(old(self).store, old(self).id.0, x, final(self).store),
    {
        let successor = self.store.successor();
        let client = self.client(&successor);
        let result = client.predecessor();

        match result {
            Ok(x) => {
                self.stabilize_update(x);
            },
            Err(_) => {
                proof {
                    assert(stabilize_outcome(
                        old(self).store,
                        old(self).id.0,
                        None::<Node>,
                        self.store,
                    ));
                }
            },
        }

        let successor = self.store.successor();
        let own = self.own_node();
        let client = self.client(&successor);
        match client.notify(own) {
            Ok(_) => Ok(()),
            Err(e) => Err(ServiceError::from(e)),
        }
    }

    /// Apply the local half of `reconcile_successors`, given the successor's
    /// reply to "what is your successor list?". Exact in the reply: on
    /// success the stored list becomes the current successor followed by the
    /// reply (entries carrying this node's own id dropped), truncated to the
    /// replication factor; on failure the head is dropped so the next tick
    /// queries the surviving entry.
    pub fn reconcile_apply(&mut self, response: Result<Vec<Node>, ClientError>)
        requires
            old(self).store.wf(),
        ensures
            final(self).id == old(self).id,
            final(self).addr == old(self).addr,
            final(self).clients == old(self).clients,
            final(self).store.wf(),
            reconcile_outcome(old(self).store, old(self).id.0, response, final(self).store),
    {
        match response {
            Ok(received) => {
                let successor = self.store.successor();
                let mut new_list: Vec<Node> = Vec::new();
                new_list.push(successor);
                let mut i: usize = 0;
                while i < received.len()
                    invariant
                        0 <= i <= received@.len(),
                        *self == *old(self),
                        successor == old(self).store.finger_table@[0].node,
                        new_list@ == seq![successor] + without_self(
                            received@.subrange(0, i as int),
                            old(self).id.0,
                        ),
                    decreases received@.len() - i,
                {
                    let node = received[i];
                    proof {
                        assert(received@.subrange(0, i as int + 1).drop_last() =~= received@
                            .subrange(0, i as int));
                    }
                    if node.id.0 != self.id.0 {
                        new_list.push(node);
                    }
                    proof {
                        assert(new_list@ =~= seq![successor] + without_self(
                            received@.subrange(0, i as int + 1),
                            old(self).id.0,
                        ));
                    }
                    i = i + 1;
                }
                proof {
                    assert(received@.subrange(0, received@.len() as int) =~= received@);
                    assert(new_list@[0] == old(self).store.finger_table@[0].node);
                }
                self.store.set_successor_list(new_list);
                proof {
                    let full = seq![old(self).store.finger_table@[0].node] + without_self(
                        received@,
                        old(self).id.0,
                    );
                    assert(truncated(full, old(self).store.replication)[0] == full[0]);
                }
            },
            Err(_) => {
                let mut list = self.store.successor_list();
                if list.len() > 0 {
                    list.remove(0);
                    proof {
                        assert(list@ =~= old(self).store.successor_list@.drop_first());
                    }
                }
                self.store.set_successor_list(list);
            },
        }
    }

    /// One round of successor-list reconciliation: ask the current successor
    /// for its list and apply the decision above to whatever came back.
    pub fn reconcile_successors(&mut self)
        requires
            old(self).store.wf(),
        ensures
            final(self).id == old(self).id,
            final(self).addr == old(self).addr,
            final(self).store.wf(),
            final(self).store.predecessor == old(self).store.predecessor,
            final(self).store.replication == old(self).store.replication,
            exists|response: Result<Vec<Node>, ClientError>|
                reconcile_outcome(old(self).store, old(self).id.0, response, final(self).store),
    {
        let successor = self.store.successor();
        let client = self.client(&successor);
        let response = client.successor_list();
        self.reconcile_apply(response);
    }

    /// Apply the local half of `check_predecessor`, given the reply to the
    /// ping: forget the predecessor exactly when the ping failed with a
    /// connection failure.
    pub fn check_predecessor_apply(&mut self, ping: Result<(), ClientError>)
        ensures
            final(self).id == old(self).id,
            final(self).addr == old(self).addr,
            final(self).clients == old(self).clients,
            check_predecessor_outcome(old(self).store, ping, final(self).store),
    {
        let drop_it = match &ping {
            Ok(_) => false,
            Err(e) => e.is_connection_failure(),
        };
        if self.store.predecessor().is_some() && drop_it {
            self.store.unset_predecessor();
        }
    }

    /// One round of predecessor checking: ping the predecessor, if one is
    /// known, and forget it when it is unreachable. Other errors leave it
    /// alone; maintenance never fails its caller.
    pub fn check_predecessor(&mut self) -> (r: Result<(), ServiceError>)
        ensures
            final(self).id == old(self).id,
            final(self).addr == old(self).addr,
            r is Ok,
            old(self).store.predecessor is None ==> final(self).store == old(self).store
                && final(self).clients == old(self).clients,
            exists|ping: Result<(), ClientError>|
                check_predecessor_outcome(old(self).store, ping, final(self).store),
    {
        let predecessor = self.store.predecessor();
        match predecessor {
            Some(p) => {
                let client = self.client(&p);
                let ping = client.ping();
                self.check_predecessor_apply(ping);
                Ok(())
            },
            None => {
                proof {
                    assert(check_predecessor_outcome(
                        old(self).store,
                        Ok::<(), ClientError>(()),
                        self.store,
                    ));
                }
                Ok(())
            },
        }
    }

    /// One round of finger repair: for each finger, re-resolve its start id
    /// through `find_successor` and store the answer; a failed lookup leaves
    /// the previous entry in place. Finger starts never change, the
    /// predecessor and successor list are untouched, and every finger whose
    /// start the successor list resolves locally ends up pointing at that
    /// local answer — the rest depend on what peers replied, captured by the
    /// outcome predicate.
    pub fn fix_fingers(&mut self)
        requires
            old(self).store.wf(),
        ensures
            final(self).id == old(self).id,
            final(self).addr == old(self).addr,
            final(self).store.wf(),
            final(self).store.predecessor == old(self).store.predecessor,
            final(self).store.successor_list@ == old(self).store.successor_list@,
            final(self).store.replication == old(self).store.replication,
            forall|i: int|
                0 <= i < 64 ==> #[trigger] final(self).store.finger_table@[i]._start == old(
                    self,
                ).store.finger_table@[i]._start,
            forall|i: int|
                0 <= i < 64 && immediate_successor(
                    old(self).store.successor_list@,
                    old(self).id.0,
                    finger_start(old(self).id.0, i + 1),
                ) is Some ==> Some(#[trigger] final(self).store.finger_table@[i].node)
                    == immediate_successor(
                    old(self).store.successor_list@,
                    old(self).id.0,
                    finger_start(old(self).id.0, i + 1),
                ),
            exists|results: Seq<Option<Node>>|
                fix_fingers_outcome(old(self).store, old(self).id.0, results, final(self).store),
    {
        let ghost mut results: Seq<Option<Node>> = Seq::empty();
        let mut i: usize = 0;
        while i < Finger::FINGER_TABLE_SIZE
            invariant
                0 <= i <= 64,
                results.len() == i,
                self.id == old(self).id,
                self.addr == old(self).addr,
                self.store.wf(),
                self.store.predecessor == old(self).store.predecessor,
                self.store.successor_list@ == old(self).store.successor_list@,
                self.store.replication == old(self).store.replication,
                old(self).store.finger_table@.len() == 64,
                self.store.finger_table@.len() == 64,
                forall|j: int|
                    i <= j < 64 ==> #[trigger] self.store.finger_table@[j] == old(
                        self,
                    ).store.finger_table@[j],
                forall|j: int|
                    0 <= j < i ==> #[trigger] self.store.finger_table@[j] == (match results[j] {
                        Some(p) => Finger {
                            _start: old(self).store.finger_table@[j]._start,
                            node: p,
                        },
                        None => old(self).store.finger_table@[j],
                    }),
                forall|j: int|
                    0 <= j < i && immediate_successor(
                        old(self).store.successor_list@,
                        old(self).id.0,
                        finger_start(old(self).id.0, j + 1),
                    ) is Some ==> #[trigger] results[j] == immediate_successor(
                        old(self).store.successor_list@,
                        old(self).id.0,
                        finger_start(old(self).id.0, j + 1),
                    ),
            decreases 64 - i,
        {
            let finger_id = Finger::finger_id(self.id.0, (i + 1) as u8);
            let result = self.find_successor(NodeId(finger_id));
            match result {
                Ok(successor) => {
                    self.store.update_finger(i, successor);
                    proof {
                        results = results.push(Some(successor));
                    }
                },
                Err(_) => {
                    proof {
                        results = results.push(None::<Node>);
                    }
                },
            }
            i = i + 1;
        }
        proof {
            assert(fix_fingers_outcome(old(self).store, old(self).id.0, results, self.store));
        }
    }
}

} // verus!

