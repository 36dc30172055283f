//! The finger table: 64 exponentially spaced shortcut pointers on the ring,
//! one per bit of the id space. Finger `i` (1-based) starts at
//! `(id + 2^(i-1)) mod 2^64` and holds the peer currently believed to be the
//! successor of that start; its start never changes for the node's lifetime.

use vstd::prelude::*;

use crate::Node;

verus! {

/// One finger table entry: the fixed start of the interval it covers and the
/// peer currently believed responsible for it.
#[derive(Clone, Copy, Debug)]
pub struct Finger {
    pub _start: u64,
    pub node: Node,
}

/// The start of finger `index` (1-based) for a node at `id`:
/// `(id + 2^(index-1)) mod 2^64`.
pub open spec fn finger_start(id: u64, index: int) -> u64
    recommends
        1 <= index <= 64,
{
    vstd::wrapping::u64_specs::wrapping_add(id, 1u64 << ((index - 1) as u64))
}

impl Finger {
    /// The number of entries in a finger table: one per bit of the id space.
    pub const FINGER_TABLE_SIZE: usize = 64;

    /// The start of finger `index` (1-based) for a node at `node_id`.
    pub fn finger_id(node_id: u64, index: u8) -> (r: u64)
        requires
            1 <= index <= 64,
        ensures
            r == finger_start(node_id, index as int),
    {
        node_id.wrapping_add(1u64 << ((index - 1) as u64))
    }

    /// A fresh finger table for a node: every entry starts at its fixed ring
    /// position and points at the node itself.
    pub fn init_finger_table(node: Node) -> (table: Vec<Finger>)
        ensures
            table@.len() == 64,
            forall|i: int|
                0 <= i < 64 ==> #[trigger] table@[i] == (Finger {
                    _start: finger_start(node.id.0, i + 1),
                    node,
                }),
    {
        let mut table: Vec<Finger> = Vec::new();
        let mut i: u8 = 1;
        while i <= 64
            invariant
                1 <= i <= 65,
                table@.len() == i - 1,
                forall|j: int|
                    0 <= j < i - 1 ==> #[trigger] table@[j] == (Finger {
                        _start: finger_start(node.id.0, j + 1),
                        node,
                    }),
            decreases 65 - i,
        {
            table.push(Finger { _start: Finger::finger_id(node.id.0, i), node });
            i = i + 1;
        }
        table
    }
}

} // verus!
