//! Ordering predicates on the identifier ring.
//!
//! All comparisons of peer ids route through these two predicates: ids live
//! on a circle, so "between" is directional (clockwise from `a` to `b`) and
//! well defined even when the interval wraps past the top of the id space.

use vstd::prelude::*;

verus! {

/// `id` lies clockwise strictly after `a` and at or before `b`.
///
/// When `a == b` the interval covers the whole ring except `a` itself.
pub open spec fn in_ring(id: u64, a: u64, b: u64) -> bool {
    if a < b {
        a < id && id <= b
    } else {
        a < id || id <= b
    }
}

/// `id` lies clockwise strictly after `a` and strictly before `b`.
///
/// When `a == b` the interval covers the whole ring except `a` itself.
pub open spec fn in_ring_exclusive(id: u64, a: u64, b: u64) -> bool {
    if a < b {
        a < id && id < b
    } else {
        a < id || id < b
    }
}

/// The inclusive predicate holds exactly when `id` differs from `a` and,
/// walking clockwise from `a`, `id` is reached at or before `b`.
///
/// The one corner left out is `id == a == b`: a degenerate interval contains
/// its endpoint (a single-node ring is responsible for its own id), so there
/// `in_ring` holds even though `id == a`.
pub proof fn lemma_in_ring_characterisation(id: u64, a: u64, b: u64)
    requires
        !(a == b && id == a),
    ensures
        in_ring(id, a, b) <==> (id != a && if a < b {
            a <= id <= b
        } else {
            id > a || id <= b
        }),
{
}

/// The exclusive predicate agrees with the inclusive one everywhere except
/// at `id == b`, which only the inclusive one admits.
pub proof fn lemma_exclusive_agrees_with_inclusive(id: u64, a: u64, b: u64)
    ensures
        in_ring_exclusive(id, a, b) <==> (in_ring(id, a, b) && id != b),
{
}

/// With both endpoints equal, every id other than the endpoint is inside the
/// inclusive interval (and the endpoint itself is too); the exclusive
/// interval admits everything except the endpoint.
pub proof fn lemma_full_interval(id: u64, a: u64)
    ensures
        id != a ==> in_ring(id, a, a),
        in_ring_exclusive(id, a, a) <==> id != a,
{
}

/// Nothing lies strictly between an id and itself, and neither endpoint is
/// ever inside an exclusive interval.
pub proof fn lemma_exclusive_irreflexive(id: u64, a: u64, b: u64)
    ensures
        !in_ring_exclusive(a, a, b),
        a != b ==> !in_ring_exclusive(b, a, b),
        !in_ring_exclusive(id, a, id),
{
}

/// Exclusive intervals anchored at the same left endpoint nest: shrinking the
/// right endpoint to a member of the interval keeps members inside the
/// original interval.
pub proof fn lemma_exclusive_nesting(x: u64, y: u64, s: u64, z: u64)
    requires
        in_ring_exclusive(x, s, y),
        in_ring_exclusive(y, s, z),
    ensures
        in_ring_exclusive(x, s, z),
{
}

/// Exclusive intervals anchored at the same right endpoint nest the other
/// way: raising the left endpoint to a member of the interval keeps members
/// inside the original interval.
pub proof fn lemma_exclusive_nesting_right(x: u64, y: u64, a: u64, b: u64)
    requires
        in_ring_exclusive(x, y, b),
        in_ring_exclusive(y, a, b),
    ensures
        in_ring_exclusive(x, a, b),
{
}

} // verus!
