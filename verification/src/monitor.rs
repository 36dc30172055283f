//! The freshness a ring monitor tracks per node it has discovered: newly
//! seen, active, or unresponsive. "Newly seen" fades with the clock, which
//! only the system can read, so the contracts state what holds of every
//! reading.

use vstd::prelude::*;

use std::time::{Duration, Instant};

verus! {

#[verifier::external_type_specification]
#[verifier::external_body]
pub struct ExInstant(Instant);

/// Relies on std::time::Instant being `Copy`: its `clone` is the value
/// itself.
pub assume_specification[ <Instant as Clone>::clone ](i: &Instant) -> (r: Instant)
    ensures
        r == *i,
;

/// Relies on std::time::Instant::now: an opaque reading of a monotonic
/// clock.
#[verifier::external_body]
fn instant_now() -> Instant {
    Instant::now()
}

/// Relies on std::time::Instant::duration_since: the time elapsed from
/// `earlier` to `later`, or zero when `earlier` is the later one.
#[verifier::external_body]
fn duration_since(later: &Instant, earlier: &Instant) -> Duration {
    later.duration_since(*earlier)
}

/// Relies on std::time::Duration::as_secs: the duration in whole seconds.
#[verifier::external_body]
fn duration_secs(d: &Duration) -> u64 {
    d.as_secs()
}

/// What the monitor knows of a node: first seen just now, confirmed active,
/// or unresponsive for a counted number of probes.
#[derive(Clone, Debug)]
pub enum NodeStatus {
    New(Instant),
    Active,
    Inactive(u8),
}

impl NodeStatus {
    /// A node first seen at this moment.
    pub fn new() -> (s: NodeStatus)
        ensures
            s is New,
    {
        NodeStatus::New(instant_now())
    }

    /// Whether the node was first seen under five seconds ago. Only a
    /// newly seen node can be new; how the clock answers is its own affair.
    pub fn is_new(&self) -> (r: bool)
        ensures
            r ==> self is New,
    {
        match self {
            NodeStatus::New(instant) => {
                let now = instant_now();
                duration_secs(&duration_since(&now, instant)) < 5
            },
            _ => false,
        }
    }
}

} // verus!
