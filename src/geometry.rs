//! The values that the simulation reports: which colliders are involved, and
//! how their relationship changed.
use vstd::prelude::*;

verus! {

/// The identifier of a collider.
#[derive(Clone, Copy, Debug, PartialEq, Eq, Structural, Hash)]
pub struct ColliderHandle(pub u32);

/// The intersection state between two colliders changed.
#[derive(Clone, Copy, Debug, PartialEq, Eq, Structural, Hash)]
pub struct IntersectionEvent {
    /// The first collider involved.
    pub collider1: ColliderHandle,
    /// The second collider involved.
    pub collider2: ColliderHandle,
    /// Whether the two colliders now overlap.
    pub intersecting: bool,
}

impl IntersectionEvent {
    /// An event saying that `collider1` and `collider2` now do or do not overlap.
    pub fn new(collider1: ColliderHandle, collider2: ColliderHandle, intersecting: bool) -> (r: Self)
        ensures
            r.collider1 == collider1,
            r.collider2 == collider2,
            r.intersecting == intersecting,
    {
        IntersectionEvent { collider1, collider2, intersecting }
    }
}

/// Two colliders started or stopped touching.
#[derive(Clone, Copy, Debug, PartialEq, Eq, Structural, Hash)]
pub enum ContactEvent {
    /// The two colliders started touching.
    Started(ColliderHandle, ColliderHandle),
    /// The two colliders stopped touching.
    Stopped(ColliderHandle, ColliderHandle),
}

/// The detail of a contact between two colliders, lent to a sink for the
/// length of one call.
#[derive(Clone, Copy, Debug, PartialEq, Eq, Structural, Hash)]
pub struct ContactPair {
    /// The first collider involved.
    pub collider1: ColliderHandle,
    /// The second collider involved.
    pub collider2: ColliderHandle,
    /// Whether at least one contact point between them is active.
    pub has_any_active_contact: bool,
}

} // verus!
