//! The homemade fallback physics: axis-aligned bounding boxes in integer
//! pixels, overlap tests, and a gravity step that drops every rigid body not
//! resting on a collider.

use vstd::prelude::*;

verus! {

/// Marker component for an entity pulled down by gravity.
pub struct RigidBody;

/// Marker component for an entity that blocks falling rigid bodies.
pub struct Collider;

/// Marker for the physics subsystem.
pub struct PhysicsPlugin;

/// Bound on the box coordinates the physics step accepts.
pub const PHYSICS_POSITION_LIMIT: i64 = 0x4000_0000;

/// An axis-aligned box: centre and half extents, in pixels.
#[derive(PartialEq, Eq, Structural, Clone, Copy, Debug)]
pub struct Aabb {
    pub center_x: i64,
    pub center_y: i64,
    pub half_x: i64,
    pub half_y: i64,
}

/// Whether a box is within the accepted coordinate bounds.
pub open spec fn aabb_in_bounds(a: Aabb) -> bool {
    &&& -PHYSICS_POSITION_LIMIT <= a.center_x <= PHYSICS_POSITION_LIMIT
    &&& -PHYSICS_POSITION_LIMIT <= a.center_y <= PHYSICS_POSITION_LIMIT
    &&& 0 <= a.half_x <= PHYSICS_POSITION_LIMIT
    &&& 0 <= a.half_y <= PHYSICS_POSITION_LIMIT
}

/// Two boxes overlap when their projections overlap on both axes.
pub open spec fn spec_intersects(a: Aabb, b: Aabb) -> bool {
    &&& a.center_x - a.half_x <= b.center_x + b.half_x
    &&& b.center_x - b.half_x <= a.center_x + a.half_x
    &&& a.center_y - a.half_y <= b.center_y + b.half_y
    &&& b.center_y - b.half_y <= a.center_y + a.half_y
}

/// Tests whether two boxes overlap.
pub fn intersects(a: &Aabb, b: &Aabb) -> (r: bool)
    requires
        aabb_in_bounds(*a),
        aabb_in_bounds(*b),
    ensures
        r == spec_intersects(*a, *b),
{
    a.center_x - a.half_x <= b.center_x + b.half_x && b.center_x - b.half_x <= a.center_x
        + a.half_x && a.center_y - a.half_y <= b.center_y + b.half_y && b.center_y - b.half_y
        <= a.center_y + a.half_y
}

/// Whether a body touches any collider of the set.
pub open spec fn spec_hits_any(body: Aabb, colliders: Seq<Aabb>) -> bool {
    exists|i: int| 0 <= i < colliders.len() && spec_intersects(body, #[trigger] colliders[i])
}

/// Tests whether a body touches any collider of the set.
pub fn hits_any(body: &Aabb, colliders: &Vec<Aabb>) -> (r: bool)
    requires
        aabb_in_bounds(*body),
        forall|i: int| 0 <= i < colliders@.len() ==> aabb_in_bounds(#[trigger] colliders@[i]),
    ensures
        r == spec_hits_any(*body, colliders@),
{
    for i in 0..colliders.len()
        invariant
            forall|j: int| 0 <= j < i ==> !spec_intersects(*body, #[trigger] colliders@[j]),
    {
        if intersects(body, &colliders[i]) {
            return true;
        }
    }
    false
}

/// One gravity step: every rigid body that touches no collider falls by
/// `fall` pixels; bodies resting on (or inside) a collider stay put.
pub fn apply_gravity(bodies: &mut Vec<Aabb>, colliders: &Vec<Aabb>, fall: i64)
    requires
        0 <= fall <= 0x10_0000,
        forall|i: int| 0 <= i < old(bodies)@.len() ==> aabb_in_bounds(#[trigger] old(bodies)@[i]),
        forall|i: int| 0 <= i < colliders@.len() ==> aabb_in_bounds(#[trigger] colliders@[i]),
    ensures
        final(bodies)@.len() == old(bodies)@.len(),
        forall|k: int|
            0 <= k < old(bodies)@.len() ==> {
                let b0 = old(bodies)@[k];
                let b1 = #[trigger] final(bodies)@[k];
                if spec_hits_any(b0, colliders@) {
                    b1 == b0
                } else {
                    b1 == Aabb { center_y: (b0.center_y - fall) as i64, ..b0 }
                }
            },
{
    let n = bodies.len();
    for k in 0..n
        invariant
            bodies@.len() == n,
            forall|i: int| k <= i < n ==> bodies@[i] == old(bodies)@[i],
            forall|i: int|
                0 <= i < k ==> {
                    let b0 = old(bodies)@[i];
                    let b1 = #[trigger] bodies@[i];
                    if spec_hits_any(b0, colliders@) {
                        b1 == b0
                    } else {
                        b1 == Aabb { center_y: (b0.center_y - fall) as i64, ..b0 }
                    }
                },
    {
        let body = bodies[k];
        if !hits_any(&body, colliders) {
            let slot = &mut bodies[k];
            slot.center_y = slot.center_y - fall;
        }
    }
}

} // verus!
