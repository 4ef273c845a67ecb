//! Grounded-hop movement shared by Hopper and Giant actors.
//!
//! A downward probe against ground-tagged geometry drives a two-state
//! machine ({Airborne, Grounded}); while grounded the actor's stored power
//! vector is applied as its movement force, and a stalled airborne actor
//! (no contacts, near-zero velocity) is nudged toward its facing so it can
//! never deadlock on terrain discontinuities.

use crate::combat::Enemy;
use crate::facing::sign_of;
use crate::units::Vec2i;
use vstd::prelude::*;

verus! {

/// Velocity magnitude (fixed-point) below which an actor counts as
/// stalled.
pub const STALL_SPEED: i64 = 100;

/// Per-actor hop state: the grounding flag computed from physics probe
/// results and the impulse/power vector applied while grounded.
#[derive(PartialEq, Eq, Structural, Clone, Copy, Debug)]
pub struct Hop {
    pub grounded: bool,
    pub power: Vec2i,
}

/// One result of the downward probe: whether the contact normal points
/// near-vertically upward, and whether the hit entity is ground-tagged.
#[derive(PartialEq, Eq, Structural, Clone, Copy, Debug)]
pub struct ProbeHit {
    pub upward_normal: bool,
    pub ground_layer: bool,
}

/// Whether any probe result shows upward-normal contact with ground.
pub open spec fn any_ground_support(hits: Seq<ProbeHit>) -> bool {
    exists|i: int|
        0 <= i < hits.len() && (#[trigger] hits[i]).upward_normal && hits[i].ground_layer
}

/// Recomputes the grounding flag from this tick's probe results: grounded
/// exactly when some hit has an upward normal against ground-tagged
/// geometry; an empty probe result means airborne, never an error.
pub fn update_grounding(hop: &mut Hop, hits: &Vec<ProbeHit>)
    ensures
        final(hop).grounded == any_ground_support(hits@),
        final(hop).power == old(hop).power,
{
    let mut grounded = false;
    let mut i: usize = 0;
    while i < hits.len()
        invariant
            0 <= i <= hits@.len(),
            grounded == any_ground_support(hits@.take(i as int)),
        decreases hits@.len() - i,
    {
        if hits[i].upward_normal && hits[i].ground_layer {
            grounded = true;
        }
        proof {
            assert(hits@.take(i + 1).drop_last() =~= hits@.take(i as int));
            assert(hits@.take(i + 1)[i as int] == hits@[i as int]);
            if grounded {
                if hits@[i as int].upward_normal && hits@[i as int].ground_layer {
                    assert(any_ground_support(hits@.take(i + 1)));
                } else {
                    let w = choose|j: int|
                        0 <= j < hits@.take(i as int).len() && (#[trigger] hits@.take(
                            i as int,
                        )[j]).upward_normal && hits@.take(i as int)[j].ground_layer;
                    assert(hits@.take(i + 1)[w].upward_normal && hits@.take(i + 1)[w].ground_layer);
                }
            } else {
                assert(forall|j: int|
                    0 <= j < i + 1 ==> !((#[trigger] hits@.take(i + 1)[j]).upward_normal
                        && hits@.take(i + 1)[j].ground_layer));
            }
        }
        i = i + 1;
    }
    proof {
        assert(hits@.take(hits@.len() as int) =~= hits@);
    }
    hop.grounded = grounded;
}

/// Whether a velocity counts as stalled (both components inside the
/// stall band).
pub open spec fn is_stalled(velocity: Vec2i) -> bool {
    -100 < velocity.x < 100 && -100 < velocity.y < 100
}

/// The movement force for one tick of a hopping actor: while grounded the
/// stored power vector is applied; an airborne actor touching nothing and
/// moving at near-zero velocity is nudged horizontally toward its facing;
/// otherwise no force is issued.
pub fn hop_force(enemy: &Enemy, hop: &Hop, velocity: Vec2i, in_contact: bool) -> (f: Option<Vec2i>)
    ensures
        hop.grounded ==> f == Some(hop.power),
        !hop.grounded && !in_contact && is_stalled(velocity) ==> (f matches Some(v) && v.x == 2000
            * sign_of(enemy.facing) && v.y == 0),
        !hop.grounded && (in_contact || !is_stalled(velocity)) ==> f is None,
{
    if hop.grounded {
        Some(hop.power)
    } else if !in_contact && velocity.x > -100 && velocity.x < 100 && velocity.y > -100
        && velocity.y < 100 {
        Some(Vec2i { x: 2000 * enemy.facing.sign(), y: 0 })
    } else {
        None
    }
}

} // verus!
