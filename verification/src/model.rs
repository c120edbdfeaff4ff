//! The data model: plain-value descriptions of the simulated world as the
//! controller logic reads it. The host engine owns the real bodies and
//! transforms; it converts to and from these values at the tick boundary.

use vstd::prelude::*;

verus! {

/// Identifier of a simulated body, as assigned by the host simulation.
pub type BodyId = u64;

/// Direction tag of a contact event: a contact either newly began or newly
/// ended this tick.
#[derive(Clone, Copy, Debug, PartialEq, Eq, Structural)]
pub enum ContactPhase {
    Started,
    Ended,
}

/// A transient, per-tick contact event between two bodies, as delivered by
/// the physics collaborator. The pairing is unordered: either field may name
/// either participant. Events are consumed within the tick they are produced.
#[derive(Clone, Copy, Debug, PartialEq, Eq, Structural)]
pub struct CollisionEvent {
    pub phase: ContactPhase,
    pub body_a: BodyId,
    pub body_b: BodyId,
}

/// A three-component vector in the host's world units, held in integer
/// form: `x` horizontal, `y` vertical with up positive, `z` depth. The host
/// converts its own scalar type to and from these units.
#[derive(Clone, Copy, Debug, PartialEq, Eq, Structural)]
pub struct Vector3 {
    pub x: i64,
    pub y: i64,
    pub z: i64,
}

/// The player role, attached to exactly one body in a well-configured world:
/// carries the grounded flag that the event resolver maintains.
#[derive(Clone, Copy, Debug, PartialEq, Eq, Structural)]
pub struct Player {
    pub is_grounded: bool,
}

impl Player {
    /// A freshly spawned player starts airborne: the flag first becomes true
    /// when a contact event pairs its body with a floor.
    pub fn new() -> (p: Player)
        ensures
            !p.is_grounded,
    {
        Player { is_grounded: false }
    }
}

/// Marker role for static bodies that count as ground for grounding
/// purposes. Any number of bodies may carry it.
#[derive(Clone, Copy, Debug, PartialEq, Eq, Structural)]
pub struct Floor {}

} // verus!
