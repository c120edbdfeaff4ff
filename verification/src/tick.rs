//! The fixed per-tick pipeline, pre-physics half: the grounded-state
//! resolver runs first, then the velocity controller reads the flag the
//! resolver just produced. The host then integrates physics and finishes
//! the tick with the camera tracker ([`crate::camera::player_move_camera`]).

use vstd::prelude::*;

use crate::grounded::{grounded_after, player_grounded_system};
use crate::input::{jump_velocity, player_input_system};
use crate::model::{BodyId, CollisionEvent, Player, Vector3};

verus! {

/// Run the resolver, then the controller, in the pipeline's fixed order.
/// The jump gate tests the grounded flag as resolved from this very tick's
/// events, not last tick's value.
pub fn pre_physics_step(
    player: &mut Player,
    velocity: &mut Vector3,
    player_body: BodyId,
    floors: &Vec<BodyId>,
    events: &Vec<CollisionEvent>,
    jump_pressed: bool,
)
    ensures
        final(player).is_grounded == grounded_after(
            old(player).is_grounded,
            player_body,
            floors@,
            events@,
        ),
        final(player).is_grounded && jump_pressed ==> *final(velocity) == jump_velocity(),
        !(final(player).is_grounded && jump_pressed) ==> *final(velocity) == *old(velocity),
{
    player_grounded_system(player, player_body, floors, events);
    player_input_system(player, jump_pressed, velocity);
}

} // verus!
