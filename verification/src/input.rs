//! The input-driven velocity controller: translates a "jump key newly
//! pressed this tick" edge into a one-shot velocity override, gated by the
//! grounded flag. Stateless between ticks; it never writes the flag itself.

use vstd::prelude::*;

use crate::model::{Player, Vector3};

verus! {

/// The fixed velocity given to the player's body on a jump: one world unit
/// straight up.
pub open spec fn jump_velocity() -> Vector3 {
    Vector3 { x: 0i64, y: 1i64, z: 0i64 }
}

/// When the player is grounded and the jump key was newly pressed this tick,
/// the whole velocity vector is replaced by [`jump_velocity`] — any prior
/// horizontal or other-axis motion is deliberately reset with it, since the
/// controller supports vertical motion only. Otherwise the velocity is left
/// untouched.
pub fn player_input_system(player: &Player, jump_pressed: bool, velocity: &mut Vector3)
    ensures
        player.is_grounded && jump_pressed ==> *final(velocity) == jump_velocity(),
        !(player.is_grounded && jump_pressed) ==> *final(velocity) == *old(velocity),
{
    if player.is_grounded && jump_pressed {
        *velocity = Vector3 { x: 0, y: 1, z: 0 };
    }
}

} // verus!
