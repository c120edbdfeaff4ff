//! The camera tracker: keeps the single camera centered over the player on
//! the horizontal and vertical axes. A hard snap, not interpolated, run
//! after the physics integrator so it reflects the post-integration
//! position. The camera has no physics participation of its own.

use vstd::prelude::*;

use crate::model::Vector3;

verus! {

/// The camera transform after one tracking step: `x` and `y` copied from
/// the player's position, the projection depth `z` untouched.
pub open spec fn tracked_camera(player_pos: Vector3, camera: Vector3) -> Vector3 {
    Vector3 { x: player_pos.x, y: player_pos.y, z: camera.z }
}

/// Snap the camera transform to the player's world position.
pub fn player_move_camera(player_pos: &Vector3, camera: &mut Vector3)
    ensures
        *final(camera) == tracked_camera(*player_pos, *old(camera)),
{
    camera.x = player_pos.x;
    camera.y = player_pos.y;
}

/// The camera's position is a pure function of the player's: tracking twice
/// with no intervening position change lands where tracking once does.
pub proof fn lemma_tracking_idempotent(player_pos: Vector3, camera: Vector3)
    ensures
        tracked_camera(player_pos, tracked_camera(player_pos, camera)) == tracked_camera(
            player_pos,
            camera,
        ),
{
}

} // verus!
