use vstd::prelude::*;
use crate::grid::{round_div, SUBPIXELS};
use crate::player::Player;

verus! {

/// Puts the camera, in pixels, on the actor's drawn position.
pub fn center_camera_on_player(camera: &mut (i64, i64), player: &Player)
    ensures
        final(camera).0 == round_div(player.pos.0.x as int, SUBPIXELS as int),
        final(camera).1 == round_div(player.pos.0.y as int, SUBPIXELS as int),
{
    *camera = player.translation();
}

} // verus!
