use vstd::prelude::*;
use crate::camera::center_camera_on_player;
use crate::cursor::{edit_result, edit_spec, tile_interact, update_cursor, Cursor, MouseInput, TileEdit};
use crate::gravity::{frame_spec, tick};
use crate::grid::{grid_of_world, round_div, snap_of, WorldPos, SUBPIXELS};
use crate::player::{sprite_for, MoveInput, Player, MAX_VELOCITY};
use crate::tile_map::TileMap;

verus! {

/// Everything one frame reads from the outside.
#[derive(Clone, Copy, Debug, PartialEq, Eq, Default, Structural)]
pub struct FrameInput {
    pub keys: MoveInput,
    pub buttons: MouseInput,
    /// The pointer in world coordinates; `None` when it is outside the window.
    pub pointer: Option<WorldPos>,
}

/// The whole simulated world: the tile map, the actor, the cursor and the camera.
pub struct World {
    pub map: TileMap,
    pub player: Player,
    pub cursor: Cursor,
    /// Camera position, in pixels.
    pub camera: (i64, i64),
}

impl Player {
    /// Whether one more frame can run without leaving the integer range.
    pub fn in_range(&self) -> (r: bool)
        ensures
            r == self.fits(),
    {
        i64::MIN + MAX_VELOCITY <= self.pos.0.x && self.pos.0.x <= i64::MAX - MAX_VELOCITY
            && i64::MIN + MAX_VELOCITY <= self.pos.0.y && self.pos.0.y <= i64::MAX - MAX_VELOCITY
    }
}

impl World {
    /// A world with an empty map, the given actor, and the cursor and camera at the origin.
    pub fn new(player: Player) -> (r: World)
        ensures
            r.map@ == Set::<crate::grid::GridPos>::empty(),
            r.player == player,
            r.cursor == Cursor::new_spec(),
            r.camera == (0i64, 0i64),
    {
        World { map: TileMap::new(), player, cursor: Cursor::new(), camera: (0, 0) }
    }

    /// Runs one frame: the actor moves and falls, the camera follows it, the
    /// cursor follows the pointer, and the map is edited at the cursor's cell.
    pub fn frame(&mut self, input: &FrameInput) -> (r: TileEdit)
        requires
            old(self).player.fits(),
        ensures
            final(self).player.kin() == frame_spec(old(self).player.kin(), input.keys),
            final(self).player.sprite_index == sprite_for(input.keys),
            final(self).camera.0 == round_div(final(self).player.pos.0.x as int, SUBPIXELS as int),
            final(self).camera.1 == round_div(final(self).player.pos.0.y as int, SUBPIXELS as int),
            match input.pointer {
                Some(p) => final(self).cursor.grid == grid_of_world(p) && final(self).cursor.highlight
                    == snap_of(p),
                None => final(self).cursor == old(self).cursor,
            },
            final(self).map@ == edit_spec(old(self).map@, final(self).cursor.grid, input.buttons),
            r == edit_result(old(self).map@, final(self).cursor.grid, input.buttons),
    {
        tick(&mut self.player, &input.keys);
        center_camera_on_player(&mut self.camera, &self.player);
        update_cursor(&mut self.cursor, input.pointer);
        tile_interact(&mut self.map, &self.cursor, &input.buttons)
    }
}

} // verus!
