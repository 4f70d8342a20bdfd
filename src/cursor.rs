use vstd::prelude::*;
use crate::grid::{grid_of_world, snap_of, world_of_grid, GridPos, WorldPos};
use crate::tile_map::TileMap;

verus! {

/// The editing cursor: the cell under the pointer and where its highlight is drawn.
#[derive(Clone, Copy, Debug, PartialEq, Eq, Default, Structural)]
pub struct Cursor {
    pub grid: GridPos,
    pub highlight: WorldPos,
}

impl Cursor {
    /// The highlight sits on the anchor of the cursor's cell.
    pub open spec fn wf(&self) -> bool {
        self.highlight == world_of_grid(self.grid)
    }

    pub open spec fn new_spec() -> Cursor {
        Cursor { grid: GridPos { x: 0, y: 0 }, highlight: WorldPos { x: 0, y: 0 } }
    }

    /// A cursor on the origin cell.
    pub fn new() -> (r: Cursor)
        ensures
            r == Cursor::new_spec(),
            r.wf(),
    {
        Cursor { grid: GridPos { x: 0, y: 0 }, highlight: WorldPos { x: 0, y: 0 } }
    }
}

/// The mouse buttons read by one frame of editing.
#[derive(Clone, Copy, Debug, PartialEq, Eq, Default, Structural)]
pub struct MouseInput {
    pub place: bool,
    pub remove: bool,
}

/// What one frame of editing did to the map.
#[derive(Clone, Copy, Debug, PartialEq, Eq, Structural)]
pub enum TileEdit {
    Nothing,
    Removed(GridPos),
    Placed(GridPos),
}

/// Moves the cursor to the cell under the pointer; with no pointer position
/// (outside the window) the cursor keeps its state.
pub fn update_cursor(cursor: &mut Cursor, pointer: Option<WorldPos>)
    ensures
        match pointer {
            Some(p) => final(cursor).grid == grid_of_world(p) && final(cursor).highlight
                == snap_of(p),
            None => *final(cursor) == *old(cursor),
        },
        old(cursor).wf() ==> final(cursor).wf(),
{
    if let Some(p) = pointer {
        let grid = p.as_grid();
        cursor.highlight = grid.as_world();
        cursor.grid = grid;
    }
}

/// The map after one frame of editing at cell `g`.
pub open spec fn edit_spec(m: Set<GridPos>, g: GridPos, buttons: MouseInput) -> Set<GridPos> {
    if buttons.place && buttons.remove {
        m
    } else if buttons.remove {
        m.remove(g)
    } else if buttons.place {
        m.insert(g)
    } else {
        m
    }
}

/// The edit reported for one frame of editing at cell `g`.
pub open spec fn edit_result(m: Set<GridPos>, g: GridPos, buttons: MouseInput) -> TileEdit {
    if buttons.place && buttons.remove {
        TileEdit::Nothing
    } else if buttons.remove {
        if m.contains(g) {
            TileEdit::Removed(g)
        } else {
            TileEdit::Nothing
        }
    } else if buttons.place {
        if m.contains(g) {
            TileEdit::Nothing
        } else {
            TileEdit::Placed(g)
        }
    } else {
        TileEdit::Nothing
    }
}

/// Edits the map at the cursor's cell: with both buttons held nothing happens;
/// else remove takes away the tile there, and place adds one where none is.
pub fn tile_interact(map: &mut TileMap, cursor: &Cursor, buttons: &MouseInput) -> (r: TileEdit)
    ensures
        final(map)@ == edit_spec(old(map)@, cursor.grid, *buttons),
        r == edit_result(old(map)@, cursor.grid, *buttons),
{
    if buttons.place && buttons.remove {
        return TileEdit::Nothing;
    }
    let g = cursor.grid;
    if buttons.remove {
        if map.contains(g) {
            map.remove(g);
            return TileEdit::Removed(g);
        }
        return TileEdit::Nothing;
    }
    if buttons.place {
        if !map.contains(g) {
            map.insert(g);
            return TileEdit::Placed(g);
        }
    }
    TileEdit::Nothing
}

/// With place and remove both held the frame edits nothing, whatever the map holds.
pub proof fn lemma_conflict_edits_nothing(m: Set<GridPos>, g: GridPos, buttons: MouseInput)
    requires
        buttons.place,
        buttons.remove,
    ensures
        edit_spec(m, g, buttons) == m,
        edit_spec(m, g, buttons).contains(g) == m.contains(g),
        edit_result(m, g, buttons) == TileEdit::Nothing,
{
}

} // verus!
