use grid_world::grid::GridPos;
use grid_world::tile_map::{spawn_tiles, TileDirection, TileMap};

#[test]
fn insert_then_contains() {
    let mut m = TileMap::new();
    let g = GridPos::new(3, -4);
    assert!(!m.contains(g));
    m.insert(g);
    assert!(m.contains(g));
    m.insert(g);
    assert!(m.contains(g));
    assert!(!m.contains(GridPos::new(3, 4)));
    assert!(!m.contains(GridPos::new(-3, -4)));
}

#[test]
fn remove_then_absent() {
    let mut m = TileMap::new();
    let g = GridPos::new(-1, 2);
    let h = GridPos::new(2, -1);
    m.insert(g);
    m.insert(h);
    m.remove(g);
    assert!(!m.contains(g));
    assert!(m.contains(h));
    m.remove(g);
    assert!(!m.contains(g));
    assert!(m.contains(h));
}

#[test]
fn negative_and_extreme_cells_are_distinct() {
    let mut m = TileMap::new();
    m.insert(GridPos::new(-1, 0));
    assert!(!m.contains(GridPos::new(i32::MAX, 0)));
    assert!(!m.contains(GridPos::new(0, -1)));
    m.insert(GridPos::new(i32::MIN, i32::MAX));
    assert!(m.contains(GridPos::new(i32::MIN, i32::MAX)));
    assert!(!m.contains(GridPos::new(i32::MAX, i32::MIN)));
}

#[test]
fn spawn_tiles_lays_the_starting_world() {
    let mut m = TileMap::new();
    let tiles = spawn_tiles(&mut m, 64, 64);
    assert_eq!(tiles.len(), 129 * 65);
    assert!(m.contains(GridPos::new(0, 0)));
    assert!(m.contains(GridPos::new(64, 0)));
    assert!(m.contains(GridPos::new(-64, -64)));
    assert!(!m.contains(GridPos::new(65, 0)));
    assert!(!m.contains(GridPos::new(0, 1)));
    assert!(!m.contains(GridPos::new(0, -65)));
    for t in &tiles {
        if t.pos.y == 0 {
            assert_eq!(t.direction, TileDirection::TOP);
        } else {
            assert_eq!(t.direction, TileDirection::CENTER);
        }
    }
}

#[test]
fn spawn_tiles_surface_strip_only() {
    let mut m = TileMap::new();
    let tiles = spawn_tiles(&mut m, 2, 0);
    assert_eq!(tiles.len(), 5);
    assert!(tiles.iter().all(|t| t.pos.y == 0 && t.direction == TileDirection::TOP));
    assert!(!m.contains(GridPos::new(0, -1)));
}

#[test]
fn atlas_indices() {
    assert_eq!(TileDirection::CENTER.atlas_index(), 9);
    assert_eq!(TileDirection::TOP.atlas_index(), 1);
}
