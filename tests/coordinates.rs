use grid_world::grid::{div_round, GridPos, WorldPos, TILE_UNITS};

#[test]
fn as_world_multiplies_by_tile_size() {
    let w = GridPos::new(3, -2).as_world();
    assert_eq!(w, WorldPos::new(4800, -3200));
    assert_eq!(GridPos::new(0, 0).as_world(), WorldPos::new(0, 0));
}

#[test]
fn as_grid_rounds_half_away_from_zero() {
    // 8 px is half a 16 px tile
    assert_eq!(WorldPos::new(800, -800).as_grid(), GridPos::new(1, -1));
    assert_eq!(WorldPos::new(799, -799).as_grid(), GridPos::new(0, 0));
    assert_eq!(WorldPos::new(801, -801).as_grid(), GridPos::new(1, -1));
    assert_eq!(WorldPos::new(2400, -2400).as_grid(), GridPos::new(2, -2));
    assert_eq!(WorldPos::new(2399, -2399).as_grid(), GridPos::new(1, -1));
}

#[test]
fn as_grid_saturates() {
    assert_eq!(WorldPos::new(i64::MAX, i64::MIN).as_grid(), GridPos::new(i32::MAX, i32::MIN));
}

#[test]
fn grid_round_trip() {
    let cells = [(0, 0), (1, -1), (-64, 64), (i32::MAX, i32::MIN), (12345, -67890)];
    for (x, y) in cells {
        let g = GridPos::new(x, y);
        assert_eq!(g.as_world().as_grid(), g);
    }
}

#[test]
fn grid_snap_is_idempotent() {
    let points = [(0, 0), (1234, -1234), (800, -800), (799, 2401), (i64::MAX, i64::MIN)];
    for (x, y) in points {
        let p = WorldPos::new(x, y);
        let s = p.grid_snap();
        assert_eq!(s.grid_snap(), s);
    }
    assert_eq!(WorldPos::new(1234, -1234).grid_snap(), WorldPos::new(TILE_UNITS, -TILE_UNITS));
}

#[test]
fn div_round_values() {
    assert_eq!(div_round(250, 100), 3);
    assert_eq!(div_round(-250, 100), -3);
    assert_eq!(div_round(249, 100), 2);
    assert_eq!(div_round(-249, 100), -2);
    assert_eq!(div_round(0, 100), 0);
    assert_eq!(div_round(i64::MAX, 100), 92233720368547758);
    assert_eq!(div_round(i64::MIN, 100), -92233720368547758);
}
