use grid_world::grid::{GridPos, WorldPos};
use grid_world::player::{movement, spawn_player, MoveInput, Player, Velocity, MAX_VELOCITY};

fn keys(left: bool, right: bool, jump: bool) -> MoveInput {
    MoveInput { left, right, jump }
}

fn moving(vx: i64, vy: i64) -> Player {
    let mut p = Player::new(WorldPos::new(0, 0));
    p.physics.velocity = Velocity { x: vx, y: vy };
    p
}

#[test]
fn rest_without_input_does_not_drift() {
    let mut p = Player::new(WorldPos::new(123, -456));
    for _ in 0..100 {
        movement(&mut p, &keys(false, false, false));
        assert_eq!(p.pos.0, WorldPos::new(123, -456));
        assert_eq!(p.physics.velocity, Velocity { x: 0, y: 0 });
    }
}

#[test]
fn held_key_approaches_limit() {
    let mut p = Player::new(WorldPos::new(0, 0));
    movement(&mut p, &keys(false, true, false));
    assert_eq!(p.physics.velocity.x, 5);
    assert_eq!(p.pos.0.x, 5);
    for n in 2..=100i64 {
        movement(&mut p, &keys(false, true, false));
        assert_eq!(p.physics.velocity.x, std::cmp::min(5 * n, 195));
        assert!(p.physics.velocity.x.abs() <= MAX_VELOCITY);
    }
    let mut q = Player::new(WorldPos::new(0, 0));
    for _ in 0..60 {
        movement(&mut q, &keys(true, false, false));
    }
    assert_eq!(q.physics.velocity.x, -195);
}

#[test]
fn sprite_follows_keys() {
    let mut p = Player::new(WorldPos::new(0, 0));
    movement(&mut p, &keys(false, true, false));
    assert_eq!(p.sprite_index, 7);
    movement(&mut p, &keys(true, false, false));
    assert_eq!(p.sprite_index, 13);
    movement(&mut p, &keys(false, false, false));
    assert_eq!(p.sprite_index, 1);
    movement(&mut p, &keys(true, true, false));
    assert_eq!(p.sprite_index, 7);
}

#[test]
fn release_decays_to_exact_zero() {
    let mut p = moving(195, 0);
    movement(&mut p, &keys(false, false, false));
    assert_eq!(p.physics.velocity.x, 190);
    for n in 2..=39i64 {
        movement(&mut p, &keys(false, false, false));
        assert!(p.physics.velocity.x >= 0);
        assert_eq!(p.physics.velocity.x, std::cmp::max(195 - 5 * n, 0));
    }
    assert_eq!(p.physics.velocity.x, 0);
    let mut q = moving(-7, 7);
    movement(&mut q, &keys(false, false, false));
    assert_eq!(q.physics.velocity, Velocity { x: 0, y: 0 });
}

#[test]
fn jump_kicks_once() {
    let mut p = Player::new(WorldPos::new(0, 0));
    movement(&mut p, &keys(false, false, true));
    assert_eq!(p.physics.velocity.y, 195);
    assert_eq!(p.pos.0.y, 195);
    movement(&mut p, &keys(false, false, false));
    assert_eq!(p.physics.velocity.y, 190);
}

#[test]
fn velocity_is_clamped() {
    let mut p = moving(i64::MAX, i64::MIN);
    movement(&mut p, &keys(false, false, false));
    assert_eq!(p.physics.velocity, Velocity { x: 195, y: -195 });
}

#[test]
fn translation_rounds_to_pixels() {
    let p = Player::new(WorldPos::new(149, -150));
    assert_eq!(p.translation(), (1, -2));
    let q = Player::new(WorldPos::new(150, -149));
    assert_eq!(q.translation(), (2, -1));
}

#[test]
fn spawned_player_is_at_rest() {
    let p = spawn_player();
    assert_eq!(p.pos.0, WorldPos::new(0, 800));
    assert_eq!(p.physics.velocity, Velocity { x: 0, y: 0 });
    let q = Player::at_grid(GridPos::new(2, 1));
    assert_eq!(q.pos.0, WorldPos::new(3200, 1600));
    assert!(q.in_range());
    assert!(!Player::new(WorldPos::new(i64::MAX, 0)).in_range());
}
