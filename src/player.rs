use vstd::prelude::*;
use crate::grid::{round_div, GridPos, WorldPos, SUBPIXELS, TILE_UNITS};

verus! {

/// Speed gained per frame while a direction key is held, in world units per frame.
pub const ACCELERATION: i64 = 10;

/// Largest speed on each axis, in world units per frame.
pub const MAX_VELOCITY: i64 = 200;

/// Speed lost per frame on each moving axis, in world units per frame.
pub const FRICTION: i64 = 5;

/// Vertical speed added in the frame that jump is pressed.
pub const JUMP_IMPULSE: i64 = 1000;

/// Velocity in world units per frame.
#[derive(Clone, Copy, Debug, PartialEq, Eq, Default, Structural)]
pub struct Velocity {
    pub x: i64,
    pub y: i64,
}

/// The actor's motion state, kept across frames.
#[derive(Clone, Copy, Debug, PartialEq, Eq, Default, Structural)]
pub struct Physics {
    pub velocity: Velocity,
}

/// The actor's authoritative position, with sub-pixel precision.
#[derive(Clone, Copy, Debug, PartialEq, Eq, Default, Structural)]
pub struct SubGridPos(pub WorldPos);

/// The single actor of the world.
#[derive(Clone, Copy, Debug, PartialEq, Eq, Structural)]
pub struct Player {
    pub pos: SubGridPos,
    pub physics: Physics,
    /// Sprite atlas index, chosen each frame from the input.
    pub sprite_index: usize,
}

/// The keys read by one frame of movement.
#[derive(Clone, Copy, Debug, PartialEq, Eq, Default, Structural)]
pub struct MoveInput {
    pub left: bool,
    pub right: bool,
    /// Jump was pressed in this frame (an edge, not a held key).
    pub jump: bool,
}

/// Position and velocity of the actor as mathematical integers.
pub struct Kinematics {
    pub x: int,
    pub y: int,
    pub vx: int,
    pub vy: int,
}

impl Player {
    pub open spec fn kin(&self) -> Kinematics {
        Kinematics {
            x: self.pos.0.x as int,
            y: self.pos.0.y as int,
            vx: self.physics.velocity.x as int,
            vy: self.physics.velocity.y as int,
        }
    }

    /// The position is far enough from the integer limits for one more frame.
    pub open spec fn fits(&self) -> bool {
        i64::MIN + MAX_VELOCITY <= self.pos.0.x <= i64::MAX - MAX_VELOCITY
            && i64::MIN + MAX_VELOCITY <= self.pos.0.y <= i64::MAX - MAX_VELOCITY
    }
}

pub open spec fn idle() -> MoveInput {
    MoveInput { left: false, right: false, jump: false }
}

/// Horizontal acceleration: right wins when both keys are held.
pub open spec fn accel_x(input: MoveInput) -> int {
    if input.right {
        ACCELERATION as int
    } else if input.left {
        -ACCELERATION
    } else {
        0
    }
}

pub open spec fn accel_y(input: MoveInput) -> int {
    if input.jump {
        JUMP_IMPULSE as int
    } else {
        0
    }
}

pub open spec fn sprite_for(input: MoveInput) -> usize {
    if input.right {
        7
    } else if input.left {
        13
    } else {
        1
    }
}

pub open spec fn clamp_speed(v: int) -> int {
    if v > MAX_VELOCITY {
        MAX_VELOCITY as int
    } else if v < -MAX_VELOCITY {
        -MAX_VELOCITY
    } else {
        v
    }
}

pub open spec fn abs(v: int) -> int {
    if v < 0 {
        -v
    } else {
        v
    }
}

/// Friction on one axis: a moving axis loses `FRICTION` of speed, and with no
/// acceleration on that axis a speed under `FRICTION` becomes exactly zero.
pub open spec fn apply_friction(v: int, a: int) -> int {
    if v == 0 {
        0
    } else {
        let w = if v > 0 {
            v - FRICTION
        } else {
            v + FRICTION
        };
        if abs(w) < FRICTION && a == 0 {
            0
        } else {
            w
        }
    }
}

pub open spec fn next_velocity(v: int, a: int) -> int {
    apply_friction(clamp_speed(v + a), a)
}

/// One frame of movement.
pub open spec fn move_spec(k: Kinematics, input: MoveInput) -> Kinematics {
    let vx = next_velocity(k.vx, accel_x(input));
    let vy = next_velocity(k.vy, accel_y(input));
    Kinematics { x: k.x + vx, y: k.y + vy, vx, vy }
}

/// `n` frames of movement with the same input.
pub open spec fn run_moves(k: Kinematics, input: MoveInput, n: nat) -> Kinematics
    decreases n,
{
    if n == 0 {
        k
    } else {
        move_spec(run_moves(k, input, (n - 1) as nat), input)
    }
}

/// `clamp_speed(v + a)` without overflow for any `v`.
pub(crate) fn clamp_add(v: i64, a: i64) -> (r: i64)
    requires
        -JUMP_IMPULSE <= a <= JUMP_IMPULSE,
    ensures
        r == clamp_speed(v + a),
{
    if v > MAX_VELOCITY - a {
        MAX_VELOCITY
    } else if v < -MAX_VELOCITY - a {
        -MAX_VELOCITY
    } else {
        v + a
    }
}

fn friction(v: i64, a: i64) -> (r: i64)
    requires
        -MAX_VELOCITY <= v <= MAX_VELOCITY,
    ensures
        r == apply_friction(v as int, a as int),
{
    if v != 0 {
        let w: i64 = if v > 0 {
            v - FRICTION
        } else {
            v + FRICTION
        };
        // snapping force
        if (w < FRICTION && w > -FRICTION) && a == 0 {
            0
        } else {
            w
        }
    } else {
        v
    }
}

impl Player {
    /// An actor at rest at `pos`.
    pub fn new(pos: WorldPos) -> (r: Player)
        ensures
            r.pos.0 == pos,
            r.physics.velocity == (Velocity { x: 0, y: 0 }),
            r.sprite_index == 1,
    {
        Player { pos: SubGridPos(pos), physics: Physics { velocity: Velocity { x: 0, y: 0 } }, sprite_index: 1 }
    }

    /// An actor at rest on the anchor of cell `g`.
    pub fn at_grid(g: GridPos) -> (r: Player)
        ensures
            r.pos.0 == crate::grid::world_of_grid(g),
            r.physics.velocity == (Velocity { x: 0, y: 0 }),
            r.sprite_index == 1,
    {
        Player::new(g.as_world())
    }

    /// The position drawn on screen: the position rounded to whole pixels
    /// (halves away from zero), in pixels.
    pub fn translation(&self) -> (r: (i64, i64))
        ensures
            r.0 == round_div(self.pos.0.x as int, SUBPIXELS as int),
            r.1 == round_div(self.pos.0.y as int, SUBPIXELS as int),
    {
        (crate::grid::div_round(self.pos.0.x, SUBPIXELS), crate::grid::div_round(self.pos.0.y, SUBPIXELS))
    }
}

/// The actor the world starts with: at rest, eight pixels above the origin.
pub fn spawn_player() -> (r: Player)
    ensures
        r.pos.0 == (WorldPos { x: 0, y: 800 }),
        r.physics.velocity == (Velocity { x: 0, y: 0 }),
        r.sprite_index == 1,
{
    Player::new(WorldPos { x: 0, y: 8 * SUBPIXELS })
}

/// Advances the actor by one frame: accelerate, clamp each axis to
/// `MAX_VELOCITY`, apply friction with its snap to zero, then move by the velocity.
pub fn movement(player: &mut Player, input: &MoveInput)
    requires
        old(player).fits(),
    ensures
        final(player).kin() == move_spec(old(player).kin(), *input),
        final(player).sprite_index == sprite_for(*input),
{
    let ax: i64 = if input.right {
        player.sprite_index = 7;
        ACCELERATION
    } else if input.left {
        player.sprite_index = 13;
        -ACCELERATION
    } else {
        player.sprite_index = 1;
        0
    };
    let ay: i64 = if input.jump {
        JUMP_IMPULSE
    } else {
        0
    };
    let vx = clamp_add(player.physics.velocity.x, ax);
    let vy = clamp_add(player.physics.velocity.y, ay);
    let vx = friction(vx, ax);
    let vy = friction(vy, ay);
    player.physics.velocity = Velocity { x: vx, y: vy };
    player.pos.0 = WorldPos { x: player.pos.0.x + vx, y: player.pos.0.y + vy };
}

/// One frame never leaves either axis faster than `MAX_VELOCITY`, whatever the
/// starting velocity and input.
pub proof fn lemma_speed_bounded(k: Kinematics, input: MoveInput)
    ensures
        abs(move_spec(k, input).vx) <= MAX_VELOCITY,
        abs(move_spec(k, input).vy) <= MAX_VELOCITY,
{
}

/// An actor at rest with no input stays exactly where it is, with zero
/// velocity, for any number of frames.
pub proof fn lemma_rest_stays(k: Kinematics, n: nat)
    requires
        k.vx == 0,
        k.vy == 0,
    ensures
        run_moves(k, idle(), n) == k,
    decreases n,
{
    if n > 0 {
        lemma_rest_stays(k, (n - 1) as nat);
    }
}

pub open spec fn hold_right() -> MoveInput {
    MoveInput { left: false, right: true, jump: false }
}

pub open spec fn hold_left() -> MoveInput {
    MoveInput { left: true, right: false, jump: false }
}

/// The horizontal speed after holding a direction key for `n` frames from rest:
/// it grows by `ACCELERATION - FRICTION` per frame up to `MAX_VELOCITY - FRICTION`.
pub open spec fn held_speed(n: nat) -> int {
    let s = (ACCELERATION - FRICTION) * n;
    if s < MAX_VELOCITY - FRICTION {
        s
    } else {
        MAX_VELOCITY - FRICTION
    }
}

/// Holding one direction key from rest drives the horizontal speed up to its
/// limit, which lies under `MAX_VELOCITY`, and keeps it there.
pub proof fn lemma_held_key_speed(k: Kinematics, n: nat)
    requires
        k.vx == 0,
    ensures
        run_moves(k, hold_right(), n).vx == held_speed(n),
        run_moves(k, hold_left(), n).vx == -held_speed(n),
        held_speed(n) <= MAX_VELOCITY,
    decreases n,
{
    if n > 0 {
        lemma_held_key_speed(k, (n - 1) as nat);
    }
}

/// The horizontal speed `n` frames after the keys are released at speed `v`.
pub open spec fn decayed(v: int, n: nat) -> int {
    if n == 0 {
        v
    } else if abs(v) - FRICTION * n < FRICTION {
        0
    } else if v > 0 {
        v - FRICTION * n
    } else {
        v + FRICTION * n
    }
}

/// With no input, the horizontal speed falls by `FRICTION` per frame, never
/// changes sign, and is exactly zero once `n * FRICTION >= |v|`.
pub proof fn lemma_release_decays(k: Kinematics, n: nat)
    requires
        abs(k.vx) <= MAX_VELOCITY,
    ensures
        run_moves(k, idle(), n).vx == decayed(k.vx, n),
        k.vx >= 0 ==> run_moves(k, idle(), n).vx >= 0,
        k.vx <= 0 ==> run_moves(k, idle(), n).vx <= 0,
        n * FRICTION >= abs(k.vx) ==> run_moves(k, idle(), n).vx == 0,
    decreases n,
{
    if n > 0 {
        lemma_release_decays(k, (n - 1) as nat);
    }
}

} // verus!
