use vstd::prelude::*;
use crate::player::{
    abs, clamp_add, clamp_speed, idle, move_spec, movement, Kinematics, MoveInput, Player,
    MAX_VELOCITY,
};

verus! {

/// Height of the ground, in world units: one tile above the origin.
pub const GROUND_LEVEL: i64 = 1600;

/// Vertical speed lost per frame while airborne.
pub const GRAVITY: i64 = 10;

/// Airborne (above the ground): gravity pulls the vertical speed down, clamped to
/// `MAX_VELOCITY`. Grounded (at or below it): the actor is put exactly on the ground.
pub open spec fn gravity_spec(k: Kinematics) -> Kinematics {
    if k.y > GROUND_LEVEL {
        Kinematics { vy: clamp_speed(k.vy - GRAVITY), ..k }
    } else {
        Kinematics { y: GROUND_LEVEL as int, ..k }
    }
}

/// One whole frame: movement, then gravity.
pub open spec fn frame_spec(k: Kinematics, input: MoveInput) -> Kinematics {
    gravity_spec(move_spec(k, input))
}

/// `n` whole frames with the same input.
pub open spec fn run_frames(k: Kinematics, input: MoveInput, n: nat) -> Kinematics
    decreases n,
{
    if n == 0 {
        k
    } else {
        frame_spec(run_frames(k, input, (n - 1) as nat), input)
    }
}

/// Applies the gravity rule to the actor for one frame.
pub fn apply_gravity(player: &mut Player)
    ensures
        final(player).kin() == gravity_spec(old(player).kin()),
        final(player).sprite_index == old(player).sprite_index,
{
    if player.pos.0.y > GROUND_LEVEL {
        player.physics.velocity.y = clamp_add(player.physics.velocity.y, -GRAVITY);
    } else {
        player.pos.0.y = GROUND_LEVEL;
    }
}

/// Runs one frame for the actor: movement, then gravity.
pub fn tick(player: &mut Player, input: &MoveInput)
    requires
        old(player).fits(),
    ensures
        final(player).kin() == frame_spec(old(player).kin(), *input),
        final(player).sprite_index == crate::player::sprite_for(*input),
{
    movement(player, input);
    apply_gravity(player);
}

proof fn lemma_run_front(k: Kinematics, input: MoveInput, n: nat)
    ensures
        run_frames(k, input, n + 1) == run_frames(frame_spec(k, input), input, n),
    decreases n,
{
    if n > 0 {
        lemma_run_front(k, input, (n - 1) as nat);
        assert(run_frames(k, input, n + 1) == frame_spec(run_frames(k, input, n), input));
    } else {
        assert(run_frames(k, input, 1) == frame_spec(run_frames(k, input, 0), input));
    }
}

/// After any frame the actor is at or above the ground.
pub proof fn lemma_never_below_ground(k: Kinematics, input: MoveInput, n: nat)
    requires
        n >= 1,
    ensures
        run_frames(k, input, n).y >= GROUND_LEVEL,
{
}

/// On the ground and not moving up, an actor with no input stays on the ground.
pub proof fn lemma_grounded_stays(k: Kinematics, n: nat)
    requires
        k.y == GROUND_LEVEL,
        -MAX_VELOCITY <= k.vy <= 0,
    ensures
        run_frames(k, idle(), n).y == GROUND_LEVEL,
        -MAX_VELOCITY <= run_frames(k, idle(), n).vy <= 0,
    decreases n,
{
    if n > 0 {
        lemma_grounded_stays(k, (n - 1) as nat);
    }
}

/// An airborne actor with no input lands: some frame puts it exactly on the ground,
/// no frame takes it below, and from then on it stays there.
pub proof fn lemma_falls_to_ground(k: Kinematics) -> (n: nat)
    requires
        k.y > GROUND_LEVEL,
        abs(k.vy) <= MAX_VELOCITY,
    ensures
        run_frames(k, idle(), n).y == GROUND_LEVEL,
        forall|m: nat| m >= 1 ==> #[trigger] run_frames(k, idle(), m).y >= GROUND_LEVEL,
        forall|m: nat| m >= n ==> #[trigger] run_frames(k, idle(), m).y == GROUND_LEVEL,
    decreases (k.y - GROUND_LEVEL) + 50 * (k.vy + MAX_VELOCITY),
{
    let k1 = frame_spec(k, idle());
    let n: nat = if k1.y == GROUND_LEVEL {
        1
    } else {
        let n1 = lemma_falls_to_ground(k1);
        assert forall|m: nat| m >= n1 + 1 implies #[trigger] run_frames(k, idle(), m).y == GROUND_LEVEL by {
            lemma_run_front(k, idle(), (m - 1) as nat);
        }
        n1 + 1
    };
    assert forall|m: nat| m >= 1 implies #[trigger] run_frames(k, idle(), m).y >= GROUND_LEVEL by {
        lemma_never_below_ground(k, idle(), m);
    }
    if k1.y == GROUND_LEVEL {
        assert forall|m: nat| m >= 1 implies #[trigger] run_frames(k, idle(), m).y == GROUND_LEVEL by {
            lemma_run_front(k, idle(), (m - 1) as nat);
            lemma_grounded_stays(k1, (m - 1) as nat);
        }
    }
    lemma_run_front(k, idle(), (n - 1) as nat);
    n
}

} // verus!
