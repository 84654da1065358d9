//! Motion of the player under gravity.

use vstd::prelude::*;
use crate::units::{FixedVec2, UNIT};

verus! {

/// Length of one fixed tick, in milliseconds.
pub const FIXED_TICK_MILLIS: u64 = 16;

/// What a falling body loses of its vertical velocity in one fixed tick: a tenth of a world unit.
pub const GRAVITY: i64 = 1;

/// Vertical velocity right after a jump.
pub const JUMP_SPEED: i64 = 5 * UNIT;

/// Horizontal velocity of a freshly spawned player.
pub const RUN_SPEED: i64 = 2 * UNIT;

/// Displacement per fixed tick.
#[derive(Clone, Copy, Debug, PartialEq, Eq, Structural)]
pub struct Velocity {
    pub value: FixedVec2,
}

/// Marks a body that gravity pulls on.
#[derive(Clone, Copy, Debug, PartialEq, Eq, Structural)]
pub struct Gravity;

/// Position and velocity of a body as unbounded integers.
pub struct Kinematics {
    pub x: int,
    pub y: int,
    pub vx: int,
    pub vy: int,
}

/// The body described by a position and a velocity.
pub open spec fn kinematics(translation: FixedVec2, velocity: Velocity) -> Kinematics {
    Kinematics {
        x: translation.x as int,
        y: translation.y as int,
        vx: velocity.value.x as int,
        vy: velocity.value.y as int,
    }
}

/// One fixed tick: the body moves by its velocity, then gravity acts on the velocity.
pub open spec fn tick(k: Kinematics) -> Kinematics {
    Kinematics { x: k.x + k.vx, y: k.y + k.vy, vx: k.vx, vy: k.vy - GRAVITY }
}

/// The body after `n` fixed ticks without a jump.
pub open spec fn after_ticks(k: Kinematics, n: nat) -> Kinematics
    decreases n,
{
    if n == 0 {
        k
    } else {
        tick(after_ticks(k, (n - 1) as nat))
    }
}

/// Whether a move by `velocity` keeps `translation` inside the machine range.
pub open spec fn can_move(translation: FixedVec2, velocity: Velocity) -> bool {
    &&& i64::MIN <= translation.x + velocity.value.x <= i64::MAX
    &&& i64::MIN <= translation.y + velocity.value.y <= i64::MAX
}

/// Whether gravity can act on `velocity` inside the machine range.
pub open spec fn can_fall(velocity: Velocity) -> bool {
    i64::MIN <= velocity.value.y - GRAVITY
}

/// Moves a body by its velocity.
pub fn update_player_position(velocity: &Velocity, translation: &mut FixedVec2)
    requires
        can_move(*old(translation), *velocity),
    ensures
        final(translation).x == old(translation).x + velocity.value.x,
        final(translation).y == old(translation).y + velocity.value.y,
{
    translation.x = translation.x + velocity.value.x;
    translation.y = translation.y + velocity.value.y;
}

/// Lets gravity act on a velocity for one fixed tick.
pub fn apply_gravity(velocity: &mut Velocity)
    requires
        can_fall(*old(velocity)),
    ensures
        final(velocity).value.x == old(velocity).value.x,
        final(velocity).value.y == old(velocity).value.y - GRAVITY,
{
    velocity.value.y = velocity.value.y - GRAVITY;
}

/// Closed form of free fall. After `n` ticks without a jump the body has run
/// `n` times its horizontal velocity, has lost `n` steps of gravity from its
/// vertical velocity, and stands where `n` ticks at its first vertical
/// velocity would have taken it, less one step of gravity for every pair of ticks.
pub proof fn lemma_free_fall_closed_form(k: Kinematics, n: nat)
    ensures
        after_ticks(k, n).x == k.x + n * k.vx,
        after_ticks(k, n).vx == k.vx,
        after_ticks(k, n).vy == k.vy - GRAVITY * n,
        after_ticks(k, n).y == k.y + n * k.vy - GRAVITY * (n * (n - 1) / 2),
    decreases n,
{
    if n > 0 {
        let m = (n - 1) as nat;
        lemma_free_fall_closed_form(k, m);
        assert(n * k.vx == m * k.vx + k.vx) by (nonlinear_arith)
            requires
                n == m + 1,
        ;
        assert(n * k.vy == m * k.vy + k.vy) by (nonlinear_arith)
            requires
                n == m + 1,
        ;
        assert(n * (n - 1) == m * (m - 1) + 2 * m) by (nonlinear_arith)
            requires
                n == m + 1,
        ;
    } else {
        assert(n * k.vx == 0 && n * k.vy == 0 && n * (n - 1) == 0) by (nonlinear_arith)
            requires
                n == 0,
        ;
    }
}

/// A body that sets out with one step of gravity as its downward velocity
/// stands, after `n` ticks without a jump, `n (n + 1) / 2` steps of gravity
/// below where it set out.
pub proof fn law_free_fall(k: Kinematics, n: nat)
    requires
        n == 0 || k.vy == -GRAVITY,
    ensures
        after_ticks(k, n).y == k.y - GRAVITY * (n * (n + 1) / 2),
{
    lemma_free_fall_closed_form(k, n);
    assert(n * (n + 1) == n * (n - 1) + 2 * n) by (nonlinear_arith);
    if n > 0 {
        assert(n * k.vy == -n) by (nonlinear_arith)
            requires
                k.vy == -1,
        ;
    }
}

/// A body that sets out at rest stands, one tick later than that, `n (n + 1) / 2`
/// steps of gravity below where it set out: its first tick moves it nowhere.
pub proof fn law_free_fall_from_rest(k: Kinematics, n: nat)
    requires
        k.vy == 0,
    ensures
        after_ticks(k, n + 1).y == k.y - GRAVITY * (n * (n + 1) / 2),
{
    lemma_free_fall_closed_form(k, n + 1);
    assert((n + 1) * k.vy == 0) by (nonlinear_arith)
        requires
            k.vy == 0,
    ;
    assert((n + 1) * ((n + 1) - 1) == n * (n + 1)) by (nonlinear_arith);
}

} // verus!
