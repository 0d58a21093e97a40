//! Per-axis velocity control and damping.
//!
//! Each tick, for each player and each axis independently: an active
//! directional input adds `ACCEL_STEP`, clamped to `MAX_SPEED` in magnitude;
//! with no input on that axis the speed decays towards zero by `DAMP_STEP`,
//! never crossing zero.  The ball is never driven directly and is damped on
//! both axes every tick.

use crate::consts::{ACCEL_STEP, DAMP_STEP, MAX_SPEED};
use crate::num::iabs;
use vstd::prelude::*;

verus! {

/// A per-tick velocity, in hundredths of a pixel per tick.
#[derive(Clone, Copy, PartialEq, Eq, Structural, Debug)]
pub struct Velocity {
    pub x: i64,
    pub y: i64,
}

/// The mathematical value of a `Velocity`: a pair of unbounded integers.
pub ghost struct Vel2 {
    pub x: int,
    pub y: int,
}

impl View for Velocity {
    type V = Vel2;

    open spec fn view(&self) -> Vel2 {
        Vel2 { x: self.x as int, y: self.y as int }
    }
}

/// One tick of damping on one axis: move `v` towards zero by `DAMP_STEP`,
/// stopping exactly at zero.  Zero is a fixed point.
pub open spec fn damp_axis(v: int) -> int {
    if v > DAMP_STEP {
        v - DAMP_STEP
    } else if v < -DAMP_STEP {
        v + DAMP_STEP
    } else {
        0
    }
}

/// `n` ticks of damping on one axis.
pub open spec fn damp_iter(v: int, n: nat) -> int
    decreases n,
{
    if n == 0 {
        v
    } else {
        damp_iter(damp_axis(v), (n - 1) as nat)
    }
}

/// One tick of control on an axis whose positive input is checked first:
/// accelerate towards the active input, clamped to `MAX_SPEED`; damp when
/// neither input is active.
pub open spec fn control_axis_pos_first(v: int, pos: bool, neg: bool) -> int {
    if pos {
        if v + ACCEL_STEP <= MAX_SPEED {
            v + ACCEL_STEP
        } else {
            MAX_SPEED as int
        }
    } else if neg {
        if v - ACCEL_STEP >= -MAX_SPEED {
            v - ACCEL_STEP
        } else {
            -MAX_SPEED as int
        }
    } else {
        damp_axis(v)
    }
}

/// One tick of control on an axis whose negative input is checked first
/// (the horizontal axis: left before right).
pub open spec fn control_axis_neg_first(v: int, neg: bool, pos: bool) -> int {
    if neg {
        if v - ACCEL_STEP >= -MAX_SPEED {
            v - ACCEL_STEP
        } else {
            -MAX_SPEED as int
        }
    } else if pos {
        if v + ACCEL_STEP <= MAX_SPEED {
            v + ACCEL_STEP
        } else {
            MAX_SPEED as int
        }
    } else {
        damp_axis(v)
    }
}

/// One tick of the velocity controller for a player: vertical axis first
/// (up before down), then horizontal (left before right).
pub open spec fn spec_control_player(v: Vel2, up: bool, down: bool, left: bool, right: bool) -> Vel2 {
    Vel2 {
        x: control_axis_neg_first(v.x, left, right),
        y: control_axis_pos_first(v.y, up, down),
    }
}

/// One tick of ball damping: both axes decay, the ball takes no input.
pub open spec fn spec_damp_ball(v: Vel2) -> Vel2 {
    Vel2 { x: damp_axis(v.x), y: damp_axis(v.y) }
}

/// Apply one tick of the velocity controller to a player's velocity.
pub fn control_player_velocity(vel: &mut Velocity, up: bool, down: bool, left: bool, right: bool)
    requires
        iabs(old(vel)@.x) <= i64::MAX - ACCEL_STEP,
        iabs(old(vel)@.y) <= i64::MAX - ACCEL_STEP,
    ensures
        final(vel)@ == spec_control_player(old(vel)@, up, down, left, right),
        iabs(final(vel)@.x) <= iabs(old(vel)@.x) || iabs(final(vel)@.x) <= MAX_SPEED,
        iabs(final(vel)@.y) <= iabs(old(vel)@.y) || iabs(final(vel)@.y) <= MAX_SPEED,
{
    if up {
        if vel.y + ACCEL_STEP <= MAX_SPEED {
            vel.y = vel.y + ACCEL_STEP;
        } else {
            vel.y = MAX_SPEED;
        }
    } else if down {
        if vel.y - ACCEL_STEP >= -MAX_SPEED {
            vel.y = vel.y - ACCEL_STEP;
        } else {
            vel.y = -MAX_SPEED;
        }
    } else {
        vel.y = damp_exec(vel.y);
    }
    if left {
        if vel.x - ACCEL_STEP >= -MAX_SPEED {
            vel.x = vel.x - ACCEL_STEP;
        } else {
            vel.x = -MAX_SPEED;
        }
    } else if right {
        if vel.x + ACCEL_STEP <= MAX_SPEED {
            vel.x = vel.x + ACCEL_STEP;
        } else {
            vel.x = MAX_SPEED;
        }
    } else {
        vel.x = damp_exec(vel.x);
    }
}

/// Apply one tick of damping to the ball's velocity.
pub fn control_ball_velocity(vel: &mut Velocity)
    ensures
        final(vel)@ == spec_damp_ball(old(vel)@),
        iabs(final(vel)@.x) <= iabs(old(vel)@.x),
        iabs(final(vel)@.y) <= iabs(old(vel)@.y),
{
    vel.x = damp_exec(vel.x);
    vel.y = damp_exec(vel.y);
}

/// One tick of damping on a single axis value.
fn damp_exec(v: i64) -> (r: i64)
    ensures
        r == damp_axis(v as int),
{
    if v > DAMP_STEP {
        v - DAMP_STEP
    } else if v < -DAMP_STEP {
        v + DAMP_STEP
    } else {
        0
    }
}

/// Damping never overshoots or changes sign: one tick keeps the value
/// between zero and where it started, and its magnitude never grows.
pub proof fn lemma_damp_no_sign_change(v: int)
    ensures
        v >= 0 ==> 0 <= damp_axis(v) <= v,
        v <= 0 ==> v <= damp_axis(v) <= 0,
        iabs(damp_axis(v)) <= iabs(v),
{
}

/// Damping converges: from any value of magnitude at most `DAMP_STEP * n`,
/// `n` ticks of damping reach exactly zero.  In particular a speed within
/// `MAX_SPEED` is gone after `MAX_SPEED / DAMP_STEP` ticks.
pub proof fn lemma_damp_converges(v: int, n: nat)
    requires
        iabs(v) <= DAMP_STEP * n,
    ensures
        damp_iter(v, n) == 0,
    decreases n,
{
    if n > 0 {
        assert(DAMP_STEP * n == DAMP_STEP * (n - 1) + DAMP_STEP) by (nonlinear_arith);
        lemma_damp_converges(damp_axis(v), (n - 1) as nat);
    }
}

/// From any speed the controller can hand out, damping reaches exactly
/// zero within `MAX_SPEED / DAMP_STEP` ticks.
pub proof fn lemma_damp_within_max_speed(v: int)
    requires
        iabs(v) <= MAX_SPEED,
    ensures
        damp_iter(v, (MAX_SPEED / DAMP_STEP) as nat) == 0,
{
    lemma_damp_converges(v, (MAX_SPEED / DAMP_STEP) as nat);
}

/// Damping never changes sign along the whole run: every prefix of the
/// damping sequence stays between zero and the starting value.
pub proof fn lemma_damp_iter_no_sign_change(v: int, n: nat)
    ensures
        v >= 0 ==> 0 <= damp_iter(v, n) <= v,
        v <= 0 ==> v <= damp_iter(v, n) <= 0,
    decreases n,
{
    if n > 0 {
        lemma_damp_iter_no_sign_change(damp_axis(v), (n - 1) as nat);
    }
}

} // verus!
