//! Boundary reflection and corner posts.
//!
//! After the collision pass, every body is reflected off the outer
//! rectangle of the field, except that the ball passes through the goal
//! mouths: the reflection gate asks that the body stand outside the goal
//! mouth's vertical extent, or be a player (players always rebound).  The
//! rule applies the same vertical gate at the top and bottom edges as
//! well, a deliberate quirk of the game.  Four posts flank the
//! goal mouths; a body that comes within its radius plus the post radius of
//! a post center has both velocity components inverted outright.

use crate::body::{Body, BodyV};
use crate::consts::{BALL_RADIUS, CORNER_RADIUS, GOAL_HALF_HEIGHT, HALF_H, HALF_W, PLAYER_RADIUS};
use crate::motion::Vel2;
use crate::num::iabs;
use vstd::prelude::*;

verus! {

/// The reflection gate: a body rebounds off an edge only when it stands at
/// or beyond the goal mouth's vertical extent, or is a player.
pub open spec fn edge_gate(b: BodyV) -> bool {
    b.y >= GOAL_HALF_HEIGHT || b.y <= -GOAL_HALF_HEIGHT || b.radius == PLAYER_RADIUS
}

/// One pass of the boundary resolver: reflect the x velocity when the
/// body's rim reaches the left or right field edge without the goal-mouth
/// exception, and likewise the y velocity at the top or bottom edge.  The
/// position never changes here.
pub open spec fn spec_edge(b: BodyV) -> BodyV {
    let vx = if b.x + b.radius >= HALF_W && edge_gate(b) {
        -b.vel.x
    } else if b.x - b.radius <= -HALF_W && edge_gate(b) {
        -b.vel.x
    } else {
        b.vel.x
    };
    let vy = if b.y + b.radius >= HALF_H && edge_gate(b) {
        -b.vel.y
    } else if b.y - b.radius <= -HALF_H && edge_gate(b) {
        -b.vel.y
    } else {
        b.vel.y
    };
    BodyV { x: b.x, y: b.y, vel: Vel2 { x: vx, y: vy }, radius: b.radius }
}

/// x coordinate of corner post `i`, in the order the resolver visits them:
/// top left, top right, bottom right, bottom left.
pub open spec fn post_x(i: int) -> int {
    if i == 0 {
        -HALF_W as int
    } else if i == 1 {
        HALF_W as int
    } else if i == 2 {
        HALF_W as int
    } else {
        -HALF_W as int
    }
}

/// y coordinate of corner post `i`.
pub open spec fn post_y(i: int) -> int {
    if i == 0 {
        GOAL_HALF_HEIGHT as int
    } else if i == 1 {
        GOAL_HALF_HEIGHT as int
    } else {
        -GOAL_HALF_HEIGHT as int
    }
}

/// Whether a body stands within reach of corner post `i`: center distance
/// at most the body radius plus the post radius.
pub open spec fn near_post(b: BodyV, i: int) -> bool {
    let ddx = b.x - post_x(i);
    let ddy = b.y - post_y(i);
    ddx * ddx + ddy * ddy <= (b.radius + CORNER_RADIUS) * (b.radius + CORNER_RADIUS)
}

/// One pass of the corner resolver: visit the four posts in order and
/// invert both velocity components once for each post within reach.
pub open spec fn spec_corner(b: BodyV) -> BodyV {
    let v0 = b.vel;
    let v1 = if near_post(b, 0) {
        Vel2 { x: -v0.x, y: -v0.y }
    } else {
        v0
    };
    let v2 = if near_post(b, 1) {
        Vel2 { x: -v1.x, y: -v1.y }
    } else {
        v1
    };
    let v3 = if near_post(b, 2) {
        Vel2 { x: -v2.x, y: -v2.y }
    } else {
        v2
    };
    let v4 = if near_post(b, 3) {
        Vel2 { x: -v3.x, y: -v3.y }
    } else {
        v3
    };
    BodyV { x: b.x, y: b.y, vel: v4, radius: b.radius }
}

/// Reflect this body's velocity off the field edges, honoring the goal
/// mouth gate, exactly as `spec_edge` states.
pub fn edge_collision(b: &mut Body)
    requires
        iabs(old(b)@.x) <= 200000000,
        iabs(old(b)@.y) <= 200000000,
        1 <= old(b)@.radius <= 10000,
        iabs(old(b)@.vel.x) <= 1000000000,
        iabs(old(b)@.vel.y) <= 1000000000,
    ensures
        final(b)@ == spec_edge(old(b)@),
        iabs(final(b)@.vel.x) == iabs(old(b)@.vel.x),
        iabs(final(b)@.vel.y) == iabs(old(b)@.vel.y),
{
    let gate = b.y >= GOAL_HALF_HEIGHT || b.y <= -GOAL_HALF_HEIGHT || b.radius == PLAYER_RADIUS;
    if b.x + b.radius >= HALF_W && gate {
        b.vel.x = -b.vel.x;
    } else if b.x - b.radius <= -HALF_W && gate {
        b.vel.x = -b.vel.x;
    }
    if b.y + b.radius >= HALF_H && gate {
        b.vel.y = -b.vel.y;
    } else if b.y - b.radius <= -HALF_H && gate {
        b.vel.y = -b.vel.y;
    }
}

/// Whether the center `(x, y)` of a body of the given radius stands within
/// radius plus `CORNER_RADIUS` of the point `(cx, cy)`.
fn near_exec(x: i64, y: i64, radius: i64, cx: i64, cy: i64) -> (r: bool)
    requires
        iabs(x as int) <= 200000000,
        iabs(y as int) <= 200000000,
        iabs(cx as int) <= 1000000,
        iabs(cy as int) <= 1000000,
        1 <= radius <= 10000,
    ensures
        r == ((x - cx) * (x - cx) + (y - cy) * (y - cy) <= (radius + CORNER_RADIUS) * (radius
            + CORNER_RADIUS)),
{
    let ddx = x - cx;
    let ddy = y - cy;
    proof {
        assert(0 <= (ddx as int) * (ddx as int) <= 160000000000000000 && 0 <= (ddy as int) * (
        ddy as int) <= 160000000000000000) by (nonlinear_arith)
            requires
                iabs(ddx as int) <= 400000000,
                iabs(ddy as int) <= 400000000,
        ;
        assert(0 <= (radius + CORNER_RADIUS as int) * (radius + CORNER_RADIUS as int)
            <= 400000000) by (nonlinear_arith)
            requires
                1 <= radius as int <= 10000,
                CORNER_RADIUS == 1000,
        ;
    }
    ddx * ddx + ddy * ddy <= (radius + CORNER_RADIUS) * (radius + CORNER_RADIUS)
}

/// Invert this body's velocity once for each corner post within reach,
/// exactly as `spec_corner` states.
pub fn corner_collision(b: &mut Body)
    requires
        iabs(old(b)@.x) <= 200000000,
        iabs(old(b)@.y) <= 200000000,
        1 <= old(b)@.radius <= 10000,
        iabs(old(b)@.vel.x) <= 1000000000,
        iabs(old(b)@.vel.y) <= 1000000000,
    ensures
        final(b)@ == spec_corner(old(b)@),
        iabs(final(b)@.vel.x) == iabs(old(b)@.vel.x),
        iabs(final(b)@.vel.y) == iabs(old(b)@.vel.y),
{
    if near_exec(b.x, b.y, b.radius, -HALF_W, GOAL_HALF_HEIGHT) {
        b.vel.x = -b.vel.x;
        b.vel.y = -b.vel.y;
    }
    if near_exec(b.x, b.y, b.radius, HALF_W, GOAL_HALF_HEIGHT) {
        b.vel.x = -b.vel.x;
        b.vel.y = -b.vel.y;
    }
    if near_exec(b.x, b.y, b.radius, HALF_W, -GOAL_HALF_HEIGHT) {
        b.vel.x = -b.vel.x;
        b.vel.y = -b.vel.y;
    }
    if near_exec(b.x, b.y, b.radius, -HALF_W, -GOAL_HALF_HEIGHT) {
        b.vel.x = -b.vel.x;
        b.vel.y = -b.vel.y;
    }
}

/// A ball within reach of one corner post is out of reach of the other
/// three: the posts stand at least 200 pixels apart, ten times the ball's
/// contact range.
pub proof fn lemma_near_post_unique(b: BodyV, i: int, j: int)
    requires
        b.radius == BALL_RADIUS,
        0 <= i < 4,
        0 <= j < 4,
        i != j,
        near_post(b, i),
    ensures
        !near_post(b, j),
{
    assert(iabs(b.x - post_x(i)) <= 2000 && iabs(b.y - post_y(i)) <= 2000) by (nonlinear_arith)
        requires
            (b.x - post_x(i)) * (b.x - post_x(i)) + (b.y - post_y(i)) * (b.y - post_y(i))
                <= 4000000,
    ;
    assert(!near_post(b, j)) by (nonlinear_arith)
        requires
            iabs(b.x - post_x(i)) <= 2000,
            iabs(b.y - post_y(i)) <= 2000,
            b.radius == 1000,
            0 <= i < 4,
            0 <= j < 4,
            i != j,
    ;
}

/// Corner bounce: a ball within contact range of a corner post (center
/// distance at most the ball radius plus the post radius, 20 pixels) has
/// both velocity components negated by the corner resolver, whatever the
/// approach angle.
pub proof fn lemma_corner_bounce(b: BodyV, i: int)
    requires
        b.radius == BALL_RADIUS,
        0 <= i < 4,
        near_post(b, i),
    ensures
        spec_corner(b).vel.x == -b.vel.x,
        spec_corner(b).vel.y == -b.vel.y,
        spec_corner(b).x == b.x,
        spec_corner(b).y == b.y,
{
    if i != 0 {
        lemma_near_post_unique(b, i, 0);
    }
    if i != 1 {
        lemma_near_post_unique(b, i, 1);
    }
    if i != 2 {
        lemma_near_post_unique(b, i, 2);
    }
    if i != 3 {
        lemma_near_post_unique(b, i, 3);
    }
}

/// Goal mouth passthrough: a ball crossing the left or right field edge is
/// left alone by the boundary resolver while its center is strictly inside
/// the goal mouth's vertical extent, and is reflected while it is not; the
/// resolver never moves the ball, so whether the goal fires afterwards
/// depends on the position alone.
pub proof fn lemma_goal_mouth(b: BodyV)
    requires
        b.radius == BALL_RADIUS,
        b.x + b.radius >= HALF_W || b.x - b.radius <= -HALF_W,
    ensures
        -GOAL_HALF_HEIGHT < b.y < GOAL_HALF_HEIGHT ==> spec_edge(b).vel.x == b.vel.x,
        b.y >= GOAL_HALF_HEIGHT || b.y <= -GOAL_HALF_HEIGHT ==> spec_edge(b).vel.x == -b.vel.x,
        spec_edge(b).x == b.x,
        spec_edge(b).y == b.y,
{
}

} // verus!
