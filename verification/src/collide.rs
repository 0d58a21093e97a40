//! Pairwise elastic collision with positional separation.
//!
//! When two bodies overlap (center distance below the sum of the radii),
//! the resolver first pushes them apart along their center line so that
//! they no longer overlap, splitting the correction evenly (all bodies have
//! equal inverse mass), then applies a restitution-1/2 impulse along the
//! same line unless the bodies are already separating.  A kick, when the
//! owning player's action input is held at the moment of contact, first adds
//! `KICK_SPEED` to the ball's velocity, directed from the player's center
//! towards the ball's center.
//!
//! The scalar restitution formula: with equal inverse masses `1`, relative
//! velocity `v` and contact normal `n` from B to A, the impulse is
//! `-(1 + 1/2) * (v . n) / 2 * n`, which over squared distances becomes
//! `-3 * (v . delta) * delta / (4 * |delta|^2)`, rounded towards zero per
//! component.  The separation scales `delta` up to length `rsum`, rounding
//! the magnitude up so that no residual overlap survives the rounding.

use crate::body::{dist2, rsum, Body, BodyV};
use crate::consts::KICK_SPEED;
use crate::motion::Vel2;
use crate::num::{
    cdiv_mag, div_ceil_mag, div_trunc, iabs, isqrt, lemma_cdiv_facts, lemma_cdiv_le,
    lemma_sqrt_floor_bounds, lemma_tdiv_facts, lemma_tdiv_le, sqrt_floor, tdiv,
};
use vstd::prelude::*;

verus! {

/// The largest velocity component magnitude among two bodies.
pub open spec fn vmax2(a: BodyV, b: BodyV) -> int {
    let m1 = if iabs(a.vel.x) >= iabs(a.vel.y) {
        iabs(a.vel.x)
    } else {
        iabs(a.vel.y)
    };
    let m2 = if iabs(b.vel.x) >= iabs(b.vel.y) {
        iabs(b.vel.x)
    } else {
        iabs(b.vel.y)
    };
    if m1 >= m2 {
        m1
    } else {
        m2
    }
}

/// The dot product of the relative velocity of `a` with respect to `b` and
/// the center line from `b` to `a`: negative while the bodies close in,
/// positive while they separate.
pub open spec fn closing_dot(a: BodyV, b: BodyV) -> int {
    (a.vel.x - b.vel.x) * (a.x - b.x) + (a.vel.y - b.vel.y) * (a.y - b.y)
}

/// Facts about the integer square root `d` of `d2 = dx^2 + dy^2 >= 1`:
/// `d` is positive, no larger than `d2`, and at least as large as either
/// component of the vector.
pub proof fn lemma_delta_within_sqrt(dx: int, dy: int, d2: int, d: int)
    requires
        d2 == dx * dx + dy * dy,
        d2 >= 1,
        d == sqrt_floor(d2),
    ensures
        1 <= d <= d2,
        iabs(dx) <= d,
        iabs(dy) <= d,
        d * d <= d2,
        d2 < (d + 1) * (d + 1),
{
    lemma_sqrt_floor_bounds(d2);
    assert(d >= 1 && d <= d2 && iabs(dx) <= d && iabs(dy) <= d) by (nonlinear_arith)
        requires
            d2 == dx * dx + dy * dy,
            d2 >= 1,
            d >= 0,
            d * d <= d2,
            d2 < (d + 1) * (d + 1),
    ;
}

/// The kick: add `KICK_SPEED` to the ball's velocity, directed from the
/// player's center towards the ball's center, rounded towards zero.
pub open spec fn spec_kick(player: BodyV, ball: BodyV) -> BodyV {
    let dx = ball.x - player.x;
    let dy = ball.y - player.y;
    let d = sqrt_floor(dist2(player, ball));
    BodyV {
        x: ball.x,
        y: ball.y,
        vel: Vel2 {
            x: ball.vel.x + tdiv(KICK_SPEED * dx, d),
            y: ball.vel.y + tdiv(KICK_SPEED * dy, d),
        },
        radius: ball.radius,
    }
}

/// One collision of two overlapping bodies: separate the centers to the sum
/// of the radii (magnitudes rounded up, correction split evenly), then,
/// unless the bodies were already separating, exchange the restitution-1/2
/// impulse along the center line.  Meaningful when `0 < dist2 < rsum^2`.
pub open spec fn spec_collide(a: BodyV, b: BodyV) -> (BodyV, BodyV) {
    let dx = a.x - b.x;
    let dy = a.y - b.y;
    let d2 = dist2(a, b);
    let d = sqrt_floor(d2);
    let rs = rsum(a, b);
    let tx = cdiv_mag(dx * rs, d);
    let ty = cdiv_mag(dy * rs, d);
    let mx = tx - dx;
    let my = ty - dy;
    let hax = tdiv(mx, 2);
    let hay = tdiv(my, 2);
    let ax = a.x + hax;
    let ay = a.y + hay;
    let bx = b.x - (mx - hax);
    let by = b.y - (my - hay);
    let dot = closing_dot(a, b);
    if dot > 0 {
        (
            BodyV { x: ax, y: ay, vel: a.vel, radius: a.radius },
            BodyV { x: bx, y: by, vel: b.vel, radius: b.radius },
        )
    } else {
        let ix = tdiv(-3 * dot * dx, 4 * d2);
        let iy = tdiv(-3 * dot * dy, 4 * d2);
        (
            BodyV {
                x: ax,
                y: ay,
                vel: Vel2 { x: a.vel.x + ix, y: a.vel.y + iy },
                radius: a.radius,
            },
            BodyV {
                x: bx,
                y: by,
                vel: Vel2 { x: b.vel.x - ix, y: b.vel.y - iy },
                radius: b.radius,
            },
        )
    }
}

/// One full pass over a pair: nothing happens unless the bodies strictly
/// overlap; two bodies whose centers coincide are left untouched, so that
/// no center line exists to divide by.  On a player/ball pair with the
/// action input held, the kick lands before the collision is resolved.
pub open spec fn spec_resolve_pair(a: BodyV, b: BodyV, shoot: bool) -> (BodyV, BodyV) {
    let d2 = dist2(a, b);
    let rs = rsum(a, b);
    if 0 < d2 && d2 < rs * rs {
        let b1 = if shoot {
            spec_kick(a, b)
        } else {
            b
        };
        spec_collide(a, b1)
    } else {
        (a, b)
    }
}

/// Add the kick to the ball's velocity, directed from the player towards
/// the ball.  Relies on the caller to rule out coinciding centers.
pub fn kick_ball(player: &Body, ball: &mut Body)
    requires
        dist2(player@, old(ball)@) > 0,
        iabs(player@.x) <= 200000000,
        iabs(player@.y) <= 200000000,
        iabs(old(ball)@.x) <= 200000000,
        iabs(old(ball)@.y) <= 200000000,
        iabs(old(ball)@.vel.x) <= 200000000,
        iabs(old(ball)@.vel.y) <= 200000000,
    ensures
        final(ball)@ == spec_kick(player@, old(ball)@),
        iabs(final(ball)@.vel.x) <= iabs(old(ball)@.vel.x) + KICK_SPEED,
        iabs(final(ball)@.vel.y) <= iabs(old(ball)@.vel.y) + KICK_SPEED,
{
    let dx = ball.x - player.x;
    let dy = ball.y - player.y;
    proof {
        assert(0 <= (dx as int) * (dx as int) <= 160000000000000000 && 0 <= (dy as int) * (
        dy as int) <= 160000000000000000) by (nonlinear_arith)
            requires
                iabs(dx as int) <= 400000000,
                iabs(dy as int) <= 400000000,
        ;
    }
    let d2 = dx * dx + dy * dy;
    proof {
        assert((ball@.x - player@.x) * (ball@.x - player@.x) == (player@.x - ball@.x) * (
        player@.x - ball@.x) && (ball@.y - player@.y) * (ball@.y - player@.y) == (player@.y
            - ball@.y) * (player@.y - ball@.y)) by (nonlinear_arith);
        assert(d2 == dist2(player@, ball@));
        lemma_delta_within_sqrt(dx as int, dy as int, d2 as int, sqrt_floor(d2 as int));
    }
    let d = isqrt(d2 as u64) as i64;
    proof {
        assert(iabs(KICK_SPEED * (dx as int)) <= (d as int) * KICK_SPEED) by (nonlinear_arith)
            requires
                iabs(dx as int) <= d as int,
                d as int >= 1,
        ;
        assert(iabs(KICK_SPEED * (dy as int)) <= (d as int) * KICK_SPEED) by (nonlinear_arith)
            requires
                iabs(dy as int) <= d as int,
                d as int >= 1,
        ;
        lemma_tdiv_le(KICK_SPEED * (dx as int), d as int, KICK_SPEED as int);
        lemma_tdiv_le(KICK_SPEED * (dy as int), d as int, KICK_SPEED as int);
    }
    let kx = div_trunc((KICK_SPEED as i128) * (dx as i128), d as i128) as i64;
    let ky = div_trunc((KICK_SPEED as i128) * (dy as i128), d as i128) as i64;
    ball.vel.x = ball.vel.x + kx;
    ball.vel.y = ball.vel.y + ky;
}

/// Resolve one collision of two strictly overlapping bodies: push the
/// centers apart to the sum of the radii and exchange the impulse, exactly
/// as `spec_collide` states.
#[verifier::rlimit(100)]
pub fn handle_collision(a: &mut Body, b: &mut Body)
    requires
        dist2(old(a)@, old(b)@) > 0,
        dist2(old(a)@, old(b)@) < rsum(old(a)@, old(b)@) * rsum(old(a)@, old(b)@),
        1 <= old(a)@.radius <= 10000,
        1 <= old(b)@.radius <= 10000,
        iabs(old(a)@.x) <= 200000000,
        iabs(old(a)@.y) <= 200000000,
        iabs(old(b)@.x) <= 200000000,
        iabs(old(b)@.y) <= 200000000,
        iabs(old(a)@.vel.x) <= 200000000,
        iabs(old(a)@.vel.y) <= 200000000,
        iabs(old(b)@.vel.x) <= 200000000,
        iabs(old(b)@.vel.y) <= 200000000,
    ensures
        final(a)@ == spec_collide(old(a)@, old(b)@).0,
        final(b)@ == spec_collide(old(a)@, old(b)@).1,
        iabs(final(a)@.x - old(a)@.x) <= 2 * rsum(old(a)@, old(b)@),
        iabs(final(a)@.y - old(a)@.y) <= 2 * rsum(old(a)@, old(b)@),
        iabs(final(b)@.x - old(b)@.x) <= 2 * rsum(old(a)@, old(b)@),
        iabs(final(b)@.y - old(b)@.y) <= 2 * rsum(old(a)@, old(b)@),
        iabs(final(a)@.vel.x) <= 5 * vmax2(old(a)@, old(b)@),
        iabs(final(a)@.vel.y) <= 5 * vmax2(old(a)@, old(b)@),
        iabs(final(b)@.vel.x) <= 5 * vmax2(old(a)@, old(b)@),
        iabs(final(b)@.vel.y) <= 5 * vmax2(old(a)@, old(b)@),
{
    let ghost a0 = a@;
    let ghost b0 = b@;
    let dx = a.x - b.x;
    let dy = a.y - b.y;
    proof {
        assert(0 <= (dx as int) * (dx as int) <= 160000000000000000 && 0 <= (dy as int) * (
        dy as int) <= 160000000000000000) by (nonlinear_arith)
            requires
                iabs(dx as int) <= 400000000,
                iabs(dy as int) <= 400000000,
        ;
    }
    let d2 = dx * dx + dy * dy;
    let rs = a.radius + b.radius;
    proof {
        assert(d2 == dist2(a0, b0));
        lemma_delta_within_sqrt(dx as int, dy as int, d2 as int, sqrt_floor(d2 as int));
    }
    let d = isqrt(d2 as u64) as i64;
    proof {
        assert(iabs((dx as int) * (rs as int)) <= (d as int) * (rs as int)) by (nonlinear_arith)
            requires
                iabs(dx as int) <= d as int,
                rs as int >= 2,
                d as int >= 1,
        ;
        assert(iabs((dy as int) * (rs as int)) <= (d as int) * (rs as int)) by (nonlinear_arith)
            requires
                iabs(dy as int) <= d as int,
                rs as int >= 2,
                d as int >= 1,
        ;
        lemma_cdiv_le((dx as int) * (rs as int), d as int, rs as int);
        lemma_cdiv_le((dy as int) * (rs as int), d as int, rs as int);
        assert(d < rs) by (nonlinear_arith)
            requires
                d as int >= 0,
                rs as int >= 0,
                (d as int) * (d as int) <= d2 as int,
                (d2 as int) < (rs as int) * (rs as int),
        ;
        assert(iabs((dx as int) * (rs as int)) <= 8000000000000000 && iabs((dy as int) * (
        rs as int)) <= 8000000000000000) by (nonlinear_arith)
            requires
                iabs(dx as int) <= 400000000,
                iabs(dy as int) <= 400000000,
                2 <= rs as int <= 20000,
        ;
    }
    let tx = div_ceil_mag((dx as i128) * (rs as i128), d as i128) as i64;
    let ty = div_ceil_mag((dy as i128) * (rs as i128), d as i128) as i64;
    let mx = tx - dx;
    let my = ty - dy;
    proof {
        lemma_tdiv_facts(mx as int, 2);
        lemma_tdiv_facts(my as int, 2);
        lemma_tdiv_le(mx as int, 2, iabs(mx as int));
        lemma_tdiv_le(my as int, 2, iabs(my as int));
    }
    let hax = div_trunc(mx as i128, 2) as i64;
    let hay = div_trunc(my as i128, 2) as i64;
    a.x = a.x + hax;
    a.y = a.y + hay;
    b.x = b.x - (mx - hax);
    b.y = b.y - (my - hay);
    let vx = a.vel.x - b.vel.x;
    let vy = a.vel.y - b.vel.y;
    proof {
        assert(iabs((vx as int) * (dx as int)) <= 160000000000000000 && iabs((vy as int) * (
        dy as int)) <= 160000000000000000) by (nonlinear_arith)
            requires
                iabs(vx as int) <= 400000000,
                iabs(vy as int) <= 400000000,
                iabs(dx as int) <= 400000000,
                iabs(dy as int) <= 400000000,
        ;
    }
    let dot = (vx as i128) * (dx as i128) + (vy as i128) * (dy as i128);
    proof {
        assert(dot == closing_dot(a0, b0));
    }
    if dot <= 0 {
        proof {
            assert(iabs(-3 * (dot as int) * (dx as int)) <= 400000000000000000000000000 && iabs(
                -3 * (dot as int) * (dy as int)) <= 400000000000000000000000000)
                by (nonlinear_arith)
                requires
                    iabs(dot as int) <= 320000000000000000,
                    iabs(dx as int) <= 400000000,
                    iabs(dy as int) <= 400000000,
            ;
            assert(iabs(-3 * (dot as int) * (dx as int)) <= 4 * (d2 as int) * (iabs(vx as int)
                + iabs(vy as int))) by (nonlinear_arith)
                requires
                    dot == (vx as int) * (dx as int) + (vy as int) * (dy as int),
                    d2 == (dx as int) * (dx as int) + (dy as int) * (dy as int),
                    d2 as int >= 1,
            ;
            assert(iabs(-3 * (dot as int) * (dy as int)) <= 4 * (d2 as int) * (iabs(vx as int)
                + iabs(vy as int))) by (nonlinear_arith)
                requires
                    dot == (vx as int) * (dx as int) + (vy as int) * (dy as int),
                    d2 == (dx as int) * (dx as int) + (dy as int) * (dy as int),
                    d2 as int >= 1,
            ;
            lemma_tdiv_le(
                -3 * (dot as int) * (dx as int),
                4 * (d2 as int),
                iabs(vx as int) + iabs(vy as int),
            );
            lemma_tdiv_le(
                -3 * (dot as int) * (dy as int),
                4 * (d2 as int),
                iabs(vx as int) + iabs(vy as int),
            );
        }
        let ix = div_trunc(-3 * dot * (dx as i128), 4 * (d2 as i128)) as i64;
        let iy = div_trunc(-3 * dot * (dy as i128), 4 * (d2 as i128)) as i64;
        a.vel.x = a.vel.x + ix;
        a.vel.y = a.vel.y + iy;
        b.vel.x = b.vel.x - ix;
        b.vel.y = b.vel.y - iy;
    }
}


/// Run one pair of the per-tick collision pass: resolve only when the two
/// bodies strictly overlap and their centers do not coincide, with the kick
/// landing first on a player/ball pair whose action input is held.
pub fn collide_pair(a: &mut Body, b: &mut Body, shoot: bool)
    requires
        1 <= old(a)@.radius <= 10000,
        1 <= old(b)@.radius <= 10000,
        iabs(old(a)@.x) <= 150000000,
        iabs(old(a)@.y) <= 150000000,
        iabs(old(b)@.x) <= 150000000,
        iabs(old(b)@.y) <= 150000000,
        iabs(old(a)@.vel.x) <= 150000000,
        iabs(old(a)@.vel.y) <= 150000000,
        iabs(old(b)@.vel.x) <= 150000000,
        iabs(old(b)@.vel.y) <= 150000000,
    ensures
        final(a)@ == spec_resolve_pair(old(a)@, old(b)@, shoot).0,
        final(b)@ == spec_resolve_pair(old(a)@, old(b)@, shoot).1,
        iabs(final(a)@.x - old(a)@.x) <= 2 * rsum(old(a)@, old(b)@),
        iabs(final(a)@.y - old(a)@.y) <= 2 * rsum(old(a)@, old(b)@),
        iabs(final(b)@.x - old(b)@.x) <= 2 * rsum(old(a)@, old(b)@),
        iabs(final(b)@.y - old(b)@.y) <= 2 * rsum(old(a)@, old(b)@),
        iabs(final(a)@.vel.x) <= 5 * (vmax2(old(a)@, old(b)@) + KICK_SPEED),
        iabs(final(a)@.vel.y) <= 5 * (vmax2(old(a)@, old(b)@) + KICK_SPEED),
        iabs(final(b)@.vel.x) <= 5 * (vmax2(old(a)@, old(b)@) + KICK_SPEED),
        iabs(final(b)@.vel.y) <= 5 * (vmax2(old(a)@, old(b)@) + KICK_SPEED),
        final(a)@.radius == old(a)@.radius,
        final(b)@.radius == old(b)@.radius,
{
    let ghost a0 = a@;
    let ghost b0 = b@;
    let dx = a.x - b.x;
    let dy = a.y - b.y;
    proof {
        assert(0 <= (dx as int) * (dx as int) <= 160000000000000000 && 0 <= (dy as int) * (
        dy as int) <= 160000000000000000) by (nonlinear_arith)
            requires
                iabs(dx as int) <= 400000000,
                iabs(dy as int) <= 400000000,
        ;
    }
    let d2 = dx * dx + dy * dy;
    let rs = a.radius + b.radius;
    proof {
        assert(0 <= (rs as int) * (rs as int) <= 400000000) by (nonlinear_arith)
            requires
                2 <= rs as int <= 20000,
        ;
    }
    if d2 > 0 && d2 < rs * rs {
        if shoot {
            kick_ball(a, b);
        }
        handle_collision(a, b);
    }
}

/// The dot product of the pair's relative velocity after the resolver with
/// the center line as it stood when the resolver ran.
pub open spec fn post_collide_dot(a: BodyV, b: BodyV) -> int {
    (spec_collide(a, b).0.vel.x - spec_collide(a, b).1.vel.x) * (a.x - b.x) + (spec_collide(
        a,
        b,
    ).0.vel.y - spec_collide(a, b).1.vel.y) * (a.y - b.y)
}

/// Separation: after the resolver runs on an overlapping pair, the centers
/// stand at least the sum of the radii apart, for every penetration depth.
/// The rounding of the positional correction always errs away from the
/// overlap, so no residual overlap survives.
pub proof fn lemma_separation(a: BodyV, b: BodyV)
    requires
        0 < dist2(a, b),
        dist2(a, b) < rsum(a, b) * rsum(a, b),
        rsum(a, b) >= 1,
    ensures
        dist2(spec_collide(a, b).0, spec_collide(a, b).1) >= rsum(a, b) * rsum(a, b),
{
    let dx = a.x - b.x;
    let dy = a.y - b.y;
    let d2 = dist2(a, b);
    let d = sqrt_floor(d2);
    let rs = rsum(a, b);
    let tx = cdiv_mag(dx * rs, d);
    let ty = cdiv_mag(dy * rs, d);
    lemma_delta_within_sqrt(dx, dy, d2, d);
    lemma_cdiv_facts(dx * rs, d);
    lemma_cdiv_facts(dy * rs, d);
    let a2 = spec_collide(a, b).0;
    let b2 = spec_collide(a, b).1;
    assert(a2.x - b2.x == tx && a2.y - b2.y == ty);
    assert(iabs(dx * rs) == iabs(dx) * rs && iabs(dy * rs) == iabs(dy) * rs) by (nonlinear_arith)
        requires
            rs >= 1,
    ;
    assert((d * d) * (tx * tx) >= (dx * dx) * (rs * rs)) by (nonlinear_arith)
        requires
            d >= 1,
            rs >= 1,
            d * iabs(tx) >= iabs(dx) * rs,
    ;
    assert((d * d) * (ty * ty) >= (dy * dy) * (rs * rs)) by (nonlinear_arith)
        requires
            d >= 1,
            rs >= 1,
            d * iabs(ty) >= iabs(dy) * rs,
    ;
    assert((d * d) * (tx * tx + ty * ty) >= (dx * dx + dy * dy) * (rs * rs)) by (nonlinear_arith)
        requires
            (d * d) * (tx * tx) >= (dx * dx) * (rs * rs),
            (d * d) * (ty * ty) >= (dy * dy) * (rs * rs),
    ;
    assert((dx * dx + dy * dy) * (rs * rs) >= (d * d) * (rs * rs)) by (nonlinear_arith)
        requires
            d * d <= dx * dx + dy * dy,
            rs >= 1,
    ;
    assert(tx * tx + ty * ty >= rs * rs) by (nonlinear_arith)
        requires
            d >= 1,
            (d * d) * (tx * tx + ty * ty) >= (d * d) * (rs * rs),
    ;
    assert(dist2(a2, b2) == tx * tx + ty * ty);
}

/// Momentum exchange, for a head-on pair of the equal inverse masses this
/// game uses.  While the bodies close in (`closing_dot <= 0`), the impulse
/// opposes the approach and never speeds it up; it at least halves the
/// closing rate, so once the closing rate clears the rounding grain of the
/// center line, its magnitude strictly drops.  While the bodies already
/// separate (`closing_dot > 0`), the impulse step leaves both velocities
/// untouched.
pub proof fn lemma_impulse_reduces_closing(a: BodyV, b: BodyV)
    requires
        0 < dist2(a, b),
    ensures
        closing_dot(a, b) > 0 ==> spec_collide(a, b).0.vel == a.vel && spec_collide(
            a,
            b,
        ).1.vel == b.vel,
        closing_dot(a, b) <= 0 ==> post_collide_dot(a, b) >= closing_dot(a, b),
        closing_dot(a, b) <= 0 ==> 2 * post_collide_dot(a, b) <= -closing_dot(a, b),
        closing_dot(a, b) <= 0 && -closing_dot(a, b) > 2 * (iabs(a.x - b.x) + iabs(a.y - b.y))
            ==> iabs(post_collide_dot(a, b)) < iabs(closing_dot(a, b)),
{
    let dx = a.x - b.x;
    let dy = a.y - b.y;
    let d2 = dist2(a, b);
    let dot = closing_dot(a, b);
    if dot <= 0 {
        let ix = tdiv(-3 * dot * dx, 4 * d2);
        let iy = tdiv(-3 * dot * dy, 4 * d2);
        lemma_tdiv_facts(-3 * dot * dx, 4 * d2);
        lemma_tdiv_facts(-3 * dot * dy, 4 * d2);
        assert(4 * d2 * (ix * dx) <= 3 * (-dot) * (dx * dx) && ix * dx >= 0 && 4 * d2 * (ix
            * dx) >= 3 * (-dot) * (dx * dx) - 4 * d2 * iabs(dx)) by (nonlinear_arith)
            requires
                d2 >= 1,
                dot <= 0,
                4 * d2 * iabs(ix) <= iabs(-3 * dot * dx),
                iabs(-3 * dot * dx) < 4 * d2 * (iabs(ix) + 1),
                -3 * dot * dx >= 0 ==> ix >= 0,
                -3 * dot * dx <= 0 ==> ix <= 0,
        ;
        assert(4 * d2 * (iy * dy) <= 3 * (-dot) * (dy * dy) && iy * dy >= 0 && 4 * d2 * (iy
            * dy) >= 3 * (-dot) * (dy * dy) - 4 * d2 * iabs(dy)) by (nonlinear_arith)
            requires
                d2 >= 1,
                dot <= 0,
                4 * d2 * iabs(iy) <= iabs(-3 * dot * dy),
                iabs(-3 * dot * dy) < 4 * d2 * (iabs(iy) + 1),
                -3 * dot * dy >= 0 ==> iy >= 0,
                -3 * dot * dy <= 0 ==> iy <= 0,
        ;
        let s = ix * dx + iy * dy;
        let sigma = iabs(dx) + iabs(dy);
        assert(4 * s <= 3 * (-dot) && 4 * s >= 3 * (-dot) - 4 * sigma) by (nonlinear_arith)
            requires
                d2 >= 1,
                d2 == dx * dx + dy * dy,
                s == ix * dx + iy * dy,
                sigma == iabs(dx) + iabs(dy),
                4 * d2 * (ix * dx) <= 3 * (-dot) * (dx * dx),
                4 * d2 * (iy * dy) <= 3 * (-dot) * (dy * dy),
                4 * d2 * (ix * dx) >= 3 * (-dot) * (dx * dx) - 4 * d2 * iabs(dx),
                4 * d2 * (iy * dy) >= 3 * (-dot) * (dy * dy) - 4 * d2 * iabs(dy),
        ;
        let nd = post_collide_dot(a, b);
        assert(nd == dot + 2 * s) by (nonlinear_arith)
            requires
                nd == (a.vel.x + ix - (b.vel.x - ix)) * dx + (a.vel.y + iy - (b.vel.y - iy))
                    * dy,
                dot == (a.vel.x - b.vel.x) * dx + (a.vel.y - b.vel.y) * dy,
                s == ix * dx + iy * dy,
        ;
    }
}

} // verus!
