// Physics stages on concrete values: integration, damping, velocity
// control, collision resolution, kicks, edges and corner posts.
// All lengths are in hundredths of a pixel.

use rustball::body::Body;
use rustball::collide::{collide_pair, handle_collision};
use rustball::field::{corner_collision, edge_collision};
use rustball::motion::{control_ball_velocity, control_player_velocity, Velocity};

fn body(x: i64, y: i64, vx: i64, vy: i64, radius: i64) -> Body {
    Body { x, y, vel: Velocity { x: vx, y: vy }, radius }
}

#[test]
fn integration_moves_by_exactly_the_velocity() {
    let mut b = body(10000, 20000, 200, -300, 1000);
    b.integrate();
    assert_eq!(b.x, 10200);
    assert_eq!(b.y, 19700);
    assert_eq!(b.vel.x, 200);
    assert_eq!(b.vel.y, -300);
}

#[test]
fn integration_reaches_the_goal_line() {
    // A ball at 511 pixels moving 2 pixels per tick ends past the 512
    // pixel goal line.
    let mut b = body(51100, 0, 200, 0, 1000);
    b.integrate();
    assert_eq!(b.x, 51300);
    assert!(b.x >= 51200);
}

#[test]
fn damping_converges_to_zero_within_sixty_ticks() {
    let mut v = Velocity { x: 300, y: -300 };
    for _ in 0..60 {
        control_ball_velocity(&mut v);
    }
    assert_eq!(v.x, 0);
    assert_eq!(v.y, 0);
}

#[test]
fn damping_never_changes_sign() {
    let mut v = Velocity { x: 7, y: -7 };
    control_ball_velocity(&mut v);
    assert_eq!(v.x, 2);
    assert_eq!(v.y, -2);
    control_ball_velocity(&mut v);
    assert_eq!(v.x, 0);
    assert_eq!(v.y, 0);
    control_ball_velocity(&mut v);
    assert_eq!(v.x, 0);
    assert_eq!(v.y, 0);
}

#[test]
fn damping_stops_exactly_at_zero_from_below_one_step() {
    let mut v = Velocity { x: 3, y: -4 };
    control_ball_velocity(&mut v);
    assert_eq!(v.x, 0);
    assert_eq!(v.y, 0);
}

#[test]
fn control_accelerates_and_clamps_at_max_speed() {
    let mut v = Velocity { x: 0, y: 0 };
    control_player_velocity(&mut v, true, false, true, false);
    assert_eq!(v.y, 10);
    assert_eq!(v.x, -10);
    let mut w = Velocity { x: 295, y: -295 };
    control_player_velocity(&mut w, false, true, false, true);
    assert_eq!(w.x, 300);
    assert_eq!(w.y, -300);
}

#[test]
fn control_damps_axes_without_input() {
    let mut v = Velocity { x: 100, y: -100 };
    control_player_velocity(&mut v, false, false, false, false);
    assert_eq!(v.x, 95);
    assert_eq!(v.y, -95);
}

#[test]
fn collision_separates_overlapping_pair() {
    // Player at the origin, ball 30 pixels to the right: 5 pixels of
    // overlap against the 35 pixel radius sum.
    let mut red = body(0, 0, 0, 0, 2500);
    let mut ball = body(3000, 0, 0, 0, 1000);
    handle_collision(&mut red, &mut ball);
    assert_eq!(red.x, -250);
    assert_eq!(ball.x, 3250);
    let dx = ball.x - red.x;
    assert!(dx * dx >= 3500 * 3500);
}

#[test]
fn collision_impulse_on_head_on_pair() {
    // Head-on: the player closes at 1 pixel per tick; restitution 1/2
    // leaves the pair separating at half the closing speed.
    let mut red = body(0, 0, 100, 0, 2500);
    let mut ball = body(3000, 0, 0, 0, 1000);
    handle_collision(&mut red, &mut ball);
    assert_eq!(red.vel.x, 25);
    assert_eq!(ball.vel.x, 75);
    assert_eq!(red.vel.y, 0);
    assert_eq!(ball.vel.y, 0);
}

#[test]
fn collision_skips_impulse_on_separating_pair() {
    let mut red = body(0, 0, -100, 0, 2500);
    let mut ball = body(3000, 0, 100, 0, 1000);
    handle_collision(&mut red, &mut ball);
    // Velocities untouched, positions still corrected.
    assert_eq!(red.vel.x, -100);
    assert_eq!(ball.vel.x, 100);
    assert_eq!(red.x, -250);
    assert_eq!(ball.x, 3250);
}

#[test]
fn pair_is_left_alone_without_overlap() {
    let mut red = body(0, 0, 50, 0, 2500);
    let mut ball = body(10000, 0, -50, 0, 1000);
    collide_pair(&mut red, &mut ball, false);
    assert_eq!(red, body(0, 0, 50, 0, 2500));
    assert_eq!(ball, body(10000, 0, -50, 0, 1000));
}

#[test]
fn coinciding_centers_are_left_alone() {
    let mut red = body(500, 500, 10, 20, 2500);
    let mut ball = body(500, 500, -10, -20, 1000);
    collide_pair(&mut red, &mut ball, false);
    assert_eq!(red, body(500, 500, 10, 20, 2500));
    assert_eq!(ball, body(500, 500, -10, -20, 1000));
}

#[test]
fn kick_sends_the_ball_away_from_the_player() {
    // Ball 20 pixels right of the player, well inside contact range; the
    // kick adds 5 pixels per tick straight along the center line, after
    // which the pair is separating and no impulse follows.
    let mut red = body(0, 0, 0, 0, 2500);
    let mut ball = body(2000, 0, 0, 0, 1000);
    collide_pair(&mut red, &mut ball, true);
    assert_eq!(ball.vel.x, 500);
    assert_eq!(ball.vel.y, 0);
    assert_eq!(red.vel.x, 0);
    assert_eq!(red.x, -750);
    assert_eq!(ball.x, 2750);
}

#[test]
fn kick_direction_follows_the_center_line() {
    // Ball straight above the player: the kick is vertical.
    let mut red = body(0, 0, 0, 0, 2500);
    let mut ball = body(0, 2000, 0, 0, 1000);
    collide_pair(&mut red, &mut ball, true);
    assert_eq!(ball.vel.x, 0);
    assert_eq!(ball.vel.y, 500);
}

#[test]
fn edge_reflects_players_everywhere() {
    // A player touching the right edge inside the goal mouth still
    // rebounds: players never pass through.
    let mut red = body(49000, 0, 100, 0, 2500);
    edge_collision(&mut red);
    assert_eq!(red.vel.x, -100);
    assert_eq!(red.x, 49000);
}

#[test]
fn edge_lets_the_ball_into_the_goal_mouth() {
    // A ball crossing the right edge with its center inside the goal
    // mouth's vertical extent keeps its velocity: the scoring chance is
    // the goal machine's to take.
    let mut ball = body(50500, 5000, 100, 0, 1000);
    edge_collision(&mut ball);
    assert_eq!(ball.vel.x, 100);
    assert_eq!(ball.x, 50500);
}

#[test]
fn edge_reflects_the_ball_outside_the_goal_mouth() {
    let mut ball = body(50500, 15000, 100, 0, 1000);
    edge_collision(&mut ball);
    assert_eq!(ball.vel.x, -100);
}

#[test]
fn corner_post_inverts_both_components() {
    // Ball 15 pixels from the top right post center, well within the 20
    // pixel contact range: both components flip whatever the angle.
    let mut ball = body(49700, 10000, 50, -30, 1000);
    corner_collision(&mut ball);
    assert_eq!(ball.vel.x, -50);
    assert_eq!(ball.vel.y, 30);
    assert_eq!(ball.x, 49700);
    assert_eq!(ball.y, 10000);
}

#[test]
fn corner_post_contact_range_boundary() {
    // Exactly 20 pixels away still bounces; 21 pixels away does not.
    let mut at_range = body(51200 - 2000, 10000, 10, 10, 1000);
    corner_collision(&mut at_range);
    assert_eq!(at_range.vel.x, -10);
    assert_eq!(at_range.vel.y, -10);
    let mut outside = body(51200 - 2100, 10000, 10, 10, 1000);
    corner_collision(&mut outside);
    assert_eq!(outside.vel.x, 10);
    assert_eq!(outside.vel.y, 10);
}

#[test]
fn collision_separates_along_a_diagonal() {
    // Player at the origin, ball up-right at (21, 21) pixels: the center
    // distance is about 29.7 pixels against a 35 pixel radius sum.  The
    // correction rounds the magnitude up, so the pair ends separated.
    let mut red = body(0, 0, 0, 0, 2500);
    let mut ball = body(2100, 2100, 0, 0, 1000);
    handle_collision(&mut red, &mut ball);
    assert_eq!((red.x, red.y), (-188, -188));
    assert_eq!((ball.x, ball.y), (2288, 2288));
    let dx = ball.x - red.x;
    let dy = ball.y - red.y;
    assert!(dx * dx + dy * dy >= 3500 * 3500);
}
