// Whole-tick scenarios: kickoff layout, free motion, goal scoring, the
// win-and-reset transition, goal-mouth passthrough and the scoreboard.

use rustball::body::Body;
use rustball::consts::{
    ACCEL_STEP, BALL_RADIUS, CORNER_RADIUS, DAMP_STEP, FIELD_H, FIELD_W, GOAL_HALF_HEIGHT,
    HALF_H, HALF_W, KICKOFF_BLUE_X, KICKOFF_RED_X, KICK_SPEED, MAX_SPEED, PLAYER_RADIUS, UNIT,
    WIN_SCORE,
};
use rustball::motion::Velocity;
use rustball::score::{DisplayState, Score};
use rustball::sim::{InputState, SimState};

fn body(x: i64, y: i64, vx: i64, vy: i64, radius: i64) -> Body {
    Body { x, y, vel: Velocity { x: vx, y: vy }, radius }
}

fn state(red: Body, blue: Body, ball: Body, score_red: i32, score_blue: i32) -> SimState {
    SimState {
        red,
        blue,
        ball,
        score: Score { red: score_red, blue: score_blue },
        display: DisplayState::Board { red: score_red, blue: score_blue },
    }
}

#[test]
fn kickoff_layout() {
    let s = SimState::new();
    assert_eq!(s.red, body(-20000, 0, 0, 0, 2500));
    assert_eq!(s.blue, body(20000, 0, 0, 0, 2500));
    assert_eq!(s.ball, body(0, 0, 0, 0, 1000));
    assert_eq!(s.score, Score { red: 0, blue: 0 });
    assert!(s.within_limits());
    assert_eq!(s.display_text(), "Score: 0–0");
}

#[test]
fn free_tick_is_control_plus_integration() {
    let mut s = SimState::new();
    let mut input = InputState::idle();
    input.red_right = true;
    input.blue_up = true;
    s.tick(input);
    // One acceleration step, then one step of motion; the ball rests.
    assert_eq!(s.red.vel.x, 10);
    assert_eq!(s.red.x, -19990);
    assert_eq!(s.blue.vel.y, 10);
    assert_eq!(s.blue.y, 10);
    assert_eq!(s.ball, body(0, 0, 0, 0, 1000));
    assert_eq!(s.score, Score { red: 0, blue: 0 });
    assert_eq!(s.display_text(), "Score: 0–0");
}

#[test]
fn goal_scores_and_resets_the_layout() {
    // Ball at 511 pixels moving 2 pixels per tick: damping trims the
    // speed to 1.95, the center ends at 512.95 pixels, past the goal
    // line, and red scores.
    let mut s = state(
        body(-20000, 0, 0, 0, 2500),
        body(20000, 0, 0, 0, 2500),
        body(51100, 0, 200, 0, 1000),
        0,
        0,
    );
    s.tick(InputState::idle());
    assert_eq!(s.score, Score { red: 1, blue: 0 });
    assert_eq!(s.ball, body(0, 0, 0, 0, 1000));
    assert_eq!(s.red, body(-20000, 0, 0, 0, 2500));
    assert_eq!(s.blue, body(20000, 0, 0, 0, 2500));
    assert_eq!(s.display_text(), "Score: 1–0");
}

#[test]
fn goal_for_blue_on_the_left_edge() {
    let mut s = state(
        body(-20000, 0, 0, 0, 2500),
        body(20000, 0, 0, 0, 2500),
        body(-51100, 0, -200, 0, 1000),
        1,
        1,
    );
    s.tick(InputState::idle());
    assert_eq!(s.score, Score { red: 1, blue: 2 });
    assert_eq!(s.ball, body(0, 0, 0, 0, 1000));
    assert_eq!(s.display_text(), "Score: 1–2");
}

#[test]
fn win_resets_the_score_and_shows_the_winner() {
    // Red stands at 2; a third goal resets the score the same tick and
    // swaps the scoreboard for the winner line.
    let mut s = state(
        body(-20000, 0, 0, 0, 2500),
        body(20000, 0, 0, 0, 2500),
        body(51250, 0, 0, 0, 1000),
        2,
        0,
    );
    s.tick(InputState::idle());
    assert_eq!(s.score, Score { red: 0, blue: 0 });
    assert_eq!(s.display_text(), "Red Wins!");
    // The next tick scores nothing: the win branch does not re-trigger.
    s.tick(InputState::idle());
    assert_eq!(s.score, Score { red: 0, blue: 0 });
    assert_eq!(s.display_text(), "Red Wins!");
}

#[test]
fn blue_win_line() {
    let mut s = state(
        body(-20000, 0, 0, 0, 2500),
        body(20000, 0, 0, 0, 2500),
        body(-51250, 0, 0, 0, 1000),
        0,
        2,
    );
    s.tick(InputState::idle());
    assert_eq!(s.score, Score { red: 0, blue: 0 });
    assert_eq!(s.display_text(), "Blue Wins!");
}

#[test]
fn goal_mouth_passthrough_is_not_reflected() {
    // Crossing the right edge inside the goal mouth: the boundary stage
    // leaves the x velocity alone and no goal fires while the center is
    // short of the line.
    let mut s = state(
        body(-20000, 0, 0, 0, 2500),
        body(20000, 20000, 0, 0, 2500),
        body(50500, 5000, 200, 0, 1000),
        0,
        0,
    );
    s.tick(InputState::idle());
    assert_eq!(s.ball.x, 50695);
    assert_eq!(s.ball.vel.x, 195);
    assert_eq!(s.score, Score { red: 0, blue: 0 });
}

#[test]
fn crossing_outside_the_goal_mouth_is_reflected() {
    let mut s = state(
        body(-20000, 0, 0, 0, 2500),
        body(20000, 20000, 0, 0, 2500),
        body(50500, 15000, 200, 0, 1000),
        0,
        0,
    );
    s.tick(InputState::idle());
    assert_eq!(s.ball.x, 50695);
    assert_eq!(s.ball.vel.x, -195);
    assert_eq!(s.score, Score { red: 0, blue: 0 });
}

#[test]
fn scoreboard_text_shows_the_numeric_score() {
    let d = DisplayState::Board { red: 2, blue: 1 };
    assert_eq!(d.text(), "Score: 2–1");
}

#[test]
fn ticks_keep_the_state_within_limits() {
    let mut s = SimState::new();
    let mut input = InputState::idle();
    input.red_right = true;
    input.red_shoot = true;
    input.blue_left = true;
    for _ in 0..500 {
        assert!(s.within_limits());
        s.tick(input);
    }
}

#[test]
fn constants_form_the_advertised_contract() {
    assert_eq!(UNIT, 100);
    assert_eq!(FIELD_W, 1024 * UNIT);
    assert_eq!(FIELD_H, 768 * UNIT);
    assert_eq!(HALF_W, FIELD_W / 2);
    assert_eq!(HALF_H, FIELD_H / 2);
    assert_eq!(GOAL_HALF_HEIGHT, 100 * UNIT);
    assert_eq!(PLAYER_RADIUS, 25 * UNIT);
    assert_eq!(BALL_RADIUS, 10 * UNIT);
    assert_eq!(CORNER_RADIUS, 10 * UNIT);
    assert_eq!(MAX_SPEED, 3 * UNIT);
    assert_eq!(ACCEL_STEP, UNIT / 10);
    assert_eq!(DAMP_STEP, UNIT / 20);
    assert_eq!(KICK_SPEED, 5 * UNIT);
    assert_eq!(WIN_SCORE, 3);
    assert_eq!(KICKOFF_RED_X, -200 * UNIT);
    assert_eq!(KICKOFF_BLUE_X, 200 * UNIT);
}
