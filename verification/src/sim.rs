//! The simulation state and the per-tick pipeline.
//!
//! One value owns the three bodies, the score and the scoreboard; each tick
//! runs a fixed sequence over it: velocity control, integration, the three
//! collision pairs (red/ball, blue/ball, red/blue), boundary reflection,
//! corner posts, then the goal state machine.  Nothing else mutates the
//! state, and the order is part of the contract: collisions see
//! post-integration positions, the goal check sees post-reflection
//! positions.

use crate::body::{dist2, rsum, Body, BodyV};
use crate::collide::{collide_pair, spec_resolve_pair};
use crate::consts::{
    BALL_RADIUS, HALF_H, HALF_W, KICKOFF_BLUE_X, KICKOFF_RED_X, PLAYER_RADIUS, POS_LIMIT,
    VEL_LIMIT, WIN_SCORE,
};
use crate::field::{corner_collision, edge_collision, near_post, spec_corner, spec_edge};
use crate::motion::{
    control_ball_velocity, control_player_velocity, spec_control_player, spec_damp_ball, Vel2,
    Velocity,
};
use crate::num::iabs;
use crate::score::{display_chars, display_wf, DisplayState, DisplayV, Score, ScoreV};
use vstd::prelude::*;

verus! {

/// The input snapshot a tick consumes: one boolean per direction and per
/// action, for each of the two control schemes.  How keys map onto these
/// signals is the caller's concern.
#[derive(Clone, Copy, PartialEq, Eq, Structural, Debug)]
pub struct InputState {
    pub red_up: bool,
    pub red_down: bool,
    pub red_left: bool,
    pub red_right: bool,
    pub red_shoot: bool,
    pub blue_up: bool,
    pub blue_down: bool,
    pub blue_left: bool,
    pub blue_right: bool,
    pub blue_shoot: bool,
}

impl InputState {
    /// The snapshot with nothing pressed.
    pub fn idle() -> (r: InputState)
        ensures
            r == (InputState {
                red_up: false,
                red_down: false,
                red_left: false,
                red_right: false,
                red_shoot: false,
                blue_up: false,
                blue_down: false,
                blue_left: false,
                blue_right: false,
                blue_shoot: false,
            }),
    {
        InputState {
            red_up: false,
            red_down: false,
            red_left: false,
            red_right: false,
            red_shoot: false,
            blue_up: false,
            blue_down: false,
            blue_left: false,
            blue_right: false,
            blue_shoot: false,
        }
    }
}

/// The whole simulation: the three bodies, the score and the scoreboard.
#[derive(Clone, Copy, PartialEq, Eq, Structural, Debug)]
pub struct SimState {
    pub red: Body,
    pub blue: Body,
    pub ball: Body,
    pub score: Score,
    pub display: DisplayState,
}

/// The mathematical value of a `SimState`.
pub ghost struct SimV {
    pub red: BodyV,
    pub blue: BodyV,
    pub ball: BodyV,
    pub score: ScoreV,
    pub display: DisplayV,
}

impl View for SimState {
    type V = SimV;

    open spec fn view(&self) -> SimV {
        SimV {
            red: self.red@,
            blue: self.blue@,
            ball: self.ball@,
            score: self.score@,
            display: self.display@,
        }
    }
}

/// Structural well-formedness, kept by every tick: the radii mark the
/// roles and never change, and the score stays below `WIN_SCORE` (reaching
/// it resets the score the same tick).
pub open spec fn wf(s: SimV) -> bool {
    &&& s.red.radius == PLAYER_RADIUS
    &&& s.blue.radius == PLAYER_RADIUS
    &&& s.ball.radius == BALL_RADIUS
    &&& 0 <= s.score.red < WIN_SCORE
    &&& 0 <= s.score.blue < WIN_SCORE
    &&& display_wf(s.display)
}

/// Numeric headroom a tick asks of its caller, far outside anything the
/// rules produce: it exists only so the fixed-width arithmetic cannot
/// overflow.
pub open spec fn in_bounds(s: SimV) -> bool {
    &&& iabs(s.red.x) <= POS_LIMIT
    &&& iabs(s.red.y) <= POS_LIMIT
    &&& iabs(s.blue.x) <= POS_LIMIT
    &&& iabs(s.blue.y) <= POS_LIMIT
    &&& iabs(s.ball.x) <= POS_LIMIT
    &&& iabs(s.ball.y) <= POS_LIMIT
    &&& iabs(s.red.vel.x) <= VEL_LIMIT
    &&& iabs(s.red.vel.y) <= VEL_LIMIT
    &&& iabs(s.blue.vel.x) <= VEL_LIMIT
    &&& iabs(s.blue.vel.y) <= VEL_LIMIT
    &&& iabs(s.ball.vel.x) <= VEL_LIMIT
    &&& iabs(s.ball.vel.y) <= VEL_LIMIT
}

/// Stage one of a tick: the velocity controller.  Players take their
/// directional inputs; the ball is damped on both axes.
pub open spec fn spec_controlled(s: SimV, i: InputState) -> SimV {
    SimV {
        red: BodyV {
            x: s.red.x,
            y: s.red.y,
            vel: spec_control_player(s.red.vel, i.red_up, i.red_down, i.red_left, i.red_right),
            radius: s.red.radius,
        },
        blue: BodyV {
            x: s.blue.x,
            y: s.blue.y,
            vel: spec_control_player(
                s.blue.vel,
                i.blue_up,
                i.blue_down,
                i.blue_left,
                i.blue_right,
            ),
            radius: s.blue.radius,
        },
        ball: BodyV {
            x: s.ball.x,
            y: s.ball.y,
            vel: spec_damp_ball(s.ball.vel),
            radius: s.ball.radius,
        },
        score: s.score,
        display: s.display,
    }
}

/// One tick of integration: every position moves by exactly its velocity.
pub open spec fn spec_integrated(b: BodyV) -> BodyV {
    BodyV { x: b.x + b.vel.x, y: b.y + b.vel.y, vel: b.vel, radius: b.radius }
}

/// Stages one and two of a tick: velocity control, then integration of all
/// three bodies.
pub open spec fn spec_drive(s: SimV, i: InputState) -> SimV {
    let c = spec_controlled(s, i);
    SimV {
        red: spec_integrated(c.red),
        blue: spec_integrated(c.blue),
        ball: spec_integrated(c.ball),
        score: s.score,
        display: s.display,
    }
}

/// Stage three of a tick: the three collision pairs in their fixed order,
/// red/ball, blue/ball, red/blue.  A held action input kicks only on the
/// owning player's pair.
pub open spec fn spec_collisions(s: SimV, i: InputState) -> SimV {
    let p1 = spec_resolve_pair(s.red, s.ball, i.red_shoot);
    let p2 = spec_resolve_pair(s.blue, p1.1, i.blue_shoot);
    let p3 = spec_resolve_pair(p1.0, p2.0, false);
    SimV { red: p3.0, blue: p3.1, ball: p2.1, score: s.score, display: s.display }
}

/// Stages four and five of a tick: boundary reflection, then the corner
/// posts, each body on its own.
pub open spec fn spec_walls(s: SimV) -> SimV {
    SimV {
        red: spec_corner(spec_edge(s.red)),
        blue: spec_corner(spec_edge(s.blue)),
        ball: spec_corner(spec_edge(s.ball)),
        score: s.score,
        display: s.display,
    }
}

/// A body rewritten to a kickoff spot: at `(x, 0)` with zero velocity.
pub open spec fn reset_at(b: BodyV, x: int) -> BodyV {
    BodyV { x: x, y: 0, vel: Vel2 { x: 0, y: 0 }, radius: b.radius }
}

/// Stage six of a tick, the goal state machine.  A ball center at or past
/// the right edge scores for red; at or past the left edge, for blue.  A
/// goal increments the score, rewrites the scoreboard and restores the
/// kickoff layout.  If either side then stands at `WIN_SCORE`, the score
/// resets to 0-0 and the scoreboard shows the winner line instead.
pub open spec fn spec_goal(s: SimV) -> SimV {
    let g = if s.ball.x >= HALF_W {
        SimV {
            red: reset_at(s.red, KICKOFF_RED_X as int),
            blue: reset_at(s.blue, KICKOFF_BLUE_X as int),
            ball: reset_at(s.ball, 0),
            score: ScoreV { red: s.score.red + 1, blue: s.score.blue },
            display: DisplayV::Board { red: s.score.red + 1, blue: s.score.blue },
        }
    } else if s.ball.x <= -HALF_W {
        SimV {
            red: reset_at(s.red, KICKOFF_RED_X as int),
            blue: reset_at(s.blue, KICKOFF_BLUE_X as int),
            ball: reset_at(s.ball, 0),
            score: ScoreV { red: s.score.red, blue: s.score.blue + 1 },
            display: DisplayV::Board { red: s.score.red, blue: s.score.blue + 1 },
        }
    } else {
        s
    };
    if g.score.red == WIN_SCORE {
        SimV {
            red: g.red,
            blue: g.blue,
            ball: g.ball,
            score: ScoreV { red: 0, blue: 0 },
            display: DisplayV::RedWins,
        }
    } else if g.score.blue == WIN_SCORE {
        SimV {
            red: g.red,
            blue: g.blue,
            ball: g.ball,
            score: ScoreV { red: 0, blue: 0 },
            display: DisplayV::BlueWins,
        }
    } else {
        g
    }
}

/// One whole tick: control, integration, collisions, walls, goal check,
/// in that fixed order.
pub open spec fn spec_tick(s: SimV, i: InputState) -> SimV {
    spec_goal(spec_walls(spec_collisions(spec_drive(s, i), i)))
}

/// The state a match starts from: kickoff layout, 0-0, numeric scoreboard.
pub open spec fn spec_initial() -> SimV {
    SimV {
        red: BodyV {
            x: KICKOFF_RED_X as int,
            y: 0,
            vel: Vel2 { x: 0, y: 0 },
            radius: PLAYER_RADIUS as int,
        },
        blue: BodyV {
            x: KICKOFF_BLUE_X as int,
            y: 0,
            vel: Vel2 { x: 0, y: 0 },
            radius: PLAYER_RADIUS as int,
        },
        ball: BodyV { x: 0, y: 0, vel: Vel2 { x: 0, y: 0 }, radius: BALL_RADIUS as int },
        score: ScoreV { red: 0, blue: 0 },
        display: DisplayV::Board { red: 0, blue: 0 },
    }
}

impl SimState {
    /// Create the match-start state: players at their kickoff spots, ball
    /// in the center, everything at rest, score 0-0.
    pub fn new() -> (s: SimState)
        ensures
            s@ == spec_initial(),
            wf(s@),
            in_bounds(s@),
    {
        SimState {
            red: Body {
                x: KICKOFF_RED_X,
                y: 0,
                vel: Velocity { x: 0, y: 0 },
                radius: PLAYER_RADIUS,
            },
            blue: Body {
                x: KICKOFF_BLUE_X,
                y: 0,
                vel: Velocity { x: 0, y: 0 },
                radius: PLAYER_RADIUS,
            },
            ball: Body { x: 0, y: 0, vel: Velocity { x: 0, y: 0 }, radius: BALL_RADIUS },
            score: Score { red: 0, blue: 0 },
            display: DisplayState::Board { red: 0, blue: 0 },
        }
    }

    /// Whether the state sits inside the numeric headroom a tick asks for.
    pub fn within_limits(&self) -> (r: bool)
        ensures
            r == in_bounds(self@),
    {
        self.red.x <= POS_LIMIT && self.red.x >= -POS_LIMIT && self.red.y <= POS_LIMIT
            && self.red.y >= -POS_LIMIT && self.blue.x <= POS_LIMIT && self.blue.x >= -POS_LIMIT
            && self.blue.y <= POS_LIMIT && self.blue.y >= -POS_LIMIT && self.ball.x <= POS_LIMIT
            && self.ball.x >= -POS_LIMIT && self.ball.y <= POS_LIMIT && self.ball.y >= -POS_LIMIT
            && self.red.vel.x <= VEL_LIMIT && self.red.vel.x >= -VEL_LIMIT
            && self.red.vel.y <= VEL_LIMIT && self.red.vel.y >= -VEL_LIMIT
            && self.blue.vel.x <= VEL_LIMIT && self.blue.vel.x >= -VEL_LIMIT
            && self.blue.vel.y <= VEL_LIMIT && self.blue.vel.y >= -VEL_LIMIT
            && self.ball.vel.x <= VEL_LIMIT && self.ball.vel.x >= -VEL_LIMIT
            && self.ball.vel.y <= VEL_LIMIT && self.ball.vel.y >= -VEL_LIMIT
    }

    /// The current scoreboard line.
    pub fn display_text(&self) -> (r: String)
        requires
            display_wf(self@.display),
        ensures
            r@ == display_chars(self@.display),
    {
        self.display.text()
    }

    /// The goal state machine, run once at the end of every tick, exactly
    /// as `spec_goal` states.
    pub fn goal_step(&mut self)
        requires
            0 <= old(self)@.score.red < WIN_SCORE,
            0 <= old(self)@.score.blue < WIN_SCORE,
        ensures
            final(self)@ == spec_goal(old(self)@),
    {
        if self.ball.x >= HALF_W {
            self.score.red = self.score.red + 1;
            self.display = DisplayState::Board { red: self.score.red, blue: self.score.blue };
            self.ball.x = 0;
            self.ball.y = 0;
            self.ball.vel.x = 0;
            self.ball.vel.y = 0;
            self.red.x = KICKOFF_RED_X;
            self.red.y = 0;
            self.red.vel.x = 0;
            self.red.vel.y = 0;
            self.blue.x = KICKOFF_BLUE_X;
            self.blue.y = 0;
            self.blue.vel.x = 0;
            self.blue.vel.y = 0;
        } else if self.ball.x <= -HALF_W {
            self.score.blue = self.score.blue + 1;
            self.display = DisplayState::Board { red: self.score.red, blue: self.score.blue };
            self.ball.x = 0;
            self.ball.y = 0;
            self.ball.vel.x = 0;
            self.ball.vel.y = 0;
            self.red.x = KICKOFF_RED_X;
            self.red.y = 0;
            self.red.vel.x = 0;
            self.red.vel.y = 0;
            self.blue.x = KICKOFF_BLUE_X;
            self.blue.y = 0;
            self.blue.vel.x = 0;
            self.blue.vel.y = 0;
        }
        if self.score.red == WIN_SCORE {
            self.score.red = 0;
            self.score.blue = 0;
            self.display = DisplayState::RedWins;
        } else if self.score.blue == WIN_SCORE {
            self.score.red = 0;
            self.score.blue = 0;
            self.display = DisplayState::BlueWins;
        }
    }

    /// Stages one and two: the velocity controller, then integration.
    fn drive_stage(&mut self, input: InputState)
        requires
            in_bounds(old(self)@),
        ensures
            final(self)@ == spec_drive(old(self)@, input),
            iabs(final(self)@.red.x) <= POS_LIMIT + VEL_LIMIT,
            iabs(final(self)@.red.y) <= POS_LIMIT + VEL_LIMIT,
            iabs(final(self)@.blue.x) <= POS_LIMIT + VEL_LIMIT,
            iabs(final(self)@.blue.y) <= POS_LIMIT + VEL_LIMIT,
            iabs(final(self)@.ball.x) <= POS_LIMIT + VEL_LIMIT,
            iabs(final(self)@.ball.y) <= POS_LIMIT + VEL_LIMIT,
            iabs(final(self)@.red.vel.x) <= VEL_LIMIT,
            iabs(final(self)@.red.vel.y) <= VEL_LIMIT,
            iabs(final(self)@.blue.vel.x) <= VEL_LIMIT,
            iabs(final(self)@.blue.vel.y) <= VEL_LIMIT,
            iabs(final(self)@.ball.vel.x) <= VEL_LIMIT,
            iabs(final(self)@.ball.vel.y) <= VEL_LIMIT,
    {
        control_player_velocity(
            &mut self.red.vel,
            input.red_up,
            input.red_down,
            input.red_left,
            input.red_right,
        );
        control_player_velocity(
            &mut self.blue.vel,
            input.blue_up,
            input.blue_down,
            input.blue_left,
            input.blue_right,
        );
        control_ball_velocity(&mut self.ball.vel);
        self.red.integrate();
        self.blue.integrate();
        self.ball.integrate();
    }

    /// Stage three: the three collision pairs in their fixed order.
    fn collision_stage(&mut self, input: InputState)
        requires
            old(self)@.red.radius == PLAYER_RADIUS,
            old(self)@.blue.radius == PLAYER_RADIUS,
            old(self)@.ball.radius == BALL_RADIUS,
            iabs(old(self)@.red.x) <= POS_LIMIT + VEL_LIMIT,
            iabs(old(self)@.red.y) <= POS_LIMIT + VEL_LIMIT,
            iabs(old(self)@.blue.x) <= POS_LIMIT + VEL_LIMIT,
            iabs(old(self)@.blue.y) <= POS_LIMIT + VEL_LIMIT,
            iabs(old(self)@.ball.x) <= POS_LIMIT + VEL_LIMIT,
            iabs(old(self)@.ball.y) <= POS_LIMIT + VEL_LIMIT,
            iabs(old(self)@.red.vel.x) <= VEL_LIMIT,
            iabs(old(self)@.red.vel.y) <= VEL_LIMIT,
            iabs(old(self)@.blue.vel.x) <= VEL_LIMIT,
            iabs(old(self)@.blue.vel.y) <= VEL_LIMIT,
            iabs(old(self)@.ball.vel.x) <= VEL_LIMIT,
            iabs(old(self)@.ball.vel.y) <= VEL_LIMIT,
        ensures
            final(self)@ == spec_collisions(old(self)@, input),
            final(self)@.red.radius == old(self)@.red.radius,
            final(self)@.blue.radius == old(self)@.blue.radius,
            final(self)@.ball.radius == old(self)@.ball.radius,
            iabs(final(self)@.red.x) <= POS_LIMIT + VEL_LIMIT + 24000,
            iabs(final(self)@.red.y) <= POS_LIMIT + VEL_LIMIT + 24000,
            iabs(final(self)@.blue.x) <= POS_LIMIT + VEL_LIMIT + 24000,
            iabs(final(self)@.blue.y) <= POS_LIMIT + VEL_LIMIT + 24000,
            iabs(final(self)@.ball.x) <= POS_LIMIT + VEL_LIMIT + 24000,
            iabs(final(self)@.ball.y) <= POS_LIMIT + VEL_LIMIT + 24000,
            iabs(final(self)@.red.vel.x) <= 150000000,
            iabs(final(self)@.red.vel.y) <= 150000000,
            iabs(final(self)@.blue.vel.x) <= 150000000,
            iabs(final(self)@.blue.vel.y) <= 150000000,
            iabs(final(self)@.ball.vel.x) <= 150000000,
            iabs(final(self)@.ball.vel.y) <= 150000000,
    {
        collide_pair(&mut self.red, &mut self.ball, input.red_shoot);
        collide_pair(&mut self.blue, &mut self.ball, input.blue_shoot);
        collide_pair(&mut self.red, &mut self.blue, false);
    }

    /// Stages four and five: boundary reflection, then the corner posts.
    fn wall_stage(&mut self)
        requires
            1 <= old(self)@.red.radius <= 10000,
            1 <= old(self)@.blue.radius <= 10000,
            1 <= old(self)@.ball.radius <= 10000,
            iabs(old(self)@.red.x) <= 200000000,
            iabs(old(self)@.red.y) <= 200000000,
            iabs(old(self)@.blue.x) <= 200000000,
            iabs(old(self)@.blue.y) <= 200000000,
            iabs(old(self)@.ball.x) <= 200000000,
            iabs(old(self)@.ball.y) <= 200000000,
            iabs(old(self)@.red.vel.x) <= 1000000000,
            iabs(old(self)@.red.vel.y) <= 1000000000,
            iabs(old(self)@.blue.vel.x) <= 1000000000,
            iabs(old(self)@.blue.vel.y) <= 1000000000,
            iabs(old(self)@.ball.vel.x) <= 1000000000,
            iabs(old(self)@.ball.vel.y) <= 1000000000,
        ensures
            final(self)@ == spec_walls(old(self)@),
    {
        edge_collision(&mut self.red);
        edge_collision(&mut self.blue);
        edge_collision(&mut self.ball);
        corner_collision(&mut self.red);
        corner_collision(&mut self.blue);
        corner_collision(&mut self.ball);
    }

    /// Advance the simulation by one tick on the given input snapshot,
    /// exactly as `spec_tick` states, and keep the state well formed.
    #[verifier::rlimit(100)]
    pub fn tick(&mut self, input: InputState)
        requires
            wf(old(self)@),
            in_bounds(old(self)@),
        ensures
            final(self)@ == spec_tick(old(self)@, input),
            wf(final(self)@),
    {
        let ghost s0 = self@;
        self.drive_stage(input);
        self.collision_stage(input);
        self.wall_stage();
        proof {
            assert(self@ == spec_walls(spec_collisions(spec_drive(s0, input), input)));
        }
        self.goal_step();
    }
}

/// A body that stands strictly inside the field's outer rectangle, clear
/// of every edge by its own radius.
pub open spec fn inside_field(b: BodyV) -> bool {
    &&& b.x + b.radius < HALF_W
    &&& b.x - b.radius > -HALF_W
    &&& b.y + b.radius < HALF_H
    &&& b.y - b.radius > -HALF_H
}

/// A body out of reach of all four corner posts.
pub open spec fn clear_of_posts(b: BodyV) -> bool {
    &&& !near_post(b, 0)
    &&& !near_post(b, 1)
    &&& !near_post(b, 2)
    &&& !near_post(b, 3)
}

/// A state in which nothing interacts: no pair overlaps, every body is
/// inside the field and clear of the posts, and the ball is short of both
/// goal lines.
pub open spec fn no_contacts(s: SimV) -> bool {
    &&& dist2(s.red, s.ball) >= rsum(s.red, s.ball) * rsum(s.red, s.ball)
    &&& dist2(s.blue, s.ball) >= rsum(s.blue, s.ball) * rsum(s.blue, s.ball)
    &&& dist2(s.red, s.blue) >= rsum(s.red, s.blue) * rsum(s.red, s.blue)
    &&& inside_field(s.red)
    &&& inside_field(s.blue)
    &&& inside_field(s.ball)
    &&& clear_of_posts(s.red)
    &&& clear_of_posts(s.blue)
    &&& clear_of_posts(s.ball)
    &&& -HALF_W < s.ball.x < HALF_W
}

/// Integration correctness: on a tick in which nothing interacts (no
/// overlap, no wall or post contact, no goal, no pending win), the tick is
/// exactly control plus integration, so every post-tick position is the
/// prior position plus the post-tick velocity.
pub proof fn lemma_tick_free_motion(s: SimV, i: InputState)
    requires
        no_contacts(spec_drive(s, i)),
        s.score.red != WIN_SCORE,
        s.score.blue != WIN_SCORE,
    ensures
        spec_tick(s, i) == spec_drive(s, i),
        spec_tick(s, i).red.x == s.red.x + spec_tick(s, i).red.vel.x,
        spec_tick(s, i).red.y == s.red.y + spec_tick(s, i).red.vel.y,
        spec_tick(s, i).blue.x == s.blue.x + spec_tick(s, i).blue.vel.x,
        spec_tick(s, i).blue.y == s.blue.y + spec_tick(s, i).blue.vel.y,
        spec_tick(s, i).ball.x == s.ball.x + spec_tick(s, i).ball.vel.x,
        spec_tick(s, i).ball.y == s.ball.y + spec_tick(s, i).ball.vel.y,
{
    let d = spec_drive(s, i);
    assert(spec_collisions(d, i) == d);
    assert(spec_walls(d) == d);
    assert(spec_goal(d) == d);
}

} // verus!
