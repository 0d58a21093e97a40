//! The match score and the scoreboard display.
//!
//! The score is mutated only by the goal state machine: a goal increments
//! one side and rewrites the scoreboard; reaching `WIN_SCORE` resets the
//! score to 0-0 the same tick and replaces the scoreboard with the winner
//! line, which then stands until the next goal.

use crate::consts::WIN_SCORE;
use vstd::prelude::*;
use vstd::string::StringExecFns;

verus! {

/// The match score: goals for red and for blue, each in `0 .. WIN_SCORE`
/// between ticks.
#[derive(Clone, Copy, PartialEq, Eq, Structural, Debug)]
pub struct Score {
    pub red: i32,
    pub blue: i32,
}

/// The mathematical value of a `Score`.
pub ghost struct ScoreV {
    pub red: int,
    pub blue: int,
}

impl View for Score {
    type V = ScoreV;

    open spec fn view(&self) -> ScoreV {
        ScoreV { red: self.red as int, blue: self.blue as int }
    }
}

/// What the scoreboard shows: the numeric score, or a winner line on the
/// tick a side reaches `WIN_SCORE` and until the next goal.
#[derive(Clone, Copy, PartialEq, Eq, Structural, Debug)]
pub enum DisplayState {
    Board { red: i32, blue: i32 },
    RedWins,
    BlueWins,
}

/// The mathematical value of a `DisplayState`.
pub ghost enum DisplayV {
    Board { red: int, blue: int },
    RedWins,
    BlueWins,
}

impl View for DisplayState {
    type V = DisplayV;

    open spec fn view(&self) -> DisplayV {
        match *self {
            DisplayState::Board { red, blue } => DisplayV::Board {
                red: red as int,
                blue: blue as int,
            },
            DisplayState::RedWins => DisplayV::RedWins,
            DisplayState::BlueWins => DisplayV::BlueWins,
        }
    }
}

/// A scoreboard value the state machine can produce: numbers on the board
/// stay below `WIN_SCORE`, since reaching it swaps in the winner line.
pub open spec fn display_wf(d: DisplayV) -> bool {
    match d {
        DisplayV::Board { red, blue } => 0 <= red < WIN_SCORE && 0 <= blue < WIN_SCORE,
        DisplayV::RedWins => true,
        DisplayV::BlueWins => true,
    }
}

/// The single digit a score below `WIN_SCORE` shows on the board.
pub open spec fn digit_chars(n: int) -> Seq<char> {
    if n == 0 {
        "0"@
    } else if n == 1 {
        "1"@
    } else {
        "2"@
    }
}

/// The exact text of the scoreboard.
pub open spec fn display_chars(d: DisplayV) -> Seq<char> {
    match d {
        DisplayV::Board { red, blue } => "Score: "@ + digit_chars(red) + "–"@ + digit_chars(
            blue,
        ),
        DisplayV::RedWins => "Red Wins!"@,
        DisplayV::BlueWins => "Blue Wins!"@,
    }
}

/// The digit a score below `WIN_SCORE` shows on the board.
fn digit_text(n: i32) -> (r: &'static str)
    requires
        0 <= n < WIN_SCORE,
    ensures
        r@ == digit_chars(n as int),
{
    if n == 0 {
        "0"
    } else if n == 1 {
        "1"
    } else {
        "2"
    }
}

impl DisplayState {
    /// Render the scoreboard line exactly as `display_chars` states:
    /// `Score: {red}-{blue}` with an en dash, or the winner line.
    pub fn text(&self) -> (r: String)
        requires
            display_wf(self@),
        ensures
            r@ == display_chars(self@),
    {
        match *self {
            DisplayState::Board { red, blue } => {
                let mut s = String::from_str("Score: ");
                s.append(digit_text(red));
                s.append("–");
                s.append(digit_text(blue));
                s
            },
            DisplayState::RedWins => String::from_str("Red Wins!"),
            DisplayState::BlueWins => String::from_str("Blue Wins!"),
        }
    }
}

} // verus!
