//! Simulation core of a two-player arcade soccer game: three circular bodies
//! (two paddles, one ball) on a bounded field with goal mouths on the left and
//! right edges.  All quantities are fixed-point integers in hundredths of a
//! pixel, so every rule of the game is stated and proved exactly.

pub mod body;
pub mod collide;
pub mod consts;
pub mod field;
pub mod motion;
pub mod num;
pub mod score;
pub mod sim;
