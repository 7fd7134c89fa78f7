//! Rules and physics of a two-player paddle-and-ball game for a 128x32
//! monochrome display: the ball's motion, the paddles, the tests of the ball
//! against paddles and walls, and the score of a match.
//!
//! The library decides and computes; it draws nothing and reads no input.
//! Its caller reads the players' input lines, hands the readings to
//! [`game::Match::steer`], and draws the shapes and the score line that the
//! library describes.
//!
//! Every length, position and velocity is a fixed-point number held in an
//! `i64`: one pixel is [`fixed::UNIT`] units, a millionth of a pixel each.
//! Sums and negations are exact within the range of `i64` and saturate at
//! its ends. A product or quotient that falls between two units is rounded
//! as the function that forms it says.

pub mod config;
pub mod fixed;
pub mod player;
pub mod ball;
pub mod score;
pub mod game;
pub mod laws;
