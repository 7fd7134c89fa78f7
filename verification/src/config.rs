//! The fixed dimensions and speeds of the game.

use vstd::prelude::*;

verus! {

/// Thickness of a paddle, in pixels.
pub const PADDLE_THICKNESS: u8 = 2;

/// Length of a paddle along the vertical axis, in pixels.
pub const PADDLE_WIDTH: u8 = 8;

/// Width of the display, in pixels.
pub const SCREEN_WIDTH: u8 = 128;

/// Height of the display, in pixels.
pub const SCREEN_HEIGHT: u8 = 32;

/// How long the score is shown between two rounds, in milliseconds.
pub const SCORE_SCREEN_DELAY_MS: u16 = 2000;

/// Radius of the ball: 3 pixels, in fixed-point units.
pub const BALL_RADIUS: i64 = 3_000_000;

/// Horizontal speed of a served ball: 1.5 pixels per tick, in fixed-point units.
pub const INITIAL_VELOCITY: i64 = 1_500_000;

/// Vertical velocity of a served ball: 0.1 pixels per tick, in fixed-point units.
pub const SERVE_TILT: i64 = 100_000;

/// Factor by which a bounce off a paddle speeds the ball up: 1.015, in
/// fixed-point units.
pub const ACCELERATION_ON_BOUNCE: u32 = 1_015_000;

} // verus!
