//! The ball: one tick of motion, and the tests against walls and paddles.

use vstd::prelude::*;
use crate::config::{
    ACCELERATION_ON_BOUNCE, BALL_RADIUS, PADDLE_THICKNESS, PADDLE_WIDTH, SCREEN_HEIGHT,
    SCREEN_WIDTH, SERVE_TILT,
};
use crate::fixed::{
    clamp, clamp_i32, divide_away_from_zero, divided_away_from_zero, negated, pixels,
    round_to_pixel,
    rounded_pixel, scale_toward_zero, scaled, sum, UNIT,
};
use crate::player::{End, Player};

verus! {

/// A circle in whole pixels.
#[derive(Clone, Copy, Debug, PartialEq, Eq, Structural)]
pub struct Disc {
    pub center_x: i32,
    pub center_y: i32,
    pub radius: u32,
}

/// The ball of one round. Positions are in fixed-point units from the
/// display's top-left corner, velocities in fixed-point units per tick.
#[derive(Clone, Copy, Debug, PartialEq, Eq, Structural)]
pub struct Ball {
    pub radius: i64,
    pub x: i64,
    pub y: i64,
    pub vx: i64,
    pub vy: i64,
}

/// The offset of a ball at height `y` from the centre of a paddle whose top
/// edge is at `paddle_position`, as a fraction of the paddle's length, in
/// fixed-point units. The magnitude is rounded up to the next unit, which
/// keeps the sign of the exact quotient and leaves the comparison with one
/// whole exact.
pub open spec fn collision_offset(y: int, paddle_position: int) -> int {
    divide_away_from_zero(paddle_position + (PADDLE_WIDTH * UNIT) / 2 - y, PADDLE_WIDTH as int)
}

/// A collision offset of magnitude at most one whole is a hit.
pub open spec fn is_hit(offset: int) -> bool {
    -UNIT <= offset <= UNIT
}

/// Tells whether a collision offset means that the paddle met the ball.
pub fn hits(offset: i64) -> (r: bool)
    ensures
        r == is_hit(offset as int),
{
    -UNIT <= offset && offset <= UNIT
}

impl Ball {
    /// A ball served from the centre of the screen with horizontal velocity `vx`.
    pub open spec fn served(vx: i64) -> Ball {
        Ball {
            radius: BALL_RADIUS,
            x: ((SCREEN_WIDTH * UNIT) / 2) as i64,
            y: ((SCREEN_HEIGHT * UNIT) / 2) as i64,
            vx,
            vy: SERVE_TILT,
        }
    }

    /// The ball is within a radius of the top wall, or has reached the line
    /// a radius and one pixel above the bottom wall.
    pub open spec fn at_wall(self) -> bool {
        self.y >= SCREEN_HEIGHT * UNIT - (self.radius + UNIT) || self.y < self.radius
    }

    /// The vertical velocity with which the ball leaves its present place:
    /// reversed at a wall, else unchanged.
    pub open spec fn reflected_vy(self) -> int {
        if self.at_wall() {
            clamp(-self.vy)
        } else {
            self.vy as int
        }
    }

    /// The ball one tick later: reflected at a wall where it stands at one,
    /// then moved by its velocity, neither coordinate going below zero.
    pub open spec fn updated(self) -> Ball {
        let new_x = clamp(self.x + self.vx);
        let new_y = clamp(self.y + self.reflected_vy());
        Ball {
            radius: self.radius,
            x: if new_x > 0 { new_x as i64 } else { 0i64 },
            y: if new_y > 0 { new_y as i64 } else { 0i64 },
            vx: self.vx,
            vy: self.reflected_vy() as i64,
        }
    }

    /// The ball has reached the wall at `end`, to within its radius.
    pub open spec fn at_end(self, end: End) -> bool {
        match end {
            End::Left => self.x < self.radius,
            End::Right => self.x >= SCREEN_WIDTH * UNIT - self.radius,
        }
    }

    /// The ball has reached the band in front of the paddle at `end`: it is
    /// within its radius plus the paddle's thickness of that wall.
    pub open spec fn at_paddle(self, end: End) -> bool {
        match end {
            End::Left => self.x < self.radius + PADDLE_THICKNESS * UNIT,
            End::Right => self.x >= SCREEN_WIDTH * UNIT - self.radius - PADDLE_THICKNESS * UNIT,
        }
    }

    /// The ball after a bounce off a paddle that it met at `collision_position`:
    /// the horizontal velocity reversed and multiplied by the acceleration
    /// factor, its magnitude rounded down to a unit; the vertical velocity
    /// the negated offset.
    pub open spec fn bounced(self, collision_position: i64) -> Ball {
        Ball {
            radius: self.radius,
            x: self.x,
            y: self.y,
            vx: clamp(scale_toward_zero(-self.vx, ACCELERATION_ON_BOUNCE as int, UNIT as int)) as i64,
            vy: clamp(-collision_position) as i64,
        }
    }

    /// The circle that the ball covers on the display, each measure rounded
    /// to the nearest pixel.
    pub open spec fn shape(self) -> Disc {
        let r = clamp_i32(round_to_pixel(self.radius as int));
        Disc {
            center_x: clamp_i32(round_to_pixel(self.x as int)) as i32,
            center_y: clamp_i32(round_to_pixel(self.y as int)) as i32,
            radius: if r < 0 { 0u32 } else { r as u32 },
        }
    }

    /// Serves a ball from the centre of the screen with horizontal velocity
    /// `vx` and a slight downward tilt.
    pub fn new(vx: i64) -> (b: Ball)
        ensures
            b == Ball::served(vx),
    {
        Ball {
            radius: BALL_RADIUS,
            x: pixels(SCREEN_WIDTH) / 2,
            y: pixels(SCREEN_HEIGHT) / 2,
            vx,
            vy: SERVE_TILT,
        }
    }

    /// Advances the ball by one tick. The test for a wall uses the position
    /// before the move.
    pub fn update(&mut self)
        ensures
            *final(self) == old(self).updated(),
            final(self).x >= 0,
            final(self).y >= 0,
            old(self).at_wall() ==> final(self).vy == clamp(-old(self).vy),
            !old(self).at_wall() ==> final(self).vy == old(self).vy,
    {
        let y: i128 = self.y as i128;
        let radius: i128 = self.radius as i128;
        let height: i128 = pixels(SCREEN_HEIGHT) as i128;
        let bottom: i128 = height - (radius + UNIT as i128);
        if y >= bottom || y < radius {
            self.vy = negated(self.vy);
        }
        let new_x: i64 = sum(self.x, self.vx);
        let new_y: i64 = sum(self.y, self.vy);
        self.x = if new_x > 0 {
            new_x
        } else {
            0
        };
        self.y = if new_y > 0 {
            new_y
        } else {
            0
        };
    }

    /// Where the ball stands against the paddle of `player`: the offset of
    /// the paddle's centre from the ball, as a fraction of the paddle's
    /// length. Positive when the ball is above the centre, negative below.
    pub fn test_collision(&self, player: &Player) -> (offset: i64)
        requires
            player.wf(),
        ensures
            offset == collision_offset(self.y as int, player.paddle_position as int),
    {
        let paddle_center: i128 = player.paddle_position as i128 + (pixels(PADDLE_WIDTH) / 2) as i128;
        let diff: i128 = paddle_center - self.y as i128;
        divided_away_from_zero(diff, PADDLE_WIDTH as u32)
    }

    /// Tells whether the ball has reached the wall at `end`.
    pub fn is_at_end(&self, end: End) -> (r: bool)
        ensures
            r == self.at_end(end),
    {
        let x: i128 = self.x as i128;
        let radius: i128 = self.radius as i128;
        match end {
            End::Left => x < radius,
            End::Right => x >= pixels(SCREEN_WIDTH) as i128 - radius,
        }
    }

    /// Tells whether the ball has reached the band in front of the paddle at `end`.
    pub fn is_at_paddle(&self, end: End) -> (r: bool)
        ensures
            r == self.at_paddle(end),
    {
        let x: i128 = self.x as i128;
        let radius: i128 = self.radius as i128;
        let thickness: i128 = pixels(PADDLE_THICKNESS) as i128;
        match end {
            End::Left => x < radius + thickness,
            End::Right => x >= pixels(SCREEN_WIDTH) as i128 - radius - thickness,
        }
    }

    /// Bounces the ball off a paddle that it met at `collision_position`.
    pub fn bounce(&mut self, collision_position: i64)
        ensures
            *final(self) == old(self).bounced(collision_position),
    {
        self.vx = scaled(negated(self.vx), ACCELERATION_ON_BOUNCE, UNIT as u32);
        self.vy = negated(collision_position);
    }

    /// The circle to draw for the ball.
    pub fn drawable(&self) -> (d: Disc)
        ensures
            d == self.shape(),
    {
        let r: i32 = rounded_pixel(self.radius);
        Disc {
            center_x: rounded_pixel(self.x),
            center_y: rounded_pixel(self.y),
            radius: if r < 0 {
                0
            } else {
                r as u32
            },
        }
    }
}

} // verus!
