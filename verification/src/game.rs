//! The match: scores, serves, and the decisions of one rally tick.

use vstd::prelude::*;
use crate::ball::{collision_offset, hits, is_hit, Ball};
use crate::config::{INITIAL_VELOCITY, SCREEN_HEIGHT, SCREEN_WIDTH};
use crate::player::{read_move, requested_move, End, Player};
use crate::score::{digits, score_line, score_text, SCORE_CAPACITY};

verus! {

/// The state that lasts for a whole match: both players, both scores, and
/// who won the last round (player 1 before the first).
#[derive(Clone, Copy, Debug, PartialEq, Eq)]
pub struct Match {
    pub player_1: Player,
    pub player_2: Player,
    pub p1_score: u32,
    pub p2_score: u32,
    pub last_winner_id: u8,
}

/// The horizontal velocity of the serve that follows a round won by
/// `winner_id`: toward the right after player 1, toward the left after
/// anyone else.
pub open spec fn serve_velocity(winner_id: u8) -> i64 {
    if winner_id == 1 {
        INITIAL_VELOCITY
    } else {
        (-INITIAL_VELOCITY) as i64
    }
}

/// The ball is in front of `player`'s paddle and the paddle meets it.
pub open spec fn paddle_hits(ball: Ball, player: Player) -> bool {
    ball.at_paddle(player.end) && is_hit(
        collision_offset(ball.y as int, player.paddle_position as int),
    )
}

/// The ball has passed `player`'s paddle and reached the wall behind it.
pub open spec fn paddle_misses(ball: Ball, player: Player) -> bool {
    ball.at_paddle(player.end) && !is_hit(
        collision_offset(ball.y as int, player.paddle_position as int),
    ) && ball.at_end(player.end)
}

/// The ball after the test against `player`'s paddle: bounced on a hit,
/// else as it was.
pub open spec fn after_paddle(ball: Ball, player: Player) -> Ball {
    if paddle_hits(ball, player) {
        ball.bounced(collision_offset(ball.y as int, player.paddle_position as int) as i64)
    } else {
        ball
    }
}

/// Tests the ball against one paddle. On a hit the ball bounces. Returns
/// whether the ball got past the paddle to the wall, which loses the round
/// for `player`.
pub fn meet_paddle(ball: &mut Ball, player: &Player) -> (lost: bool)
    requires
        player.wf(),
    ensures
        lost == paddle_misses(*old(ball), *player),
        *final(ball) == after_paddle(*old(ball), *player),
{
    if ball.is_at_paddle(player.end) {
        let collision_position: i64 = ball.test_collision(player);
        if hits(collision_position) {
            ball.bounce(collision_position);
        } else if ball.is_at_end(player.end) {
            return true;
        }
    }
    false
}

impl Match {
    /// Both paddles are on the screen, player 1 at the left end and player 2
    /// at the right.
    pub open spec fn wf(self) -> bool {
        &&& self.player_1.wf()
        &&& self.player_2.wf()
        &&& self.player_1.end == End::Left
        &&& self.player_2.end == End::Right
    }

    /// The winner of the rally that the ball decides on this tick, if it
    /// decides one: player 2 where the ball got past the left paddle; else
    /// player 1 where the ball, after its test against the left paddle, got
    /// past the right one.
    pub open spec fn rally_winner(self, ball: Ball) -> Option<u8> {
        if paddle_misses(ball, self.player_1) {
            Some(2u8)
        } else if paddle_misses(after_paddle(ball, self.player_1), self.player_2) {
            Some(1u8)
        } else {
            None
        }
    }

    /// The ball after the tests against the paddles: the left one first,
    /// the right one only where the left one did not end the rally.
    pub open spec fn ball_after_paddles(self, ball: Ball) -> Ball {
        if paddle_misses(ball, self.player_1) {
            ball
        } else {
            after_paddle(after_paddle(ball, self.player_1), self.player_2)
        }
    }

    /// The ball at the end of a tick: where the rally goes on, moved by one
    /// step after the tests against the paddles.
    pub open spec fn ball_after_tick(self, ball: Ball) -> Ball {
        if self.rally_winner(ball) is Some {
            self.ball_after_paddles(ball)
        } else {
            self.ball_after_paddles(ball).updated()
        }
    }

    /// The match after a round won by `winner_id`: that player's score one
    /// higher, and the winner remembered for the next serve. An id other
    /// than 1 or 2 changes no score.
    pub open spec fn after_round(self, winner_id: u8) -> Match {
        Match {
            player_1: self.player_1,
            player_2: self.player_2,
            p1_score: if winner_id == 1 {
                (self.p1_score + 1) as u32
            } else {
                self.p1_score
            },
            p2_score: if winner_id == 2 {
                (self.p2_score + 1) as u32
            } else {
                self.p2_score
            },
            last_winner_id: winner_id,
        }
    }

    /// The match after one frame's input readings: each paddle moved as its
    /// player's two lines ask.
    pub open spec fn after_input(
        self,
        p1_first: Result<bool, ()>,
        p1_second: Result<bool, ()>,
        p2_first: Result<bool, ()>,
        p2_second: Result<bool, ()>,
    ) -> Match {
        Match {
            player_1: self.player_1.moved(requested_move(p1_first, p1_second)),
            player_2: self.player_2.moved(requested_move(p2_first, p2_second)),
            p1_score: self.p1_score,
            p2_score: self.p2_score,
            last_winner_id: self.last_winner_id,
        }
    }

    /// Tells whether both paddles are on the screen, each at its own end.
    pub fn is_valid(&self) -> (r: bool)
        ensures
            r == self.wf(),
    {
        self.player_1.is_valid() && self.player_2.is_valid() && self.player_1.end == End::Left
            && self.player_2.end == End::Right
    }

    /// A match before its first round: no points, both paddles at the top,
    /// and the first serve as after a round won by player 1.
    pub fn new() -> (m: Match)
        ensures
            m == (Match {
                player_1: Player { paddle_position: 0, end: End::Left },
                player_2: Player { paddle_position: 0, end: End::Right },
                p1_score: 0,
                p2_score: 0,
                last_winner_id: 1,
            }),
            m.wf(),
    {
        Match {
            player_1: Player::new(End::Left),
            player_2: Player::new(End::Right),
            p1_score: 0,
            p2_score: 0,
            last_winner_id: 1,
        }
    }

    /// Serves the ball of the next round, toward the side that the last
    /// round's winner decides.
    pub fn serve(&self) -> (ball: Ball)
        ensures
            ball == Ball::served(serve_velocity(self.last_winner_id)),
    {
        let vx: i64 = match self.last_winner_id {
            1 => INITIAL_VELOCITY,
            _ => -INITIAL_VELOCITY,
        };
        Ball::new(vx)
    }

    /// Where the score board's text starts on the display, in pixels: 24 left
    /// of the centre and 8 above it.
    pub fn score_board_origin() -> (at: (i32, i32))
        ensures
            at.0 == SCREEN_WIDTH / 2 - 24,
            at.1 == SCREEN_HEIGHT / 2 - 8,
    {
        (SCREEN_WIDTH as i32 / 2 - 3 * 8, SCREEN_HEIGHT as i32 / 2 - (16 / 2))
    }

    /// The text of the score board, or `None` where it is too long to show.
    pub fn score_board(&self) -> (text: Option<String>)
        ensures
            text is Some <==> digits(self.p1_score as nat) + 3 + digits(self.p2_score as nat)
                <= SCORE_CAPACITY,
            text is Some ==> text.unwrap()@ == score_line(self.p1_score, self.p2_score),
            self.p1_score < 10_000_000 && self.p2_score < 10_000_000 ==> text is Some,
    {
        score_text(self.p1_score, self.p2_score)
    }

    /// Tests the ball against both paddles, the left one first. Returns the
    /// id of the player who wins the rally on this tick, if one does.
    pub fn resolve_paddles(&self, ball: &mut Ball) -> (winner: Option<u8>)
        requires
            self.wf(),
        ensures
            winner == self.rally_winner(*old(ball)),
            *final(ball) == self.ball_after_paddles(*old(ball)),
    {
        if meet_paddle(ball, &self.player_1) {
            return Some(2);
        }
        if meet_paddle(ball, &self.player_2) {
            return Some(1);
        }
        None
    }

    /// The ball's part of one rally tick: the tests against the paddles and,
    /// where no one wins the rally, one step of motion. Returns the id of
    /// the player who wins the rally on this tick, if one does.
    pub fn tick(&self, ball: &mut Ball) -> (winner: Option<u8>)
        requires
            self.wf(),
        ensures
            winner == self.rally_winner(*old(ball)),
            *final(ball) == self.ball_after_tick(*old(ball)),
            winner is None ==> final(ball).x >= 0 && final(ball).y >= 0,
    {
        let winner: Option<u8> = self.resolve_paddles(ball);
        if winner.is_none() {
            ball.update();
        }
        winner
    }

    /// The players' part of one rally tick: moves each paddle as the
    /// readings of its player's two input lines ask.
    pub fn steer(
        &mut self,
        p1_first: Result<bool, ()>,
        p1_second: Result<bool, ()>,
        p2_first: Result<bool, ()>,
        p2_second: Result<bool, ()>,
    )
        requires
            old(self).wf(),
        ensures
            *final(self) == old(self).after_input(p1_first, p1_second, p2_first, p2_second),
            final(self).wf(),
    {
        self.player_1.steer(read_move(p1_first, p1_second));
        self.player_2.steer(read_move(p2_first, p2_second));
    }

    /// Ends a round: gives the point to `winner_id` and remembers the winner
    /// for the next serve.
    pub fn finish_round(&mut self, winner_id: u8)
        requires
            winner_id == 1 ==> old(self).p1_score < u32::MAX,
            winner_id == 2 ==> old(self).p2_score < u32::MAX,
        ensures
            *final(self) == old(self).after_round(winner_id),
            old(self).wf() ==> final(self).wf(),
    {
        match winner_id {
            1 => {
                self.p1_score = self.p1_score + 1;
            },
            2 => {
                self.p2_score = self.p2_score + 1;
            },
            _ => {},
        }
        self.last_winner_id = winner_id;
    }
}

} // verus!
