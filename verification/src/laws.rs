//! What holds of the paddles, of the ball and of a match on every input.

use vstd::prelude::*;
use crate::ball::{collision_offset, is_hit, Ball};
use crate::config::{ACCELERATION_ON_BOUNCE, INITIAL_VELOCITY, PADDLE_WIDTH, SCREEN_HEIGHT};
use crate::fixed::{magnitude, signum, UNIT};
use crate::game::{paddle_hits, paddle_misses, serve_velocity, Match};
use crate::player::{paddle_limit, requested_move, End, PaddleMove, Player};

verus! {

/// A paddle on the screen stays on the screen: moving it left never takes
/// its position below zero, moving it right never above the limit, and
/// either move shifts it by one pixel or stops it at the bound.
pub proof fn paddle_stays_in_range(p: Player)
    requires
        p.wf(),
    ensures
        p.moved_left().paddle_position >= 0,
        p.moved_left().wf(),
        p.moved_right().paddle_position <= paddle_limit(),
        p.moved_right().wf(),
        p.paddle_position >= UNIT ==> p.moved_left().paddle_position == p.paddle_position - UNIT,
        p.paddle_position < UNIT ==> p.moved_left().paddle_position == 0,
        p.paddle_position <= paddle_limit() - UNIT ==> p.moved_right().paddle_position
            == p.paddle_position + UNIT,
        p.paddle_position > paddle_limit() - UNIT ==> p.moved_right().paddle_position
            == paddle_limit(),
{
}

/// A paddle at the top stays there when it is moved left, and one at the
/// limit stays there when it is moved right.
pub proof fn paddle_stops_at_bounds(p: Player)
    requires
        p.wf(),
    ensures
        p.paddle_position == 0 ==> p.moved_left() == p,
        p.paddle_position == paddle_limit() ==> p.moved_right() == p,
{
}

/// Only one line low and the other high moves a paddle. Both low, both
/// high, or a reading that failed leave it where it is.
pub proof fn ambiguous_input_moves_nothing(
    p: Player,
    first_low: Result<bool, ()>,
    second_low: Result<bool, ()>,
)
    ensures
        first_low is Err || second_low is Err ==> p.moved(requested_move(first_low, second_low))
            == p,
        first_low == second_low ==> p.moved(requested_move(first_low, second_low)) == p,
        requested_move(first_low, second_low) != PaddleMove::Stay ==> first_low is Ok
            && second_low is Ok && first_low != second_low,
{
}

/// After a tick neither coordinate of the ball is negative, whatever the
/// ball was before.
pub proof fn update_keeps_coordinates_nonnegative(b: Ball)
    ensures
        b.updated().x >= 0,
        b.updated().y >= 0,
        b.updated().radius == b.radius,
        b.updated().vx == b.vx,
{
}

/// A tick reverses the sign of the vertical velocity where the ball stood at
/// a wall before the tick, and leaves the vertical velocity as it was
/// everywhere else. So a ball that moves vertically changes the sign of that
/// movement exactly when it stood at a wall.
pub proof fn update_reflects_exactly_at_walls(b: Ball)
    ensures
        b.at_wall() <==> (b.y < b.radius || b.y >= SCREEN_HEIGHT * UNIT - (b.radius + UNIT)),
        b.at_wall() ==> signum(b.updated().vy as int) == -signum(b.vy as int),
        b.at_wall() && b.vy > i64::MIN ==> b.updated().vy == -b.vy,
        !b.at_wall() ==> b.updated().vy == b.vy,
        b.vy != 0 ==> (b.at_wall() <==> signum(b.updated().vy as int) != signum(b.vy as int)),
{
}

/// The collision offset has the sign of the distance from the ball up to the
/// paddle's centre: positive where the ball is above it, negative below,
/// zero only at the centre. Its magnitude is at most one whole exactly when
/// the ball is no more than a paddle's length from the centre, which is
/// within half a paddle's length of the paddle's span.
pub proof fn collision_offset_tells_hit_and_half(y: i64, p: Player)
    requires
        p.wf(),
    ensures
        signum(collision_offset(y as int, p.paddle_position as int)) == signum(
            p.paddle_position + (PADDLE_WIDTH * UNIT) / 2 - y,
        ),
        is_hit(collision_offset(y as int, p.paddle_position as int)) <==> magnitude(
            p.paddle_position + (PADDLE_WIDTH * UNIT) / 2 - y,
        ) <= PADDLE_WIDTH * UNIT,
        is_hit(collision_offset(y as int, p.paddle_position as int)) <==> p.paddle_position
            - (PADDLE_WIDTH * UNIT) / 2 <= y <= p.paddle_position + PADDLE_WIDTH * UNIT + (
        PADDLE_WIDTH * UNIT) / 2,
        i64::MIN <= collision_offset(y as int, p.paddle_position as int) <= i64::MAX,
{
}

/// A bounce reverses the sign of the horizontal velocity, whatever it was,
/// and does not slow the ball (but for the lowest velocity of the range,
/// whose magnitude the range cannot hold). Short of the end of the range, the new
/// magnitude is the old one times the acceleration factor, less the fraction
/// of a unit that cannot be held; it is that product exactly where the
/// product is a whole number of units.
pub proof fn bounce_reverses_and_accelerates(b: Ball, c: i64)
    ensures
        signum(b.bounced(c).vx as int) == -signum(b.vx as int),
        magnitude(b.bounced(c).vx as int) >= magnitude(b.vx as int) || b.vx == i64::MIN,
        magnitude(b.vx as int) * ACCELERATION_ON_BOUNCE <= i64::MAX * UNIT ==> {
            &&& magnitude(b.bounced(c).vx as int) * UNIT <= magnitude(b.vx as int)
                * ACCELERATION_ON_BOUNCE
            &&& magnitude(b.vx as int) * ACCELERATION_ON_BOUNCE < (magnitude(
                b.bounced(c).vx as int,
            ) + 1) * UNIT
        },
        magnitude(b.vx as int) * ACCELERATION_ON_BOUNCE <= i64::MAX * UNIT && (magnitude(
            b.vx as int,
        ) * ACCELERATION_ON_BOUNCE) % (UNIT as int) == 0 ==> magnitude(b.bounced(c).vx as int)
            * UNIT == magnitude(b.vx as int) * ACCELERATION_ON_BOUNCE,
        c > i64::MIN ==> b.bounced(c).vy == -c,
        b.bounced(c).x == b.x && b.bounced(c).y == b.y && b.bounced(c).radius == b.radius,
{
}

/// A round that player 1 wins adds exactly one to player 1's score, leaves
/// player 2's, and makes the next serve go right at the initial speed; a
/// round that player 2 wins does the same for player 2 with a serve that
/// goes left.
pub proof fn round_end_scores_and_serves(m: Match)
    ensures
        m.p1_score < u32::MAX ==> m.after_round(1).p1_score == m.p1_score + 1,
        m.after_round(1).p2_score == m.p2_score,
        serve_velocity(m.after_round(1).last_winner_id) == INITIAL_VELOCITY,
        m.p2_score < u32::MAX ==> m.after_round(2).p2_score == m.p2_score + 1,
        m.after_round(2).p1_score == m.p1_score,
        serve_velocity(m.after_round(2).last_winner_id) == -INITIAL_VELOCITY,
{
}

/// A ball in front of the right paddle alone, which the paddle meets, is
/// bounced: the rally goes on, the ball's horizontal velocity changes sign,
/// and its vertical velocity becomes the negated collision offset.
pub proof fn hit_at_right_paddle_bounces(m: Match, b: Ball)
    requires
        m.wf(),
        !b.at_paddle(End::Left),
        paddle_hits(b, m.player_2),
    ensures
        m.rally_winner(b) is None,
        m.ball_after_paddles(b) == b.bounced(
            collision_offset(b.y as int, m.player_2.paddle_position as int) as i64,
        ),
        signum(m.ball_after_paddles(b).vx as int) == -signum(b.vx as int),
        m.ball_after_paddles(b).vy == -collision_offset(
            b.y as int,
            m.player_2.paddle_position as int,
        ),
        m.ball_after_tick(b) == m.ball_after_paddles(b).updated(),
{
}

/// A ball at the right wall that the right paddle does not meet ends the
/// rally for player 1, and is left where it is. A ball at the left wall that
/// the left paddle does not meet ends it for player 2.
pub proof fn miss_at_wall_ends_rally(m: Match, b: Ball)
    requires
        m.wf(),
    ensures
        !b.at_paddle(End::Left) && paddle_misses(b, m.player_2) ==> m.rally_winner(b) == Some(1u8)
            && m.ball_after_tick(b) == b,
        paddle_misses(b, m.player_1) ==> m.rally_winner(b) == Some(2u8) && m.ball_after_tick(b)
            == b,
{
}

/// A rally ends on a tick only where the ball stands at a wall behind a
/// paddle that missed it: the left wall where player 2 wins, the right wall
/// where player 1 wins. A ball away from both paddles' bands ends nothing
/// and is only moved.
pub proof fn rally_ends_only_at_a_missed_wall(m: Match, b: Ball)
    requires
        m.wf(),
    ensures
        m.rally_winner(b) == Some(2u8) ==> paddle_misses(b, m.player_1),
        m.rally_winner(b) == Some(1u8) ==> m.ball_after_paddles(b).at_end(m.player_2.end),
        m.rally_winner(b) is Some ==> m.rally_winner(b) == Some(1u8) || m.rally_winner(b) == Some(
            2u8,
        ),
        !b.at_paddle(m.player_1.end) && !b.at_paddle(m.player_2.end) ==> m.rally_winner(b) is None
            && m.ball_after_tick(b) == b.updated(),
{
}

} // verus!
