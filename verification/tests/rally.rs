use pong::ball::Ball;
use pong::config::{
    ACCELERATION_ON_BOUNCE, BALL_RADIUS, INITIAL_VELOCITY, PADDLE_THICKNESS, PADDLE_WIDTH,
    SCORE_SCREEN_DELAY_MS, SCREEN_HEIGHT, SCREEN_WIDTH, SERVE_TILT,
};
use pong::fixed::UNIT;
use pong::game::{meet_paddle, Match};
use pong::player::{End, Player};
use pong::score::score_text;

fn match_with_right_paddle_at(position: i64) -> Match {
    let mut m = Match::new();
    m.player_2 = Player { paddle_position: position, end: End::Right };
    m
}

#[test]
fn constants_have_their_values() {
    assert_eq!(PADDLE_THICKNESS, 2);
    assert_eq!(PADDLE_WIDTH, 8);
    assert_eq!(SCREEN_WIDTH, 128);
    assert_eq!(SCREEN_HEIGHT, 32);
    assert_eq!(SCORE_SCREEN_DELAY_MS, 2000);
    assert_eq!(BALL_RADIUS, 3 * UNIT);
    assert_eq!(INITIAL_VELOCITY, 3 * UNIT / 2);
    assert_eq!(SERVE_TILT, UNIT / 10);
    assert_eq!(ACCELERATION_ON_BOUNCE as i64, UNIT + 15 * UNIT / 1000);
}

#[test]
fn new_match_is_blank() {
    let m = Match::new();
    assert_eq!(m.p1_score, 0);
    assert_eq!(m.p2_score, 0);
    assert_eq!(m.last_winner_id, 1);
    assert_eq!(m.player_1, Player { paddle_position: 0, end: End::Left });
    assert_eq!(m.player_2, Player { paddle_position: 0, end: End::Right });
}

#[test]
fn first_serve_goes_right() {
    let b = Match::new().serve();
    assert_eq!(b, Ball { radius: 3 * UNIT, x: 64 * UNIT, y: 16 * UNIT, vx: 1_500_000, vy: 100_000 });
}

#[test]
fn serve_after_player_two_wins_goes_left() {
    let mut m = Match::new();
    m.finish_round(2);
    assert_eq!(m.serve().vx, -1_500_000);
    m.finish_round(1);
    assert_eq!(m.serve().vx, 1_500_000);
}

#[test]
fn ball_meets_right_paddle_and_bounces() {
    let m = match_with_right_paddle_at(10 * UNIT);
    let mut b = Ball { radius: 3 * UNIT, x: 125 * UNIT, y: 14 * UNIT, vx: 1_500_000, vy: 100_000 };
    let offset = b.test_collision(&m.player_2);
    assert!(offset.abs() <= UNIT);
    let winner = m.resolve_paddles(&mut b);
    assert_eq!(winner, None);
    assert!(b.vx < 0);
    assert_eq!(b.vx, -1_522_500);
    assert_eq!(b.vx.abs() * 1000, 1_500_000 * 1015);
    assert_eq!(b.vy, 0);
}

#[test]
fn ball_passes_right_paddle_and_player_one_scores() {
    let mut m = match_with_right_paddle_at(0);
    m.last_winner_id = 2;
    let mut b = Ball { radius: 3 * UNIT, x: 125 * UNIT, y: 30 * UNIT, vx: 1_500_000, vy: 100_000 };
    assert!(b.is_at_end(End::Right));
    let before = b;
    let winner = m.tick(&mut b);
    assert_eq!(winner, Some(1));
    assert_eq!(b, before);
    m.finish_round(1);
    assert_eq!(m.p1_score, 1);
    assert_eq!(m.p2_score, 0);
    assert_eq!(m.last_winner_id, 1);
    assert_eq!(m.serve().vx, 1_500_000);
}

#[test]
fn both_lines_low_leaves_paddles() {
    let mut m = match_with_right_paddle_at(10 * UNIT);
    m.player_1.paddle_position = 5 * UNIT;
    m.steer(Ok(true), Ok(true), Ok(true), Ok(true));
    assert_eq!(m.player_1.paddle_position, 5 * UNIT);
    assert_eq!(m.player_2.paddle_position, 10 * UNIT);
}

#[test]
fn steer_moves_each_paddle_by_its_own_lines() {
    let mut m = match_with_right_paddle_at(10 * UNIT);
    m.player_1.paddle_position = 5 * UNIT;
    m.steer(Ok(true), Ok(false), Ok(false), Ok(true));
    assert_eq!(m.player_1.paddle_position, 4 * UNIT);
    assert_eq!(m.player_2.paddle_position, 11 * UNIT);
    m.steer(Err(()), Ok(true), Ok(false), Ok(false));
    assert_eq!(m.player_1.paddle_position, 4 * UNIT);
    assert_eq!(m.player_2.paddle_position, 11 * UNIT);
    assert_eq!(m.p1_score, 0);
    assert_eq!(m.last_winner_id, 1);
}

#[test]
fn ball_passes_left_paddle_and_player_two_scores() {
    let mut m = Match::new();
    m.player_1.paddle_position = 20 * UNIT;
    let mut b = Ball { radius: 3 * UNIT, x: 2 * UNIT, y: 5 * UNIT, vx: -1_500_000, vy: 0 };
    assert_eq!(m.tick(&mut b), Some(2));
    m.finish_round(2);
    assert_eq!(m.p1_score, 0);
    assert_eq!(m.p2_score, 1);
    assert_eq!(m.last_winner_id, 2);
}

#[test]
fn missed_ball_in_band_but_short_of_wall_goes_on() {
    let m = match_with_right_paddle_at(0);
    let mut b = Ball { radius: 3 * UNIT, x: 124 * UNIT, y: 30 * UNIT, vx: 1_500_000, vy: 100_000 };
    assert_eq!(m.tick(&mut b), None);
    assert_eq!(b.x, 125_500_000);
    assert_eq!(b.vx, 1_500_000);
    assert_eq!(b.vy, -100_000);
    assert_eq!(b.y, 29_900_000);
}

#[test]
fn tick_away_from_paddles_only_moves() {
    let m = Match::new();
    let mut b = m.serve();
    assert_eq!(m.tick(&mut b), None);
    assert_eq!(b, Ball { radius: 3 * UNIT, x: 65_500_000, y: 16_100_000, vx: 1_500_000, vy: 100_000 });
}

#[test]
fn tick_bounces_then_moves() {
    let m = match_with_right_paddle_at(10 * UNIT);
    let mut b = Ball { radius: 3 * UNIT, x: 125 * UNIT, y: 14 * UNIT, vx: 1_500_000, vy: 100_000 };
    assert_eq!(m.tick(&mut b), None);
    assert_eq!(b.vx, -1_522_500);
    assert_eq!(b.x, 123_477_500);
    assert_eq!(b.vy, 0);
    assert_eq!(b.y, 14 * UNIT);
}

#[test]
fn left_paddle_is_tested_before_right() {
    let m = Match::new();
    let mut b = Ball { radius: 70 * UNIT, x: 60 * UNIT, y: 30 * UNIT, vx: UNIT, vy: 0 };
    assert_eq!(m.tick(&mut b), Some(2));
    let n = match_with_right_paddle_at(0);
    let mut c = Ball { radius: 70 * UNIT, x: 60 * UNIT, y: 4 * UNIT, vx: 2_000_000, vy: 0 };
    assert_eq!(n.resolve_paddles(&mut c), None);
    assert_eq!(c.vx, 2_060_450);
}

#[test]
fn left_bounce_then_right_miss_ends_with_bounced_ball() {
    let mut m = Match::new();
    m.player_2.paddle_position = 23 * UNIT;
    let mut b = Ball { radius: 70 * UNIT, x: 60 * UNIT, y: 5 * UNIT, vx: 2_000_000, vy: 0 };
    assert_eq!(m.tick(&mut b), Some(1));
    assert_eq!(b.vx, -2_030_000);
    assert_eq!(b.vy, 125_000);
    assert_eq!(b.x, 60 * UNIT);
    assert_eq!(b.y, 5 * UNIT);
}

#[test]
fn meet_paddle_reports_miss_and_keeps_ball() {
    let p = Player { paddle_position: 0, end: End::Right };
    let mut b = Ball { radius: 3 * UNIT, x: 126 * UNIT, y: 20 * UNIT, vx: UNIT, vy: 0 };
    let before = b;
    assert!(meet_paddle(&mut b, &p));
    assert_eq!(b, before);
}

#[test]
fn meet_paddle_outside_band_does_nothing() {
    let p = Player { paddle_position: 10 * UNIT, end: End::Right };
    let mut b = Ball { radius: 3 * UNIT, x: 100 * UNIT, y: 14 * UNIT, vx: UNIT, vy: 0 };
    let before = b;
    assert!(!meet_paddle(&mut b, &p));
    assert_eq!(b, before);
}

#[test]
fn finish_round_with_unknown_id_changes_no_score() {
    let mut m = Match::new();
    m.finish_round(7);
    assert_eq!(m.p1_score, 0);
    assert_eq!(m.p2_score, 0);
    assert_eq!(m.last_winner_id, 7);
    assert_eq!(m.serve().vx, -1_500_000);
}

#[test]
fn paddles_persist_across_rounds() {
    let mut m = match_with_right_paddle_at(12 * UNIT);
    m.finish_round(1);
    assert_eq!(m.player_2.paddle_position, 12 * UNIT);
    assert_eq!(m.player_1.paddle_position, 0);
}

#[test]
fn score_board_shows_both_scores() {
    let mut m = Match::new();
    assert_eq!(m.score_board(), Some(String::from("0 - 0")));
    m.finish_round(1);
    m.finish_round(1);
    m.finish_round(2);
    m.finish_round(1);
    assert_eq!(m.score_board(), Some(String::from("3 - 1")));
}

#[test]
fn score_text_formats_decimal() {
    assert_eq!(score_text(3, 2), Some(String::from("3 - 2")));
    assert_eq!(score_text(10, 907), Some(String::from("10 - 907")));
    assert_eq!(score_text(9_999_999, 9_999_999), Some(String::from("9999999 - 9999999")));
}

#[test]
fn score_text_fits_twenty_characters() {
    assert_eq!(
        score_text(1_234_567_890, 1_234_567),
        Some(String::from("1234567890 - 1234567"))
    );
    assert_eq!(score_text(1_234_567_890, 12_345_678), None);
    assert_eq!(score_text(u32::MAX, u32::MAX), None);
}

#[test]
fn whole_rally_from_serve_to_point() {
    let mut m = Match::new();
    let mut b = m.serve();
    let mut ticks = 0;
    let winner = loop {
        if let Some(w) = m.tick(&mut b) {
            break w;
        }
        assert!(b.x >= 0 && b.y >= 0);
        m.steer(Ok(true), Ok(true), Err(()), Ok(false));
        ticks += 1;
        assert!(ticks < 1000);
    };
    assert_eq!(winner, 1);
    assert_eq!(ticks, 41);
    m.finish_round(winner);
    assert_eq!(m.p1_score, 1);
    assert_eq!(m.p2_score, 0);
}

#[test]
fn score_board_starts_left_of_centre() {
    assert_eq!(Match::score_board_origin(), (40, 8));
}

#[test]
fn validity_of_a_match() {
    let mut m = Match::new();
    assert!(m.is_valid());
    m.player_2.paddle_position = 23 * UNIT;
    assert!(m.is_valid());
    m.player_2.paddle_position = 23 * UNIT + 1;
    assert!(!m.is_valid());
    m.player_2.paddle_position = 0;
    m.player_1.end = End::Right;
    assert!(!m.is_valid());
    m.player_1.end = End::Left;
    m.player_1.paddle_position = -1;
    assert!(!m.is_valid());
    assert!(!m.player_1.is_valid());
    assert!(m.player_2.is_valid());
}
