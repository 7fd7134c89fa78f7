use pong::fixed::UNIT;
use pong::player::{read_move, End, PaddleMove, Player, Rectangle};

const LIMIT: i64 = 23 * UNIT;

#[test]
fn new_player_starts_at_top() {
    let p = Player::new(End::Right);
    assert_eq!(p.paddle_position, 0);
    assert_eq!(p.end, End::Right);
}

#[test]
fn move_left_at_top_stays_at_top() {
    let mut p = Player::new(End::Left);
    p.move_paddle_left();
    assert_eq!(p.paddle_position, 0);
    assert_eq!(p.end, End::Left);
}

#[test]
fn move_right_shifts_by_one_pixel() {
    let mut p = Player::new(End::Left);
    p.move_paddle_right();
    assert_eq!(p.paddle_position, UNIT);
    p.move_paddle_right();
    assert_eq!(p.paddle_position, 2 * UNIT);
    p.move_paddle_left();
    assert_eq!(p.paddle_position, UNIT);
}

#[test]
fn move_right_stops_at_limit() {
    let mut p = Player::new(End::Right);
    for _ in 0..40 {
        p.move_paddle_right();
        assert!(p.paddle_position <= LIMIT);
    }
    assert_eq!(p.paddle_position, LIMIT);
    p.move_paddle_right();
    assert_eq!(p.paddle_position, LIMIT);
}

#[test]
fn move_left_never_goes_negative() {
    let mut p = Player { paddle_position: 5 * UNIT, end: End::Left };
    for _ in 0..40 {
        p.move_paddle_left();
        assert!(p.paddle_position >= 0);
    }
    assert_eq!(p.paddle_position, 0);
}

#[test]
fn fractional_positions_clamp_to_bounds() {
    let mut p = Player { paddle_position: UNIT / 2, end: End::Left };
    p.move_paddle_left();
    assert_eq!(p.paddle_position, 0);
    let mut q = Player { paddle_position: LIMIT - UNIT / 4, end: End::Left };
    q.move_paddle_right();
    assert_eq!(q.paddle_position, LIMIT);
}

#[test]
fn one_line_low_moves() {
    assert_eq!(read_move(Ok(true), Ok(false)), PaddleMove::Left);
    assert_eq!(read_move(Ok(false), Ok(true)), PaddleMove::Right);
}

#[test]
fn ambiguous_or_failed_readings_stay() {
    assert_eq!(read_move(Ok(true), Ok(true)), PaddleMove::Stay);
    assert_eq!(read_move(Ok(false), Ok(false)), PaddleMove::Stay);
    assert_eq!(read_move(Err(()), Ok(true)), PaddleMove::Stay);
    assert_eq!(read_move(Ok(true), Err(())), PaddleMove::Stay);
    assert_eq!(read_move(Err(()), Err(())), PaddleMove::Stay);
}

#[test]
fn steer_follows_the_move() {
    let mut p = Player { paddle_position: 7 * UNIT, end: End::Right };
    p.steer(PaddleMove::Stay);
    assert_eq!(p.paddle_position, 7 * UNIT);
    p.steer(PaddleMove::Right);
    assert_eq!(p.paddle_position, 8 * UNIT);
    p.steer(PaddleMove::Left);
    p.steer(PaddleMove::Left);
    assert_eq!(p.paddle_position, 6 * UNIT);
}

#[test]
fn left_paddle_rectangle() {
    let p = Player { paddle_position: 10 * UNIT, end: End::Left };
    assert_eq!(p.paddle_drawable(), Rectangle { left: 0, top: 10, right: 2, bottom: 18 });
}

#[test]
fn right_paddle_rectangle() {
    let p = Player { paddle_position: 23 * UNIT, end: End::Right };
    assert_eq!(p.paddle_drawable(), Rectangle { left: 126, top: 23, right: 128, bottom: 31 });
}

#[test]
fn paddle_rectangle_rounds_top_down_and_bottom_to_nearest() {
    let p = Player { paddle_position: 10 * UNIT + 600_000, end: End::Left };
    assert_eq!(p.paddle_drawable(), Rectangle { left: 0, top: 10, right: 2, bottom: 19 });
    let q = Player { paddle_position: 10 * UNIT + 500_000, end: End::Left };
    assert_eq!(q.paddle_drawable(), Rectangle { left: 0, top: 10, right: 2, bottom: 19 });
    let r = Player { paddle_position: 10 * UNIT + 499_999, end: End::Left };
    assert_eq!(r.paddle_drawable(), Rectangle { left: 0, top: 10, right: 2, bottom: 18 });
}
