use pong::arena::{
    to_pixels, Rect, BALL_HEIGHT, BALL_WIDTH, CENTER_X, CENTER_Y, GAME_HEIGHT, GAME_WIDTH,
    PADDLE_HEIGHT, PADDLE_OFFSET, PADDLE_WIDTH, SUBPIXELS,
};
use pong::ball::{sign_of, Ball};
use pong::game::{check_for_goal, create_objects, Game, KEY_DOWN, KEY_S, KEY_UP, KEY_W, PADDLE_2_X};
use pong::paddle::Paddle;

fn px(v: i64) -> i64 {
    v * SUBPIXELS
}

fn left_paddle() -> Paddle {
    Paddle::new(PADDLE_OFFSET, KEY_W, KEY_S)
}

fn right_paddle() -> Paddle {
    Paddle::new(PADDLE_2_X, KEY_UP, KEY_DOWN)
}

#[test]
fn paddle_starts_centred_without_points() {
    let p = Paddle::new(px(50), KEY_W, KEY_S);
    assert_eq!(p.x, px(50));
    assert_eq!(p.y, px(360));
    assert_eq!(p.points, 0);
    assert_eq!(p.up_key, KEY_W);
    assert_eq!(p.down_key, KEY_S);
}

#[test]
fn paddle_overshoots_top_by_one_frame() {
    let mut p = left_paddle();
    p.y = px(5);
    p.update(100_000, true, false);
    assert_eq!(p.y, px(-45));
}

#[test]
fn paddle_past_top_does_not_move_further_up() {
    let mut p = left_paddle();
    p.y = px(-45);
    p.update(100_000, true, false);
    assert_eq!(p.y, px(-45));
}

#[test]
fn paddle_at_top_does_not_move_up() {
    let mut p = left_paddle();
    p.y = 0;
    p.update(16_000, true, false);
    assert_eq!(p.y, 0);
}

#[test]
fn paddle_moves_down() {
    let mut p = left_paddle();
    p.update(16_000, false, true);
    assert_eq!(p.y, px(368));
}

#[test]
fn paddle_overshoots_floor_by_one_frame() {
    let mut p = left_paddle();
    p.y = GAME_HEIGHT - PADDLE_HEIGHT - px(1);
    p.update(100_000, false, true);
    assert_eq!(p.y, GAME_HEIGHT - PADDLE_HEIGHT + px(49));
    p.update(100_000, false, true);
    assert_eq!(p.y, GAME_HEIGHT - PADDLE_HEIGHT + px(49));
}

#[test]
fn paddle_with_both_keys_stays() {
    let mut p = left_paddle();
    p.update(16_000, true, true);
    assert_eq!(p.y, px(360));
}

#[test]
fn paddle_stays_within_one_step_of_arena() {
    for &(up, down) in &[(true, false), (false, true), (true, true), (false, false)] {
        for &y in &[0, px(1), px(300), GAME_HEIGHT - PADDLE_HEIGHT] {
            let mut p = left_paddle();
            p.y = y;
            p.update(250_000, up, down);
            assert!(p.y >= -px(125));
            assert!(p.y <= GAME_HEIGHT - PADDLE_HEIGHT + px(125));
        }
    }
}

#[test]
fn zero_time_keeps_paddle() {
    let mut p = left_paddle();
    p.points = 3;
    let before = p;
    p.update(0, true, false);
    assert_eq!(p, before);
    p.update(0, false, true);
    assert_eq!(p, before);
}

#[test]
fn ball_starts_centred_with_valid_directions() {
    for _ in 0..50 {
        let b = Ball::new();
        assert_eq!((b.x, b.y), (CENTER_X, CENTER_Y));
        assert!(b.dir_x == 1 || b.dir_x == -1);
        assert!(b.dir_y == 1 || b.dir_y == -1);
    }
}

#[test]
fn sign_of_coin_flip() {
    assert_eq!(sign_of(true), -1);
    assert_eq!(sign_of(false), 1);
}

#[test]
fn ball_reset_serves_from_centre() {
    let mut b = Ball { x: px(-3), y: px(10), dir_x: -1, dir_y: -1 };
    b.reset(1);
    assert_eq!((b.x, b.y, b.dir_x), (px(640), px(360), 1));
    assert!(b.dir_y == 1 || b.dir_y == -1);
    b.reset_with(-1, 1);
    assert_eq!(b, Ball { x: px(640), y: px(360), dir_x: -1, dir_y: 1 });
}

#[test]
fn ball_moves_diagonally() {
    let mut b = Ball::centered(1, -1);
    b.update(10_000, &left_paddle(), &right_paddle());
    assert_eq!(b, Ball { x: px(645), y: px(355), dir_x: 1, dir_y: -1 });
}

#[test]
fn ball_turns_from_left_paddle_once() {
    let p1 = left_paddle();
    let p2 = right_paddle();
    let mut b = Ball { x: px(85), y: px(400), dir_x: -1, dir_y: 1 };
    b.update(10_000, &p1, &p2);
    assert_eq!((b.x, b.y), (px(80), px(405)));
    assert_eq!(b.dir_x, 1);
    b.update(1_000, &p1, &p2);
    assert_eq!(b.x, px(80) + px(1) / 2);
    assert_eq!(b.dir_x, 1);
}

#[test]
fn ball_moving_away_from_paddle_keeps_direction() {
    let p1 = left_paddle();
    let p2 = right_paddle();
    let mut b = Ball { x: px(70), y: px(400), dir_x: 1, dir_y: 1 };
    b.update(10_000, &p1, &p2);
    assert_eq!(b.dir_x, 1);
}

#[test]
fn ball_turns_from_right_paddle() {
    let p1 = left_paddle();
    let p2 = right_paddle();
    let mut b = Ball { x: px(1170), y: px(400), dir_x: 1, dir_y: -1 };
    b.update(10_000, &p1, &p2);
    assert_eq!(b.dir_x, -1);
    assert_eq!(b.dir_y, -1);
}

#[test]
fn ball_touching_paddle_edge_does_not_turn() {
    let p1 = left_paddle();
    let p2 = right_paddle();
    // The ball's left edge ends exactly on the paddle's right edge.
    let mut b = Ball { x: px(87), y: px(400), dir_x: -1, dir_y: 1 };
    b.update(10_000, &p1, &p2);
    assert_eq!(b.x, px(82));
    assert_eq!(b.dir_x, -1);
}

#[test]
fn ball_bounces_off_ceiling_and_floor() {
    let p1 = left_paddle();
    let p2 = right_paddle();
    let mut b = Ball { x: px(640), y: px(2), dir_x: 1, dir_y: -1 };
    b.update(10_000, &p1, &p2);
    assert_eq!((b.y, b.dir_y), (px(-3), 1));
    b.update(10_000, &p1, &p2);
    assert_eq!((b.y, b.dir_y), (px(2), 1));

    let mut c = Ball { x: px(640), y: GAME_HEIGHT - BALL_HEIGHT - px(2), dir_x: -1, dir_y: 1 };
    c.update(10_000, &p1, &p2);
    assert_eq!(c.y, GAME_HEIGHT - BALL_HEIGHT + px(3));
    assert_eq!(c.dir_y, -1);
}

#[test]
fn ball_directions_stay_signs() {
    let p1 = left_paddle();
    let p2 = right_paddle();
    let mut b = Ball { x: px(85), y: px(1), dir_x: -1, dir_y: -1 };
    for _ in 0..200 {
        b.update(16_000, &p1, &p2);
        assert!(b.dir_x == 1 || b.dir_x == -1);
        assert!(b.dir_y == 1 || b.dir_y == -1);
        if b.x < 0 || b.x > GAME_WIDTH {
            b.reset(1);
        }
    }
}

#[test]
fn zero_time_keeps_ball() {
    let p1 = left_paddle();
    let p2 = right_paddle();
    let before = Ball { x: px(300), y: px(200), dir_x: -1, dir_y: 1 };
    let mut b = before;
    b.update(0, &p1, &p2);
    assert_eq!(b, before);
}

#[test]
fn goal_by_left_paddle_serves_left() {
    let mut b = Ball { x: px(1281), y: px(300), dir_x: 1, dir_y: 1 };
    let mut p1 = left_paddle();
    let mut p2 = right_paddle();
    check_for_goal(&mut b, &mut p1, &mut p2);
    assert_eq!(p1.points, 1);
    assert_eq!(p2.points, 0);
    assert_eq!((b.x, b.y), (px(640), px(360)));
    assert_eq!(b.dir_x, -1);
    assert!(b.dir_y == 1 || b.dir_y == -1);
    assert_eq!((p1.y, p2.y), (px(360), px(360)));
}

#[test]
fn goal_by_right_paddle_serves_right() {
    let mut b = Ball { x: px(-1), y: px(300), dir_x: -1, dir_y: -1 };
    let mut p1 = left_paddle();
    let mut p2 = right_paddle();
    p2.points = 4;
    check_for_goal(&mut b, &mut p1, &mut p2);
    assert_eq!(p1.points, 0);
    assert_eq!(p2.points, 5);
    assert_eq!((b.x, b.y, b.dir_x), (px(640), px(360), 1));
}

#[test]
fn no_goal_on_the_walls() {
    for &x in &[0, GAME_WIDTH, px(640)] {
        let before = Ball { x, y: px(300), dir_x: 1, dir_y: -1 };
        let mut b = before;
        let mut p1 = left_paddle();
        let mut p2 = right_paddle();
        check_for_goal(&mut b, &mut p1, &mut p2);
        assert_eq!(b, before);
        assert_eq!((p1.points, p2.points), (0, 0));
    }
}

#[test]
fn objects_start_in_place() {
    let (p1, p2, b) = create_objects();
    assert_eq!((p1.x, p1.y, p1.up_key, p1.down_key), (px(50), px(360), KEY_W, KEY_S));
    assert_eq!((p2.x, p2.y, p2.up_key, p2.down_key), (px(1205), px(360), KEY_UP, KEY_DOWN));
    assert_eq!(p2.x, GAME_WIDTH - PADDLE_OFFSET * 3 / 2);
    assert_eq!((b.x, b.y), (px(640), px(360)));
}

#[test]
fn game_frame_moves_everything() {
    let mut g = Game::new();
    g.ball = Ball::centered(-1, 1);
    g.step(20_000, true, false, false, true);
    assert_eq!(g.paddle_1.y, px(350));
    assert_eq!(g.paddle_2.y, px(370));
    assert_eq!(g.ball, Ball { x: px(630), y: px(370), dir_x: -1, dir_y: 1 });
}

#[test]
fn game_ball_bounces_off_moved_paddle() {
    // The ball ends the frame just above the paddle's old top edge; only a
    // paddle that has already moved up in this frame meets it.
    let mut g = Game::new();
    g.paddle_1.y = px(160);
    g.ball = Ball { x: px(86), y: px(120), dir_x: -1, dir_y: 1 };
    g.step(10_000, true, false, false, false);
    assert_eq!(g.paddle_1.y, px(155));
    assert_eq!((g.ball.x, g.ball.y), (px(81), px(125)));
    assert_eq!(g.ball.dir_x, 1);

    let mut h = Game::new();
    h.paddle_1.y = px(160);
    h.ball = Ball { x: px(86), y: px(120), dir_x: -1, dir_y: 1 };
    h.step(10_000, false, false, false, false);
    assert_eq!(h.paddle_1.y, px(160));
    assert_eq!(h.ball.dir_x, -1);
}

#[test]
fn game_scores_when_ball_leaves() {
    let mut g = Game::new();
    g.ball = Ball { x: px(1279), y: px(300), dir_x: 1, dir_y: 1 };
    g.step(10_000, false, false, false, false);
    assert_eq!((g.paddle_1.points, g.paddle_2.points), (1, 0));
    assert_eq!((g.ball.x, g.ball.y, g.ball.dir_x), (px(640), px(360), -1));

    g.ball = Ball { x: px(1), y: px(300), dir_x: -1, dir_y: 1 };
    g.step(10_000, false, false, false, false);
    assert_eq!((g.paddle_1.points, g.paddle_2.points), (1, 1));
    assert_eq!((g.ball.x, g.ball.y, g.ball.dir_x), (px(640), px(360), 1));
}

#[test]
fn zero_time_game_frame_changes_nothing() {
    let mut g = Game::new();
    g.paddle_1.points = 2;
    g.paddle_2.points = 7;
    let before = g;
    g.step(0, true, false, false, true);
    assert_eq!(g, before);
}

#[test]
fn rectangles_overlap_only_with_area() {
    let a = Rect::new(0, 0, 10, 10);
    assert!(a.check_collision_recs(&Rect::new(5, 5, 10, 10)));
    assert!(!a.check_collision_recs(&Rect::new(10, 0, 10, 10)));
    assert!(!a.check_collision_recs(&Rect::new(0, -10, 10, 10)));
    assert!(Rect::new(2, 2, 1, 1).check_collision_recs(&a));
    let paddle = left_paddle().collider();
    assert_eq!(paddle, Rect::new(px(50), px(360), PADDLE_WIDTH, PADDLE_HEIGHT));
    let ball = Ball::centered(1, 1).collider();
    assert_eq!(ball, Rect::new(px(640), px(360), BALL_WIDTH, BALL_HEIGHT));
}

#[test]
fn pixels_round_toward_zero() {
    assert_eq!(to_pixels(px(640)), 640);
    assert_eq!(to_pixels(px(640) + 999_999), 640);
    assert_eq!(to_pixels(-px(45) - 999_999), -45);
    assert_eq!(to_pixels(-1), 0);
    assert_eq!(to_pixels(i64::MAX), i32::MAX);
    assert_eq!(to_pixels(i64::MIN), i32::MIN);
}

#[test]
fn goal_check_with_idle_score_at_limit() {
    let mut b = Ball { x: px(1281), y: px(300), dir_x: 1, dir_y: 1 };
    let mut p1 = left_paddle();
    let mut p2 = right_paddle();
    p2.points = u32::MAX;
    check_for_goal(&mut b, &mut p1, &mut p2);
    assert_eq!((p1.points, p2.points), (1, u32::MAX));
    assert_eq!((b.x, b.y, b.dir_x), (px(640), px(360), -1));

    let mut c = Ball { x: px(-1), y: px(300), dir_x: -1, dir_y: 1 };
    let mut q1 = left_paddle();
    let mut q2 = right_paddle();
    q1.points = u32::MAX;
    check_for_goal(&mut c, &mut q1, &mut q2);
    assert_eq!((q1.points, q2.points), (u32::MAX, 1));
    assert_eq!((c.x, c.y, c.dir_x), (px(640), px(360), 1));
}

#[test]
fn no_goal_with_both_scores_at_limit() {
    let before = Ball { x: px(640), y: px(300), dir_x: -1, dir_y: 1 };
    let mut b = before;
    let mut p1 = left_paddle();
    let mut p2 = right_paddle();
    p1.points = u32::MAX;
    p2.points = u32::MAX;
    check_for_goal(&mut b, &mut p1, &mut p2);
    assert_eq!(b, before);
    assert_eq!((p1.points, p2.points), (u32::MAX, u32::MAX));
}
