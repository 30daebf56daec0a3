use vstd::prelude::*;

use crate::arena::{
    overlaps,     BALL_HEIGHT, CENTER_X, CENTER_Y, GAME_HEIGHT, GAME_WIDTH, MAX_FRAME_US, MAX_STEP,
    PADDLE_OFFSET, SUBPIXELS,
};
use crate::ball::{ball_step, lemma_ball_zero_time, Ball};
use crate::paddle::{lemma_paddle_zero_time, Paddle};

verus! {

/// Key code of the control that moves the left paddle up.
pub const KEY_W: i32 = 87;
/// Key code of the control that moves the left paddle down.
pub const KEY_S: i32 = 83;
/// Key code of the control that moves the right paddle up.
pub const KEY_UP: i32 = 265;
/// Key code of the control that moves the right paddle down.
pub const KEY_DOWN: i32 = 264;

/// Horizontal position of the right paddle: one and a half times
/// `PADDLE_OFFSET` from the right wall.
pub const PADDLE_2_X: i64 = 1205 * SUBPIXELS;

/// What the goal check does with a ball at `before` and the two scores.
/// A ball past the right wall is a point for the left paddle and is served
/// again from the centre toward the left; a ball past the left wall is a
/// point for the right paddle and is served toward the right. Otherwise
/// nothing changes. The new vertical direction is any valid sign.
pub open spec fn goal_handled(
    before: Ball,
    after: Ball,
    points_1: u32,
    points_2: u32,
    points_1_after: u32,
    points_2_after: u32,
) -> bool {
    if before.x > GAME_WIDTH {
        &&& after.is_served(-1)
        &&& points_1_after == points_1 + 1
        &&& points_2_after == points_2
    } else if before.x < 0 {
        &&& after.is_served(1)
        &&& points_1_after == points_1
        &&& points_2_after == points_2 + 1
    } else {
        &&& after == before
        &&& points_1_after == points_1
        &&& points_2_after == points_2
    }
}

/// Awards a point when the ball has left the arena horizontally and serves
/// it again from the centre toward the side that conceded the point.
pub fn check_for_goal(ball: &mut Ball, paddle_1: &mut Paddle, paddle_2: &mut Paddle)
    requires
        old(ball).x > GAME_WIDTH ==> old(paddle_1).points < u32::MAX,
        old(ball).x < 0 ==> old(paddle_2).points < u32::MAX,
    ensures
        goal_handled(
            *old(ball),
            *final(ball),
            old(paddle_1).points,
            old(paddle_2).points,
            final(paddle_1).points,
            final(paddle_2).points,
        ),
        *final(paddle_1) == (Paddle { points: final(paddle_1).points, ..*old(paddle_1) }),
        *final(paddle_2) == (Paddle { points: final(paddle_2).points, ..*old(paddle_2) }),
        old(ball).dirs_valid() ==> final(ball).dirs_valid(),
        old(ball).x > GAME_WIDTH ==> {
            &&& final(ball).x == CENTER_X
            &&& final(ball).y == CENTER_Y
            &&& final(ball).dir_x == -1
            &&& final(paddle_1).points == old(paddle_1).points + 1
            &&& final(paddle_2).points == old(paddle_2).points
        },
{
    if ball.x > GAME_WIDTH {
        paddle_1.points = paddle_1.points + 1;
        ball.reset(-1);
    }
    if ball.x < 0 {
        paddle_2.points = paddle_2.points + 1;
        ball.reset(1);
    }
}

/// The two paddles, each at its side of the arena and vertically centred,
/// and a ball at the centre.
pub fn create_objects() -> (r: (Paddle, Paddle, Ball))
    ensures
        r.0 == Paddle::new_spec(PADDLE_OFFSET, KEY_W, KEY_S),
        r.1 == Paddle::new_spec(PADDLE_2_X, KEY_UP, KEY_DOWN),
        r.2.x == CENTER_X,
        r.2.y == CENTER_Y,
        r.2.wf(),
{
    let paddle_1 = Paddle::new(PADDLE_OFFSET, KEY_W, KEY_S);
    let paddle_2 = Paddle::new(PADDLE_2_X, KEY_UP, KEY_DOWN);
    let ball = Ball::new();
    (paddle_1, paddle_2, ball)
}

/// A match: both paddles and the ball, owned together and advanced one
/// frame at a time.
#[derive(Clone, Copy, Debug, PartialEq, Eq)]
pub struct Game {
    pub paddle_1: Paddle,
    pub paddle_2: Paddle,
    pub ball: Ball,
}

impl Game {
    /// The state between two frames: the ball is inside the arena
    /// horizontally, and vertically at most one frame's step past a wall
    /// and then heading back in.
    pub open spec fn wf(&self) -> bool {
        &&& self.paddle_1.wf()
        &&& self.paddle_2.wf()
        &&& self.ball.dirs_valid()
        &&& 0 <= self.ball.x <= GAME_WIDTH
        &&& -MAX_STEP <= self.ball.y <= GAME_HEIGHT - BALL_HEIGHT + MAX_STEP
        &&& self.ball.y < 0 ==> self.ball.dir_y == 1
        &&& self.ball.y > GAME_HEIGHT - BALL_HEIGHT ==> self.ball.dir_y == -1
    }

    /// `next` is what one frame of `elapsed_us` microseconds makes of this
    /// state: both paddles move, then the ball moves against the paddles'
    /// new positions, then the goal check runs.
    pub open spec fn stepped(
        self,
        next: Game,
        elapsed_us: int,
        up_1: bool,
        down_1: bool,
        up_2: bool,
        down_2: bool,
    ) -> bool {
        let p1 = self.paddle_1.next(elapsed_us, up_1, down_1);
        let p2 = self.paddle_2.next(elapsed_us, up_2, down_2);
        let moved = self.ball.next(elapsed_us, p1.rect(), p2.rect());
        &&& next.paddle_1 == (Paddle { points: next.paddle_1.points, ..p1 })
        &&& next.paddle_2 == (Paddle { points: next.paddle_2.points, ..p2 })
        &&& goal_handled(
            moved,
            next.ball,
            p1.points,
            p2.points,
            next.paddle_1.points,
            next.paddle_2.points,
        )
    }

    /// A new match with no points.
    pub fn new() -> (r: Game)
        ensures
            r.wf(),
            r.paddle_1 == Paddle::new_spec(PADDLE_OFFSET, KEY_W, KEY_S),
            r.paddle_2 == Paddle::new_spec(PADDLE_2_X, KEY_UP, KEY_DOWN),
            r.ball.x == CENTER_X,
            r.ball.y == CENTER_Y,
    {
        let (paddle_1, paddle_2, ball) = create_objects();
        Game { paddle_1, paddle_2, ball }
    }

    /// Runs one frame of `elapsed_us` microseconds with the given keys held.
    pub fn step(
        &mut self,
        elapsed_us: u64,
        up_1: bool,
        down_1: bool,
        up_2: bool,
        down_2: bool,
    )
        requires
            old(self).wf(),
            elapsed_us <= MAX_FRAME_US,
            old(self).paddle_1.points < u32::MAX,
            old(self).paddle_2.points < u32::MAX,
        ensures
            old(self).stepped(*final(self), elapsed_us as int, up_1, down_1, up_2, down_2),
            final(self).wf(),
    {
        self.paddle_1.update(elapsed_us, up_1, down_1);
        self.paddle_2.update(elapsed_us, up_2, down_2);
        let ghost before = self.ball;
        self.ball.update(elapsed_us, &self.paddle_1, &self.paddle_2);
        proof {
            lemma_ball_stays_in_band(before, elapsed_us as int, self.paddle_1, self.paddle_2);
        }
        check_for_goal(&mut self.ball, &mut self.paddle_1, &mut self.paddle_2);
    }
}

/// A ball that is vertically inside the arena, or past a wall by at most
/// one maximal step and heading back, stays so after a frame.
proof fn lemma_ball_stays_in_band(b: Ball, elapsed_us: int, p1: Paddle, p2: Paddle)
    requires
        b.dirs_valid(),
        0 <= elapsed_us <= MAX_FRAME_US,
        -MAX_STEP <= b.y <= GAME_HEIGHT - BALL_HEIGHT + MAX_STEP,
        b.y < 0 ==> b.dir_y == 1,
        b.y > GAME_HEIGHT - BALL_HEIGHT ==> b.dir_y == -1,
        -MAX_STEP <= b.x <= GAME_WIDTH + MAX_STEP,
    ensures
        ({
            let n = b.next(elapsed_us, p1.rect(), p2.rect());
            &&& n.dirs_valid()
            &&& -MAX_STEP <= n.y <= GAME_HEIGHT - BALL_HEIGHT + MAX_STEP
            &&& n.y < 0 ==> n.dir_y == 1
            &&& n.y > GAME_HEIGHT - BALL_HEIGHT ==> n.dir_y == -1
            &&& -2 * MAX_STEP <= n.x <= GAME_WIDTH + 2 * MAX_STEP
        }),
{
    let s = ball_step(elapsed_us);
    assert(b.dir_y * s == if b.dir_y == 1 { s } else { -s }) by (nonlinear_arith)
        requires
            b.dir_y == 1 || b.dir_y == -1,
    ;
    assert(b.dir_x * s == if b.dir_x == 1 { s } else { -s }) by (nonlinear_arith)
        requires
            b.dir_x == 1 || b.dir_x == -1,
    ;
}

/// A frame of zero length changes no position and no score. The only
/// change it can make is to turn the ball back from a paddle that it
/// overlaps while heading toward it.
pub proof fn lemma_zero_time_frame(
    g: Game,
    next: Game,
    up_1: bool,
    down_1: bool,
    up_2: bool,
    down_2: bool,
)
    requires
        g.wf(),
        g.stepped(next, 0, up_1, down_1, up_2, down_2),
    ensures
        next.paddle_1 == g.paddle_1,
        next.paddle_2 == g.paddle_2,
        next.ball.x == g.ball.x,
        next.ball.y == g.ball.y,
        next.ball.dir_y == g.ball.dir_y,
        !(overlaps(g.ball.rect(), g.paddle_1.rect()) && g.ball.dir_x == -1) && !(overlaps(
            g.ball.rect(),
            g.paddle_2.rect(),
        ) && g.ball.dir_x == 1) ==> next == g,
{
    lemma_paddle_zero_time(g.paddle_1, up_1, down_1);
    lemma_paddle_zero_time(g.paddle_2, up_2, down_2);
    lemma_ball_zero_time(g.ball, g.paddle_1.rect(), g.paddle_2.rect());
}

} // verus!
