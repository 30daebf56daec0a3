use vstd::prelude::*;

use crate::arena::{
    Rect, CENTER_Y, GAME_HEIGHT, MAX_FRAME_US, MAX_STEP, PADDLE_HEIGHT, PADDLE_SPEED, PADDLE_WIDTH,
    POS_LIMIT,
};

verus! {

/// Distance a paddle covers in `elapsed_us` microseconds, in sub-pixels.
pub open spec fn paddle_step(elapsed_us: int) -> int {
    PADDLE_SPEED * elapsed_us
}

/// Vertical position of a paddle after one frame. Each key moves the paddle
/// by `step` only while its guard holds: up while `y > 0`, down while the
/// bottom edge is above the floor. There is no clamping, so a long frame can
/// carry the paddle past a wall by up to `step`.
pub open spec fn paddle_next_y(y: int, step: int, up: bool, down: bool) -> int {
    let y1 = if up && y > 0 {
        y - step
    } else {
        y
    };
    if down && y1 + PADDLE_HEIGHT < GAME_HEIGHT {
        y1 + step
    } else {
        y1
    }
}

/// One player's paddle: a rectangle that moves vertically at a fixed
/// horizontal position. The keys are the codes of the controls that move it.
#[derive(Clone, Copy, Debug, PartialEq, Eq)]
pub struct Paddle {
    pub up_key: i32,
    pub down_key: i32,
    pub x: i64,
    pub y: i64,
    pub points: u32,
}

impl Paddle {
    /// The paddle's position lies where frame arithmetic cannot overflow.
    pub open spec fn wf(&self) -> bool {
        &&& -POS_LIMIT <= self.x <= POS_LIMIT
        &&& -POS_LIMIT <= self.y <= POS_LIMIT
    }

    /// The paddle's collision rectangle.
    pub open spec fn rect(&self) -> Rect {
        Rect { x: self.x, y: self.y, width: PADDLE_WIDTH, height: PADDLE_HEIGHT }
    }

    /// The paddle after one frame of `elapsed_us` microseconds.
    pub open spec fn next(self, elapsed_us: int, up: bool, down: bool) -> Paddle {
        Paddle {
            y: paddle_next_y(self.y as int, paddle_step(elapsed_us), up, down) as i64,
            ..self
        }
    }

    /// The paddle that `new` makes.
    pub open spec fn new_spec(x_pos: i64, up_key: i32, down_key: i32) -> Paddle {
        Paddle { x: x_pos, y: CENTER_Y, up_key, down_key, points: 0 }
    }

    /// A paddle at horizontal position `x_pos`, vertically at the arena's
    /// middle, with no points.
    pub fn new(x_pos: i64, up_key: i32, down_key: i32) -> (r: Paddle)
        ensures
            r == Paddle::new_spec(x_pos, up_key, down_key),
            r.x == x_pos,
            r.y == CENTER_Y,
            r.points == 0,
            r.up_key == up_key,
            r.down_key == down_key,
    {
        Paddle { x: x_pos, y: CENTER_Y, up_key, down_key, points: 0 }
    }

    /// The paddle's collision rectangle.
    pub fn collider(&self) -> (r: Rect)
        ensures
            r == self.rect(),
    {
        Rect::new(self.x, self.y, PADDLE_WIDTH, PADDLE_HEIGHT)
    }

    /// Moves the paddle for one frame of `elapsed_us` microseconds, given
    /// which of its two keys are held.
    pub fn update(&mut self, elapsed_us: u64, up_pressed: bool, down_pressed: bool)
        requires
            old(self).wf(),
            elapsed_us <= MAX_FRAME_US,
        ensures
            *final(self) == old(self).next(elapsed_us as int, up_pressed, down_pressed),
            final(self).y == paddle_next_y(
                old(self).y as int,
                paddle_step(elapsed_us as int),
                up_pressed,
                down_pressed,
            ),
            final(self).wf(),
    {
        let step: i64 = PADDLE_SPEED * (elapsed_us as i64);
        assert(step <= MAX_STEP);
        if up_pressed && self.y > 0 {
            self.y = self.y - step;
        }
        if down_pressed && self.y + PADDLE_HEIGHT < GAME_HEIGHT {
            self.y = self.y + step;
        }
    }
}

/// A paddle that starts inside the arena ends a frame inside it, or past a
/// wall by at most the distance it covers in that frame.
pub proof fn lemma_paddle_overshoot_bounded(y: int, elapsed_us: int, up: bool, down: bool)
    requires
        0 <= y <= GAME_HEIGHT - PADDLE_HEIGHT,
        0 <= elapsed_us,
    ensures
        -paddle_step(elapsed_us) <= paddle_next_y(y, paddle_step(elapsed_us), up, down),
        paddle_next_y(y, paddle_step(elapsed_us), up, down) <= GAME_HEIGHT - PADDLE_HEIGHT
            + paddle_step(elapsed_us),
{
}

/// Paddles never move farther past a wall than one frame's step beyond
/// where they already were.
pub proof fn lemma_paddle_stays_near_arena(y: int, elapsed_us: int, up: bool, down: bool)
    requires
        0 <= elapsed_us,
    ensures
        paddle_next_y(y, paddle_step(elapsed_us), up, down) >= if y < 0 {
            y
        } else {
            -paddle_step(elapsed_us)
        },
        paddle_next_y(y, paddle_step(elapsed_us), up, down) <= if y
            > GAME_HEIGHT - PADDLE_HEIGHT {
            y
        } else {
            GAME_HEIGHT - PADDLE_HEIGHT + paddle_step(elapsed_us)
        },
{
}

/// A frame of zero length leaves a paddle where it was.
pub proof fn lemma_paddle_zero_time(p: Paddle, up: bool, down: bool)
    ensures
        p.next(0, up, down) == p,
{
    assert(paddle_next_y(p.y as int, paddle_step(0), up, down) == p.y as int);
}

} // verus!
