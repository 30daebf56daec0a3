use vstd::prelude::*;

use crate::arena::{
    overlaps, Rect, BALL_HEIGHT, BALL_SPEED, BALL_WIDTH, CENTER_X, CENTER_Y, GAME_HEIGHT, MAX_FRAME_US,
    MAX_STEP, POS_LIMIT,
};
use crate::paddle::Paddle;

verus! {

/// Relies on rand::random: a value drawn from the thread-local generator.
/// Nothing is promised of the value.
pub assume_specification<T>[ rand::random::<T> ]() -> (r: T)
    where
        rand::distributions::Standard: rand::distributions::Distribution<T>,
;

/// A direction sign: exactly -1 or +1.
pub open spec fn is_sign(d: int) -> bool {
    d == -1 || d == 1
}

/// Distance the ball covers along each axis in `elapsed_us` microseconds.
pub open spec fn ball_step(elapsed_us: int) -> int {
    BALL_SPEED * elapsed_us
}

/// The ball: the top-left corner of its rectangle, in sub-pixels, and the
/// sign of its motion along each axis.
#[derive(Clone, Copy, Debug, PartialEq, Eq)]
pub struct Ball {
    pub x: i64,
    pub y: i64,
    pub dir_x: i64,
    pub dir_y: i64,
}

/// The sign that a coin flip selects: -1 on `true`, +1 on `false`.
pub fn sign_of(negative: bool) -> (r: i64)
    ensures
        r == (if negative { -1i64 } else { 1i64 }),
        is_sign(r as int),
{
    if negative {
        -1
    } else {
        1
    }
}

impl Ball {
    /// Both directions are exactly -1 or +1.
    pub open spec fn dirs_valid(&self) -> bool {
        is_sign(self.dir_x as int) && is_sign(self.dir_y as int)
    }

    /// Valid directions, and a position where frame arithmetic cannot
    /// overflow.
    pub open spec fn wf(&self) -> bool {
        &&& self.dirs_valid()
        &&& -POS_LIMIT <= self.x <= POS_LIMIT
        &&& -POS_LIMIT <= self.y <= POS_LIMIT
    }

    /// The ball's collision rectangle.
    pub open spec fn rect(&self) -> Rect {
        Rect { x: self.x, y: self.y, width: BALL_WIDTH, height: BALL_HEIGHT }
    }

    /// The ball at the arena's centre, moving horizontally along `dir_x`,
    /// with a valid vertical direction.
    pub open spec fn is_served(&self, dir_x: int) -> bool {
        &&& self.x == CENTER_X
        &&& self.y == CENTER_Y
        &&& self.dir_x == dir_x
        &&& is_sign(self.dir_y as int)
    }

    /// The ball moved by one frame, before any bounce.
    pub open spec fn advanced(self, elapsed_us: int) -> Ball {
        Ball {
            x: (self.x + self.dir_x * ball_step(elapsed_us)) as i64,
            y: (self.y + self.dir_y * ball_step(elapsed_us)) as i64,
            ..self
        }
    }

    /// Horizontal direction after a frame that ended at `moved`: it turns
    /// back when the ball overlaps the paddle it is heading toward. The
    /// second paddle is consulted only when the first did not turn it.
    pub open spec fn bounced_dir_x(moved: Ball, paddle_1: Rect, paddle_2: Rect) -> i64 {
        if overlaps(moved.rect(), paddle_1) && moved.dir_x == -1 {
            1i64
        } else if overlaps(moved.rect(), paddle_2) && moved.dir_x == 1 {
            -1i64
        } else {
            moved.dir_x
        }
    }

    /// Vertical direction after a frame that ended at `moved`: it turns back
    /// when the ball is past the ceiling heading up or past the floor
    /// heading down.
    pub open spec fn bounced_dir_y(moved: Ball) -> i64 {
        if (moved.y < 0 && moved.dir_y == -1) || (moved.y + BALL_HEIGHT > GAME_HEIGHT
            && moved.dir_y == 1) {
            (-moved.dir_y) as i64
        } else {
            moved.dir_y
        }
    }

    /// The ball after one frame of `elapsed_us` microseconds against paddles
    /// whose rectangles are `paddle_1` (left) and `paddle_2` (right).
    pub open spec fn next(self, elapsed_us: int, paddle_1: Rect, paddle_2: Rect) -> Ball {
        let moved = self.advanced(elapsed_us);
        Ball {
            dir_x: Ball::bounced_dir_x(moved, paddle_1, paddle_2),
            dir_y: Ball::bounced_dir_y(moved),
            ..moved
        }
    }

    /// A ball at the arena's centre moving along `dir_x` and `dir_y`.
    pub fn centered(dir_x: i64, dir_y: i64) -> (r: Ball)
        requires
            is_sign(dir_x as int),
            is_sign(dir_y as int),
        ensures
            r == (Ball { x: CENTER_X, y: CENTER_Y, dir_x, dir_y }),
            r.is_served(dir_x as int),
            r.wf(),
    {
        Ball { x: CENTER_X, y: CENTER_Y, dir_x, dir_y }
    }

    /// A ball at the arena's centre; each direction is chosen by its own
    /// fair coin flip.
    pub fn new() -> (r: Ball)
        ensures
            r.x == CENTER_X,
            r.y == CENTER_Y,
            r.wf(),
    {
        let left: bool = rand::random::<bool>();
        let up: bool = rand::random::<bool>();
        Ball::centered(sign_of(left), sign_of(up))
    }

    /// Puts the ball back at the arena's centre, moving along `dir_x` and
    /// `dir_y`.
    pub fn reset_with(&mut self, dir_x: i64, dir_y: i64)
        requires
            is_sign(dir_x as int),
            is_sign(dir_y as int),
        ensures
            *final(self) == (Ball { x: CENTER_X, y: CENTER_Y, dir_x, dir_y }),
            final(self).wf(),
    {
        self.x = CENTER_X;
        self.y = CENTER_Y;
        self.dir_x = dir_x;
        self.dir_y = dir_y;
    }

    /// Puts the ball back at the arena's centre, moving horizontally along
    /// `dir`; the vertical direction is chosen by a fair coin flip.
    pub fn reset(&mut self, dir: i64)
        requires
            is_sign(dir as int),
        ensures
            final(self).is_served(dir as int),
            final(self).wf(),
    {
        let up: bool = rand::random::<bool>();
        self.reset_with(dir, sign_of(up));
    }

    /// The ball's collision rectangle.
    pub fn collider(&self) -> (r: Rect)
        ensures
            r == self.rect(),
    {
        Rect::new(self.x, self.y, BALL_WIDTH, BALL_HEIGHT)
    }

    /// Moves the ball for one frame of `elapsed_us` microseconds, then turns
    /// it back from the paddle it overlaps and is heading toward, and from a
    /// wall it has crossed while heading out.
    pub fn update(&mut self, elapsed_us: u64, paddle_1: &Paddle, paddle_2: &Paddle)
        requires
            old(self).wf(),
            paddle_1.wf(),
            paddle_2.wf(),
            elapsed_us <= MAX_FRAME_US,
        ensures
            *final(self) == old(self).next(elapsed_us as int, paddle_1.rect(), paddle_2.rect()),
            final(self).dirs_valid(),
    {
        let step: i64 = BALL_SPEED * (elapsed_us as i64);
        assert(step <= MAX_STEP);
        assert(self.dir_x * step == if self.dir_x == 1 { step as int } else { -step }) by (nonlinear_arith)
            requires
                is_sign(self.dir_x as int),
        ;
        assert(self.dir_y * step == if self.dir_y == 1 { step as int } else { -step }) by (nonlinear_arith)
            requires
                is_sign(self.dir_y as int),
        ;
        self.x = self.x + self.dir_x * step;
        self.y = self.y + self.dir_y * step;

        let ball_collider = self.collider();
        if paddle_1.collider().check_collision_recs(&ball_collider) && self.dir_x == -1 {
            self.dir_x = -self.dir_x;
        } else if paddle_2.collider().check_collision_recs(&ball_collider) && self.dir_x == 1 {
            self.dir_x = -self.dir_x;
        }
        if (self.y < 0 && self.dir_y == -1) || (self.y + BALL_HEIGHT > GAME_HEIGHT && self.dir_y
            == 1) {
            self.dir_y = -self.dir_y;
        }
    }
}

/// A ball heading left that ends a frame overlapping the left paddle
/// leaves that frame heading right, and a following frame in which it still
/// overlaps the left paddle, but not the right one, does not turn it back.
pub proof fn lemma_paddle_hit_turns_once(
    b: Ball,
    elapsed_1: int,
    elapsed_2: int,
    paddle_1: Rect,
    paddle_2: Rect,
    later_1: Rect,
    later_2: Rect,
)
    requires
        b.dirs_valid(),
        b.dir_x == -1,
        overlaps(b.advanced(elapsed_1).rect(), paddle_1),
    ensures
        b.next(elapsed_1, paddle_1, paddle_2).dir_x == 1,
        ({
            let b1 = b.next(elapsed_1, paddle_1, paddle_2);
            overlaps(b1.advanced(elapsed_2).rect(), later_1) && !overlaps(
                b1.advanced(elapsed_2).rect(),
                later_2,
            ) ==> b1.next(elapsed_2, later_1, later_2).dir_x == 1
        }),
{
}

/// A frame of zero length leaves the ball where it was; its directions
/// change only where it overlaps the paddle it is heading toward, or lies
/// past the wall it is heading toward.
pub proof fn lemma_ball_zero_time(b: Ball, paddle_1: Rect, paddle_2: Rect)
    requires
        b.dirs_valid(),
    ensures
        b.next(0, paddle_1, paddle_2).x == b.x,
        b.next(0, paddle_1, paddle_2).y == b.y,
        !(overlaps(b.rect(), paddle_1) && b.dir_x == -1) && !(overlaps(b.rect(), paddle_2)
            && b.dir_x == 1) ==> b.next(0, paddle_1, paddle_2).dir_x == b.dir_x,
        !(b.y < 0 && b.dir_y == -1) && !(b.y + BALL_HEIGHT > GAME_HEIGHT && b.dir_y == 1)
            ==> b.next(0, paddle_1, paddle_2).dir_y == b.dir_y,
{
    assert(b.advanced(0) == b);
}

} // verus!
