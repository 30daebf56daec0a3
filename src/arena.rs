use vstd::prelude::*;

verus! {

/// Sub-pixels per screen pixel.
pub const SUBPIXELS: i64 = 1_000_000;

/// Arena width, in sub-pixels.
pub const GAME_WIDTH: i64 = 1280 * SUBPIXELS;
/// Arena height, in sub-pixels.
pub const GAME_HEIGHT: i64 = 720 * SUBPIXELS;
/// Horizontal coordinate of the arena's centre.
pub const CENTER_X: i64 = 640 * SUBPIXELS;
/// Vertical coordinate of the arena's centre.
pub const CENTER_Y: i64 = 360 * SUBPIXELS;

/// Distance of the left paddle from the left wall, in sub-pixels.
pub const PADDLE_OFFSET: i64 = 50 * SUBPIXELS;
/// Paddle speed, in pixels per second (sub-pixels per microsecond).
pub const PADDLE_SPEED: i64 = 500;
pub const PADDLE_WIDTH: i64 = 32 * SUBPIXELS;
pub const PADDLE_HEIGHT: i64 = 150 * SUBPIXELS;

/// Ball speed along each axis, in pixels per second (sub-pixels per microsecond).
pub const BALL_SPEED: i64 = 500;
pub const BALL_WIDTH: i64 = 32 * SUBPIXELS;
pub const BALL_HEIGHT: i64 = 32 * SUBPIXELS;

/// Longest frame the simulation accepts, in microseconds (about 31 years).
pub const MAX_FRAME_US: u64 = 1_000_000_000_000_000;
/// Largest distance any entity covers in one frame, in sub-pixels.
pub const MAX_STEP: i64 = 500 * 1_000_000_000_000_000;
/// Positions handed to an update lie within this distance of the origin,
/// which keeps every sum computed during a frame inside `i64`.
pub const POS_LIMIT: i64 = 4_000_000_000_000_000_000;

/// An axis-aligned rectangle: top-left corner and size, in sub-pixels.
#[derive(Clone, Copy, Debug, PartialEq, Eq)]
pub struct Rect {
    pub x: i64,
    pub y: i64,
    pub width: i64,
    pub height: i64,
}

/// Two rectangles overlap when their interiors intersect on both axes
/// (rectangles that only touch along an edge do not overlap).
pub open spec fn overlaps(a: Rect, b: Rect) -> bool {
    &&& a.x < b.x + b.width
    &&& a.x + a.width > b.x
    &&& a.y < b.y + b.height
    &&& a.y + a.height > b.y
}

impl Rect {
    pub fn new(x: i64, y: i64, width: i64, height: i64) -> (r: Rect)
        ensures
            r == (Rect { x, y, width, height }),
    {
        Rect { x, y, width, height }
    }

    /// Whether the two rectangles overlap.
    pub fn check_collision_recs(&self, other: &Rect) -> (r: bool)
        ensures
            r == overlaps(*self, *other),
    {
        (self.x as i128) < (other.x as i128) + (other.width as i128)
            && (self.x as i128) + (self.width as i128) > (other.x as i128)
            && (self.y as i128) < (other.y as i128) + (other.height as i128)
            && (self.y as i128) + (self.height as i128) > (other.y as i128)
    }
}

/// The pixel that a sub-pixel coordinate falls in, rounding toward zero.
pub open spec fn pixel_of(v: int) -> int {
    if v >= 0 {
        v / (SUBPIXELS as int)
    } else {
        -((-v) / (SUBPIXELS as int))
    }
}

/// `v` clamped into the range of `i32`.
pub open spec fn clamp_i32(v: int) -> int {
    if v < i32::MIN {
        i32::MIN as int
    } else if v > i32::MAX {
        i32::MAX as int
    } else {
        v
    }
}

/// Screen coordinate of a sub-pixel coordinate: the pixel it falls in,
/// rounded toward zero and saturated to the range of `i32`.
pub fn to_pixels(v: i64) -> (r: i32)
    ensures
        r as int == clamp_i32(pixel_of(v as int)),
{
    let p: i64 = if v >= 0 {
        v / SUBPIXELS
    } else {
        let m: i64 = if v == i64::MIN { i64::MAX } else { -v };
        proof {
            if v == i64::MIN {
                assert(i64::MAX / SUBPIXELS == (-(v as int)) / (SUBPIXELS as int));
            }
        }
        -(m / SUBPIXELS)
    };
    if p < i32::MIN as i64 {
        i32::MIN
    } else if p > i32::MAX as i64 {
        i32::MAX
    } else {
        p as i32
    }
}

} // verus!
