//! Per-frame simulation of a two-paddle ball game: paddle motion, ball
//! motion with directional bounces, and goal detection.
//!
//! Lengths are integers in sub-pixels (`SUBPIXELS` per screen pixel) and
//! frame times are integers in microseconds, so a speed in pixels per second
//! is exactly the distance in sub-pixels covered per microsecond.
pub mod arena;
pub mod ball;
pub mod game;
pub mod paddle;
