//! A two-player ball-and-paddle simulation ("Pong").
//!
//! The library is the deterministic per-tick core: paddle motion with a
//! boundary-correction step, parametric ball motion from the last bounce
//! origin, collision detection against walls and paddles, angle reflection,
//! scoring, ball reset, and the win check.
//!
//! All geometry is carried in fixed-point integers so that every step is an
//! exact, verifiable function:
//! - lengths and positions are in fine units of 1/10000 of an arena unit;
//! - the travel distance since the last bounce is in whole arena units;
//! - the direction is a raw angle in microradians (never normalized),
//!   together with its cosine and sine scaled by 10000. The host supplies
//!   the two trigonometric components when a direction is created; every
//!   reflection afterwards transforms the angle and both components exactly
//!   (a top/bottom bounce negates the sine, a paddle bounce negates the
//!   cosine), so a position is always `origin + distance * (cos, sin)`.
//!
//! Rendering, input-device polling and the event loop are the host's side;
//! the host hands the core a key snapshot each tick and reads the state back.

pub mod consts;
pub mod types;
pub mod paddle;
pub mod ball;
pub mod collision;
pub mod sim;
pub mod random;
