//! Core simulation rules of a Pong game: the ball's two-state lifecycle
//! (waiting, then moving), its motion and bounce acceleration, and the
//! color-cycling tint effect attached to it.
//!
//! Every scalar is an exact fixed-point integer:
//! - durations are milliseconds,
//! - velocities are thousandths of an arena unit per second,
//! - positions are millionths of an arena unit,
//! - color channels are thousandths of full intensity.
//!
//! With these units the product of a velocity and a duration is exactly a
//! position offset, so ball motion is drift-free by construction.

pub mod cycling_color;
pub mod move_balls;
pub mod pong;
