//! Verified core of a side-scrolling runner game.
//!
//! A player-controlled character jumps over and under approaching
//! obstacles, the score grows with time, and a collision ends the run.
//! This crate holds the gameplay logic: the three-state game flow, the
//! per-frame kinematic integration of the player, obstacle scrolling and
//! recycling, animation clocks, scoring, and collision detection. The
//! host engine (windowing, rendering, audio, input polling) stays
//! outside; it hands each frame's elapsed time and key states in, and
//! takes positions, frame indices, the score line and audio cues back.
//!
//! All quantities are fixed-point integers: positions in micro-units
//! (one game unit is 1_000_000 micro-units), velocities in milli-units
//! per second, durations in milliseconds. One millisecond at one
//! milli-unit per second displaces by exactly one micro-unit, so the
//! per-frame integration is exact and every contract below is stated
//! without tolerance.

pub mod anim;
pub mod collision;
pub mod floor;
pub mod obstacle;
pub mod player;
pub mod rng;
pub mod score;
pub mod tuning;
pub mod world;
