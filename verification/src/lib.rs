//! Verified core of a small flappy-bird style game: one player sprite falls
//! under gravity, jumps on an edge-triggered flap input, and is clamped to the
//! vertical screen bounds once per frame.
//!
//! All simulation state is kept in fixed-point integers so that every rule is
//! exact arithmetic:
//!
//! * positions are held in millionths of a pixel,
//! * vertical velocities in thousandths of a pixel per second
//!   (numerically the same as millionths of a pixel per millisecond),
//! * elapsed time in whole milliseconds,
//! * gravity as the change of velocity per millisecond
//!   (numerically the same as pixels per second squared).
//!
//! With these units a tick needs no division: gravity adds `g * dt` to the
//! velocity and integration adds `v * dt` to the vertical position, both
//! exactly. The host frame loop owns the clock, the window, the input device
//! and the audio device; it hands this crate plain values each tick and
//! receives the next state and an audio-trigger flag back.

pub mod config;
pub mod input;
pub mod laws;
pub mod physics;
pub mod player;
pub mod step;
