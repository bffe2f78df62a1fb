//! A verified core for a real-time looper and metronome.
//!
//! The library holds the sample-accurate audio engine: the transport clock
//! and beat state machine, the metronome oscillator and envelope, the bank
//! of loop slots, and the monitoring filter chain.  Audio is carried in
//! fixed-point `i64` samples (see [`fixed`]), so every per-sample
//! computation is specified and proved exactly.  The host-server, terminal
//! and GPIO plumbing around the engine is ordinary unverified glue and
//! lives outside this crate.

pub mod adsr;
pub mod blink;
pub mod button;
pub mod callback;
pub mod countin;
pub mod delay;
pub mod distortion;
pub mod fixed;
pub mod loops;
pub mod oscillator;
pub mod prepare;
pub mod reverb;
pub mod rolling;
pub mod sample;
pub mod setup;
pub mod slot;
pub mod ui;
pub mod wah;
