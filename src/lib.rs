//! Ambient particle engine: rising, fading sprites whose spawning, motion,
//! opacity and retirement are driven once per frame by the host.
//!
//! All quantities are fixed-point integers: time in microseconds, fractions
//! (progress, opacity, the spawn draw) in millionths, distances in
//! nano-units, speeds in milli-units per second and headings in millionths
//! of a full turn.

pub mod timer;
pub mod particle;
pub mod spawn;
pub mod simulation;
