//! Host-side pacing, input arbitration, audio synthesis and differential
//! rendering for a cycle-stepped console emulation core.
//!
//! The core itself, the output devices and the event source belong to the
//! host. The host hands this library plain values (port bytes, clock ticks,
//! bits of video memory, input deltas) and performs what comes back: bytes
//! for the input ports, samples and their schedule, rectangles to fill.

pub mod keyboard;
pub mod pacing;
pub mod query;
pub mod side_panel;
pub mod sound;
pub mod video;

pub use pacing::run;
