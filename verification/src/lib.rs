//! Real-time scheduler for a cycle-stepped handheld-console core.
//!
//! A [`worker::Worker`] exclusively owns an emulation core (anything
//! implementing the narrow [`core_api::EmulationCore`] contract), ticks it
//! at its native cadence, derives a decimated audio stream into a bounded
//! [`ring::SampleRing`], publishes completed frames without ever blocking
//! the tick loop, applies buffered input snapshots, and relays an optional
//! byte-serial link. A supervisor on the host side spawns the worker,
//! blocks on the one-shot rotation handshake, and shuts it down by closing
//! the input channel.
//!
//! Pacing is tick-group-paced throughout: the worker busy-waits until a
//! scheduled trigger instant, then advances the core by a fixed group of
//! ticks, keeping cumulative drift bounded to one group. The alternative
//! frame-synchronized mode (tick until the core completes a frame, then
//! sleep out the frame budget) is deliberately not implemented: one
//! consistent mode keeps audio and video latency predictable.

pub mod channel;
pub mod clock;
pub mod config;
pub mod core_api;
pub mod input;
pub mod ring;
pub mod serial;
pub mod timing;
pub mod worker;

use vstd::prelude::*;

verus! {

/// Orientation of the emulated screen, read once from the cartridge header.
#[derive(Clone, Copy, Debug, PartialEq, Eq, Structural)]
pub enum Rotation {
    Normal,
    Rotate90,
    Rotate270,
}

} // verus!
