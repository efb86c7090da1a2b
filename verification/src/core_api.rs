use vstd::prelude::*;
use crate::Rotation;

verus! {

/// The narrow contract the scheduler holds against the emulation core. The
/// core (CPU, chip logic, cartridge decoding) is an external collaborator:
/// nothing is assumed of what these calls do to it or return, and everything
/// the scheduler guarantees holds for every implementation. Methods take the
/// core mutably throughout, since even reads may advance internal state.
pub trait EmulationCore {
    /// Replace the internal boot image. True when the image is accepted.
    fn load_rom(&mut self, bytes: &[u8]) -> bool;

    /// Load the mandatory cartridge image. True when the image is accepted.
    fn load_cartridge(&mut self, bytes: &[u8]) -> bool;

    /// Advance the core by one emulated clock cycle.
    fn tick(&mut self);

    /// Apply a packed directional-pad and action-button state.
    fn set_joystick(&mut self, bits: u8);

    /// Apply a packed system-switch state.
    fn set_switches(&mut self, bits: u8);

    /// Current stereo output level as an interleaved pair.
    fn audio_sample(&mut self) -> (i16, i16);

    /// Whether a completed frame is ready to be published.
    fn redraw_requested(&mut self) -> bool;

    /// The completed frame as a byte sequence.
    fn frame_pixels(&mut self) -> Vec<u8>;

    /// Screen orientation from the loaded cartridge header.
    fn rotation(&mut self) -> Rotation;

    /// Mirror of the serial link state: whether a peer is attached.
    fn set_cable_present(&mut self, present: bool);

    /// Deliver one byte arriving over the serial link.
    fn serial_rx(&mut self, byte: u8);

    /// One byte the core wants to send over the serial link, if any.
    fn serial_tx(&mut self) -> Option<u8>;
}

} // verus!
