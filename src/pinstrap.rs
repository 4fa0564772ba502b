//! Pinstrap address map for device type detection.
//!
//! When reading from a Modulino with a microcontroller, the first byte
//! returned is always the pinstrap address, which identifies the device type.
use vstd::prelude::*;

verus! {

/// Pinstrap address for Buzzer
pub const BUZZER: u8 = 0x3C;

/// Pinstrap address for Buttons
pub const BUTTONS: u8 = 0x7C;

/// Pinstrap addresses for Knob
pub const KNOB: [u8; 2] = [0x76, 0x74];

/// Pinstrap address for Pixels
pub const PIXELS: u8 = 0x6C;

/// Pinstrap address for Joystick
pub const JOYSTICK: u8 = 0x58;

/// Pinstrap address for Latch Relay
pub const LATCH_RELAY: u8 = 0x04;

/// Pinstrap address for Vibro
pub const VIBRO: u8 = 0x70;

} // verus!
