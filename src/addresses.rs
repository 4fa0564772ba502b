//! Default I2C addresses for Modulino devices.
//!
//! These are the factory-default 7-bit I2C addresses. Some modules support
//! multiple addresses via hardware configuration (solder jumpers).
use vstd::prelude::*;

verus! {

/// Default address for Modulino Buttons (0x7C >> 1 = 0x3E)
pub const BUTTONS: u8 = 0x3E;

/// Default address for Modulino Buzzer (0x3C >> 1 = 0x1E)
pub const BUZZER: u8 = 0x1E;

/// Default address for Modulino Pixels (0x6C >> 1 = 0x36)
pub const PIXELS: u8 = 0x36;

/// Default address for Modulino Distance
pub const DISTANCE: u8 = 0x29;

/// Default addresses for Modulino Movement (configurable via solder jumper)
pub const MOVEMENT: [u8; 2] = [0x6A, 0x6B];

/// Default addresses for Modulino Knob (two possible addresses)
pub const KNOB: [u8; 2] = [0x3A, 0x3B];

/// Default address for Modulino Thermo
pub const THERMO: u8 = 0x44;

/// Default address for Modulino Joystick (0x58 >> 1 = 0x2C)
pub const JOYSTICK: u8 = 0x2C;

/// Default address for Modulino Latch Relay (0x04 >> 1 = 0x02)
pub const LATCH_RELAY: u8 = 0x02;

/// Default address for Modulino Vibro (0x70 >> 1 = 0x38)
pub const VIBRO: u8 = 0x38;

} // verus!
