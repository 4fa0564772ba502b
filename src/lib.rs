//! Drivers for the Modulino family of I2C breakout boards.
//!
//! Every driver owns its bus through an [`I2cDevice`], which records the
//! transactions issued; the contracts state the exact bytes sent and how
//! each returned value is decoded from the bytes received.
pub mod addresses;
pub mod buttons;
pub mod buzzer;
pub mod color;
pub mod distance;
pub mod error;
pub mod i2c_device;
pub mod joystick;
pub mod knob;
pub mod latch_relay;
pub mod movement;
pub mod pinstrap;
pub mod pixels;
pub mod vibro;

pub use buttons::{ButtonLed, ButtonState, Buttons};
pub use buzzer::{Buzzer, Note};
pub use color::Color;
pub use distance::Distance;
pub use error::{Error, Result};
pub use i2c_device::I2cDevice;
pub use joystick::Joystick;
pub use knob::Knob;
pub use latch_relay::LatchRelay;
pub use movement::Movement;
pub use pixels::Pixels;
pub use vibro::{PowerLevel, Vibro};
