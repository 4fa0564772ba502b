//! Modulino Vibro driver.
//!
//! The Modulino Vibro module contains a vibration motor. It is driven with
//! one twelve-byte write: frequency, duration and power, each as a 32-bit
//! value least significant byte first.
use crate::addresses;
use crate::error::{from_bus, Result};
use crate::i2c_device::{reports, le32, ran, Exchange, I2cDevice, Request};
use embedded_hal::i2c::I2c;
use vstd::prelude::*;

verus! {

/// Duration that keeps the motor running until it is stopped.
pub const CONTINUOUS: u16 = 0xFFFF;

/// Predefined power levels for the vibration motor.
#[derive(Debug, Clone, Copy, PartialEq, Eq)]
pub enum PowerLevel {
    /// Motor stopped
    Stop,
    /// Gentle vibration
    Gentle,
    /// Moderate vibration
    Moderate,
    /// Medium vibration
    Medium,
    /// Intense vibration
    Intense,
    /// Powerful vibration
    Powerful,
    /// Maximum vibration
    Maximum,
}

/// The power value of a level, on the 0-100 scale.
pub open spec fn power_value(level: PowerLevel) -> u8 {
    match level {
        PowerLevel::Stop => 0,
        PowerLevel::Gentle => 25,
        PowerLevel::Moderate => 35,
        PowerLevel::Medium => 45,
        PowerLevel::Intense => 55,
        PowerLevel::Powerful => 65,
        PowerLevel::Maximum => 75,
    }
}

/// The payload that runs the motor.
pub open spec fn vibration_payload(frequency: u32, duration_ms: u16, power: u8) -> Seq<u8> {
    le32(frequency) + le32(duration_ms as u32) + le32(power as u32)
}

/// The payload that stops the motor: twelve zero bytes.
pub open spec fn stop_payload() -> Seq<u8> {
    vibration_payload(0, 0, 0)
}

impl Default for PowerLevel {
    /// Medium vibration.
    fn default() -> (r: Self)
        ensures
            r == PowerLevel::Medium,
    {
        PowerLevel::Medium
    }
}

impl PowerLevel {
    /// Get the numeric power value.
    pub fn value(&self) -> (r: u8)
        ensures
            r == power_value(*self),
    {
        match self {
            PowerLevel::Stop => 0,
            PowerLevel::Gentle => 25,
            PowerLevel::Moderate => 35,
            PowerLevel::Medium => 45,
            PowerLevel::Intense => 55,
            PowerLevel::Powerful => 65,
            PowerLevel::Maximum => 75,
        }
    }
}

impl From<PowerLevel> for u8 {
    fn from(level: PowerLevel) -> (r: u8) {
        level.value()
    }
}

impl vstd::std_specs::convert::FromSpecImpl<PowerLevel> for u8 {
    open spec fn obeys_from_spec() -> bool {
        true
    }

    open spec fn from_spec(level: PowerLevel) -> u8 {
        power_value(level)
    }
}

/// Driver for the Modulino Vibro module.
pub struct Vibro<I2C> {
    device: I2cDevice<I2C>,
    frequency: u32,
}

impl<I2C: I2c> Vibro<I2C> {
    /// Default vibration frequency in Hz.
    pub const DEFAULT_FREQUENCY: u32 = 1000;

    /// The transactions issued by this driver, oldest first.
    pub closed spec fn history(&self) -> Seq<Exchange> {
        self.device.history@
    }

    /// The bus address of the module.
    pub closed spec fn bus_address(&self) -> u8 {
        self.device.address
    }

    /// The bus handed over at construction.
    pub closed spec fn bus(&self) -> I2C {
        self.device.i2c
    }

    /// The vibration frequency in Hz.
    pub closed spec fn hz(&self) -> u32 {
        self.frequency
    }

    /// Create a new Vibro instance with the default address.
    pub fn new(i2c: I2C) -> (r: Result<Self>)
        ensures
            r matches Ok(v) ==> {
                &&& v.bus_address() == addresses::VIBRO
                &&& v.hz() == Self::DEFAULT_FREQUENCY
                &&& ran(Seq::empty(), v.history(), v.bus_address(), seq![Request::Write(stop_payload())], true)
            },
            from_bus(r),
    {
        Self::new_with_address(i2c, addresses::VIBRO)
    }

    /// Create a new Vibro instance with a custom address, motor off.
    pub fn new_with_address(i2c: I2C, address: u8) -> (r: Result<Self>)
        ensures
            r matches Ok(v) ==> {
                &&& v.bus_address() == address
                &&& v.hz() == Self::DEFAULT_FREQUENCY
                &&& ran(Seq::empty(), v.history(), address, seq![Request::Write(stop_payload())], true)
            },
            from_bus(r),
    {
        let mut vibro = Vibro { device: I2cDevice::new(i2c, address), frequency: Self::DEFAULT_FREQUENCY };
        match vibro.off() {
            Ok(()) => Ok(vibro),
            Err(e) => Err(e),
        }
    }

    /// Get the I2C address.
    pub fn address(&self) -> (r: u8)
        ensures
            r == self.bus_address(),
    {
        self.device.address
    }

    /// Get the current frequency setting.
    pub fn frequency(&self) -> (r: u32)
        ensures
            r == self.hz(),
    {
        self.frequency
    }

    /// Set the vibration frequency; it applies from the next `on`.
    pub fn set_frequency(&mut self, frequency: u32)
        ensures
            final(self).hz() == frequency,
            final(self).history() == old(self).history(),
            final(self).bus_address() == old(self).bus_address(),
            final(self).bus() == old(self).bus(),
    {
        self.frequency = frequency;
    }

    /// Turn on the vibration motor for `duration_ms` milliseconds (0xFFFF
    /// for indefinite) at a power level.
    pub fn on(&mut self, duration_ms: u16, power: PowerLevel) -> (r: Result<()>)
        ensures
            final(self).bus_address() == old(self).bus_address(),
            final(self).hz() == old(self).hz(),
            ran(
                old(self).history(),
                final(self).history(),
                old(self).bus_address(),
                seq![Request::Write(vibration_payload(old(self).hz(), duration_ms, power_value(power)))],
                r is Ok,
            ),
            from_bus(r),
            reports(r, final(self).history()),
    {
        self.on_with_power(duration_ms, power.value())
    }

    /// Turn on the vibration motor with a custom power level (0-100).
    pub fn on_with_power(&mut self, duration_ms: u16, power: u8) -> (r: Result<()>)
        ensures
            final(self).bus_address() == old(self).bus_address(),
            final(self).hz() == old(self).hz(),
            ran(
                old(self).history(),
                final(self).history(),
                old(self).bus_address(),
                seq![Request::Write(vibration_payload(old(self).hz(), duration_ms, power))],
                r is Ok,
            ),
            from_bus(r),
            reports(r, final(self).history()),
    {
        let f = self.frequency;
        let data = [
            (f % 256) as u8,
            (f / 256 % 256) as u8,
            (f / 0x1_0000 % 256) as u8,
            (f / 0x100_0000) as u8,
            (duration_ms % 256) as u8,
            (duration_ms / 256) as u8,
            0,
            0,
            power,
            0,
            0,
            0,
        ];
        assert(data@ =~= vibration_payload(f, duration_ms, power));
        self.device.write(&data)
    }

    /// Turn on the vibration motor indefinitely.
    pub fn on_continuous(&mut self, power: PowerLevel) -> (r: Result<()>)
        ensures
            final(self).bus_address() == old(self).bus_address(),
            final(self).hz() == old(self).hz(),
            ran(
                old(self).history(),
                final(self).history(),
                old(self).bus_address(),
                seq![Request::Write(vibration_payload(old(self).hz(), CONTINUOUS, power_value(power)))],
                r is Ok,
            ),
            from_bus(r),
            reports(r, final(self).history()),
    {
        self.on(CONTINUOUS, power)
    }

    /// Turn off the vibration motor.
    pub fn off(&mut self) -> (r: Result<()>)
        ensures
            final(self).bus_address() == old(self).bus_address(),
            final(self).hz() == old(self).hz(),
            ran(old(self).history(), final(self).history(), old(self).bus_address(), seq![Request::Write(stop_payload())], r is Ok),
            from_bus(r),
            reports(r, final(self).history()),
    {
        let data = [0u8; 12];
        assert(data@ =~= stop_payload());
        self.device.write(&data)
    }

    /// Alias for `off()`.
    pub fn stop(&mut self) -> (r: Result<()>)
        ensures
            final(self).bus_address() == old(self).bus_address(),
            final(self).hz() == old(self).hz(),
            ran(old(self).history(), final(self).history(), old(self).bus_address(), seq![Request::Write(stop_payload())], r is Ok),
            from_bus(r),
            reports(r, final(self).history()),
    {
        self.off()
    }

    /// Vibrate once for `on_ms` milliseconds at a power level.
    pub fn pulse(&mut self, on_ms: u16, power: PowerLevel) -> (r: Result<()>)
        ensures
            final(self).bus_address() == old(self).bus_address(),
            final(self).hz() == old(self).hz(),
            ran(
                old(self).history(),
                final(self).history(),
                old(self).bus_address(),
                seq![Request::Write(vibration_payload(old(self).hz(), on_ms, power_value(power)))],
                r is Ok,
            ),
            from_bus(r),
            reports(r, final(self).history()),
    {
        self.on(on_ms, power)
    }

    /// Release the I2C bus.
    pub fn release(self) -> (r: I2C)
        ensures
            r == self.bus(),
    {
        self.device.release()
    }
}

} // verus!
