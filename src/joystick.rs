//! Modulino Joystick driver.
//!
//! The Modulino Joystick module is an analog joystick with a push button.
//! A read returns the pinstrap byte, the raw X and Y positions (0-255, 128
//! at rest) and the button state.
use crate::addresses;
use crate::error::{from_bus, Result};
use crate::i2c_device::{reports, ran, reply, Exchange, I2cDevice, Request};
use embedded_hal::i2c::I2c;
use vstd::prelude::*;

verus! {

/// A raw axis reading moved to the -128..=127 range, and reported as 0
/// when it lies closer to the center than `deadzone`.
pub open spec fn axis_value(raw: u8, deadzone: u8) -> int {
    let centered = raw - 128;
    let distance = if centered < 0 { -centered } else { centered };
    if distance < deadzone {
        0
    } else {
        centered
    }
}

/// Driver for the Modulino Joystick module.
///
/// The joystick reports X and Y values in the range -128 to 127,
/// where (0, 0) is the center position.
pub struct Joystick<I2C> {
    device: I2cDevice<I2C>,
    x: i8,
    y: i8,
    button_pressed: bool,
    deadzone: u8,
}

impl<I2C: I2c> Joystick<I2C> {
    /// Default deadzone threshold.
    pub const DEFAULT_DEADZONE: u8 = 10;

    /// The transactions issued by this driver, oldest first.
    pub closed spec fn history(&self) -> Seq<Exchange> {
        self.device.history@
    }

    /// The bus address of the module.
    pub closed spec fn bus_address(&self) -> u8 {
        self.device.address
    }

    /// The bus handed over at construction.
    pub closed spec fn bus(&self) -> I2C {
        self.device.i2c
    }

    /// The X and Y values and the button state last read.
    pub closed spec fn reading(&self) -> (i8, i8, bool) {
        (self.x, self.y, self.button_pressed)
    }

    /// The deadzone threshold.
    pub closed spec fn threshold(&self) -> u8 {
        self.deadzone
    }

    /// Create a new Joystick instance with the default address.
    pub fn new(i2c: I2C) -> (r: Result<Self>)
        ensures
            r matches Ok(j) ==> {
                let report = reply(Seq::empty(), j.history(), 0);
                &&& j.bus_address() == addresses::JOYSTICK
                &&& j.threshold() == Self::DEFAULT_DEADZONE
                &&& ran(Seq::empty(), j.history(), j.bus_address(), seq![Request::Read(4)], true)
                &&& j.reading().0 == axis_value(report[1], Self::DEFAULT_DEADZONE)
                &&& j.reading().1 == axis_value(report[2], Self::DEFAULT_DEADZONE)
                &&& j.reading().2 == (report[3] != 0)
            },
            from_bus(r),
    {
        Self::new_with_address(i2c, addresses::JOYSTICK)
    }

    /// Create a new Joystick instance with a custom address, and read the
    /// initial state.
    pub fn new_with_address(i2c: I2C, address: u8) -> (r: Result<Self>)
        ensures
            r matches Ok(j) ==> {
                let report = reply(Seq::empty(), j.history(), 0);
                &&& j.bus_address() == address
                &&& j.threshold() == Self::DEFAULT_DEADZONE
                &&& ran(Seq::empty(), j.history(), address, seq![Request::Read(4)], true)
                &&& j.reading().0 == axis_value(report[1], Self::DEFAULT_DEADZONE)
                &&& j.reading().1 == axis_value(report[2], Self::DEFAULT_DEADZONE)
                &&& j.reading().2 == (report[3] != 0)
            },
            from_bus(r),
    {
        let mut joystick = Joystick {
            device: I2cDevice::new(i2c, address),
            x: 0,
            y: 0,
            button_pressed: false,
            deadzone: Self::DEFAULT_DEADZONE,
        };
        match joystick.update() {
            Ok(_) => Ok(joystick),
            Err(e) => Err(e),
        }
    }

    /// Get the I2C address.
    pub fn address(&self) -> (r: u8)
        ensures
            r == self.bus_address(),
    {
        self.device.address
    }

    /// Apply deadzone logic to normalize coordinates.
    fn normalize_coordinate(&self, raw: u8) -> (r: i8)
        ensures
            r == axis_value(raw, self.deadzone),
    {
        let centered = (raw as i16) - 128;
        let distance = if centered < 0 { -centered } else { centered };
        if distance < self.deadzone as i16 {
            0
        } else {
            centered as i8
        }
    }

    /// Update the joystick state. Returns `true` if the state has changed.
    pub fn update(&mut self) -> (r: Result<bool>)
        ensures
            final(self).bus_address() == old(self).bus_address(),
            final(self).threshold() == old(self).threshold(),
            ran(old(self).history(), final(self).history(), old(self).bus_address(), seq![Request::Read(4)], r is Ok),
            r is Ok ==> {
                let report = reply(old(self).history(), final(self).history(), 0);
                &&& final(self).reading().0 == axis_value(report[1], old(self).threshold())
                &&& final(self).reading().1 == axis_value(report[2], old(self).threshold())
                &&& final(self).reading().2 == (report[3] != 0)
            },
            r matches Ok(changed) ==> changed == (final(self).reading() != old(self).reading()),
            r is Err ==> final(self).reading() == old(self).reading(),
            from_bus(r),
            reports(r, final(self).history()),
    {
        let previous_x = self.x;
        let previous_y = self.y;
        let previous_button = self.button_pressed;
        let mut buf = [0u8; 4];
        if let Err(e) = self.device.read(&mut buf) {
            return Err(e);
        }
        self.x = self.normalize_coordinate(buf[1]);
        self.y = self.normalize_coordinate(buf[2]);
        self.button_pressed = buf[3] != 0;
        Ok(self.x != previous_x || self.y != previous_y || self.button_pressed != previous_button)
    }

    /// Get the X-axis value (-128 to 127).
    pub fn x(&self) -> (r: i8)
        ensures
            r == self.reading().0,
    {
        self.x
    }

    /// Get the Y-axis value (-128 to 127).
    pub fn y(&self) -> (r: i8)
        ensures
            r == self.reading().1,
    {
        self.y
    }

    /// Get both axis values as a tuple.
    pub fn position(&self) -> (r: (i8, i8))
        ensures
            r == (self.reading().0, self.reading().1),
    {
        (self.x, self.y)
    }

    /// Check if the button is pressed.
    pub fn button_pressed(&self) -> (r: bool)
        ensures
            r == self.reading().2,
    {
        self.button_pressed
    }

    /// Get the deadzone threshold.
    pub fn deadzone(&self) -> (r: u8)
        ensures
            r == self.threshold(),
    {
        self.deadzone
    }

    /// Set the deadzone threshold; it applies from the next update.
    pub fn set_deadzone(&mut self, deadzone: u8)
        ensures
            final(self).threshold() == deadzone,
            final(self).reading() == old(self).reading(),
            final(self).history() == old(self).history(),
            final(self).bus_address() == old(self).bus_address(),
            final(self).bus() == old(self).bus(),
    {
        self.deadzone = deadzone;
    }

    /// Check if the joystick is in the center position (within deadzone).
    pub fn is_centered(&self) -> (r: bool)
        ensures
            r == (self.reading().0 == 0 && self.reading().1 == 0),
    {
        self.x == 0 && self.y == 0
    }

    /// Release the I2C bus.
    pub fn release(self) -> (r: I2C)
        ensures
            r == self.bus(),
    {
        self.device.release()
    }
}

} // verus!
