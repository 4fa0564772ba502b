//! Modulino Buttons driver.
//!
//! The Modulino Buttons module has three buttons (A, B, C), each with an
//! associated LED. A read returns the pinstrap byte and one byte per button;
//! the LEDs are set with one write of one byte per LED.
use crate::addresses;
use crate::error::{from_bus, Result};
use crate::i2c_device::{reports, ran, reply, Exchange, I2cDevice, Request};
use embedded_hal::i2c::I2c;
use vstd::prelude::*;

verus! {

/// Button state representation.
#[derive(Debug, Clone, Copy, PartialEq, Eq)]
pub struct ButtonState {
    /// Button A pressed state
    pub a: bool,
    /// Button B pressed state
    pub b: bool,
    /// Button C pressed state
    pub c: bool,
}

/// The button state of a four-byte report: a button is pressed when its
/// byte is not zero; the first byte is the pinstrap byte.
pub open spec fn report_state(report: Seq<u8>) -> ButtonState {
    ButtonState { a: report[1] != 0, b: report[2] != 0, c: report[3] != 0 }
}

/// The byte that drives one LED.
pub open spec fn led_byte(on: bool) -> u8 {
    if on { 1 } else { 0 }
}

/// The payload that sets the three LEDs.
pub open spec fn leds_payload(a: bool, b: bool, c: bool) -> Seq<u8> {
    seq![led_byte(a), led_byte(b), led_byte(c)]
}

impl Default for ButtonState {
    /// No button pressed.
    fn default() -> (r: Self)
        ensures
            r == (ButtonState { a: false, b: false, c: false }),
    {
        ButtonState { a: false, b: false, c: false }
    }
}

impl Default for ButtonLed {
    /// The LED off.
    fn default() -> (r: Self)
        ensures
            !r.lit(),
    {
        ButtonLed::new()
    }
}

impl ButtonState {
    /// Check if any button is pressed.
    pub fn any_pressed(&self) -> (r: bool)
        ensures
            r == (self.a || self.b || self.c),
    {
        self.a || self.b || self.c
    }

    /// Check if all buttons are pressed.
    pub fn all_pressed(&self) -> (r: bool)
        ensures
            r == (self.a && self.b && self.c),
    {
        self.a && self.b && self.c
    }
}

/// LED state for a single button LED.
#[derive(Debug, Clone, Copy, PartialEq, Eq)]
pub struct ButtonLed {
    value: bool,
}

impl ButtonLed {
    /// Whether the LED is set to on.
    pub closed spec fn lit(&self) -> bool {
        self.value
    }

    /// Create a new LED state (off by default).
    pub fn new() -> (r: Self)
        ensures
            !r.lit(),
    {
        ButtonLed { value: false }
    }

    /// Check if the LED is on.
    pub fn is_on(&self) -> (r: bool)
        ensures
            r == self.lit(),
    {
        self.value
    }

    /// Turn the LED on.
    pub fn on(&mut self)
        ensures
            final(self).lit(),
    {
        self.value = true;
    }

    /// Turn the LED off.
    pub fn off(&mut self)
        ensures
            !final(self).lit(),
    {
        self.value = false;
    }

    /// Set the LED state.
    pub fn set(&mut self, on: bool)
        ensures
            final(self).lit() == on,
    {
        self.value = on;
    }

    /// Toggle the LED state.
    pub fn toggle(&mut self)
        ensures
            final(self).lit() == !old(self).lit(),
    {
        self.value = !self.value;
    }
}

/// Driver for the Modulino Buttons module.
pub struct Buttons<I2C> {
    device: I2cDevice<I2C>,
    /// LED A state
    pub led_a: ButtonLed,
    /// LED B state
    pub led_b: ButtonLed,
    /// LED C state
    pub led_c: ButtonLed,
    current_state: ButtonState,
}

impl<I2C: I2c> Buttons<I2C> {
    /// The transactions issued by this driver, oldest first.
    pub closed spec fn history(&self) -> Seq<Exchange> {
        self.device.history@
    }

    /// The bus address of the module.
    pub closed spec fn bus_address(&self) -> u8 {
        self.device.address
    }

    /// The bus handed over at construction.
    pub closed spec fn bus(&self) -> I2C {
        self.device.i2c
    }

    /// Whether LEDs A, B and C are set to on.
    pub closed spec fn leds(&self) -> (bool, bool, bool) {
        (self.led_a.lit(), self.led_b.lit(), self.led_c.lit())
    }

    /// The button state last read.
    pub closed spec fn last_state(&self) -> ButtonState {
        self.current_state
    }

    /// Create a new Buttons instance with the default address.
    pub fn new(i2c: I2C) -> (r: Result<Self>)
        ensures
            r matches Ok(b) ==> {
                &&& b.bus_address() == addresses::BUTTONS
                &&& ran(Seq::empty(), b.history(), b.bus_address(), seq![Request::Read(4)], true)
                &&& b.last_state() == report_state(reply(Seq::empty(), b.history(), 0))
                &&& !b.leds().0 && !b.leds().1 && !b.leds().2
            },
            from_bus(r),
    {
        Self::new_with_address(i2c, addresses::BUTTONS)
    }

    /// Create a new Buttons instance with a custom address; one read checks
    /// that the device answers.
    pub fn new_with_address(i2c: I2C, address: u8) -> (r: Result<Self>)
        ensures
            r matches Ok(b) ==> {
                &&& b.bus_address() == address
                &&& ran(Seq::empty(), b.history(), address, seq![Request::Read(4)], true)
                &&& b.last_state() == report_state(reply(Seq::empty(), b.history(), 0))
                &&& !b.leds().0 && !b.leds().1 && !b.leds().2
            },
            from_bus(r),
    {
        let mut buttons = Buttons {
            device: I2cDevice::new(i2c, address),
            led_a: ButtonLed::new(),
            led_b: ButtonLed::new(),
            led_c: ButtonLed::new(),
            current_state: ButtonState { a: false, b: false, c: false },
        };
        match buttons.read() {
            Ok(_) => Ok(buttons),
            Err(e) => Err(e),
        }
    }

    /// Get the I2C address.
    pub fn address(&self) -> (r: u8)
        ensures
            r == self.bus_address(),
    {
        self.device.address
    }

    /// Read the current button states.
    pub fn read(&mut self) -> (r: Result<ButtonState>)
        ensures
            final(self).bus_address() == old(self).bus_address(),
            final(self).leds() == old(self).leds(),
            ran(old(self).history(), final(self).history(), old(self).bus_address(), seq![Request::Read(4)], r is Ok),
            r matches Ok(s) ==> {
                &&& s == report_state(reply(old(self).history(), final(self).history(), 0))
                &&& final(self).last_state() == s
            },
            r is Err ==> final(self).last_state() == old(self).last_state(),
            from_bus(r),
            reports(r, final(self).history()),
    {
        let mut buf = [0u8; 4];
        match self.device.read(&mut buf) {
            Ok(()) => {
                self.current_state = ButtonState { a: buf[1] != 0, b: buf[2] != 0, c: buf[3] != 0 };
                Ok(self.current_state)
            },
            Err(e) => Err(e),
        }
    }

    /// Get the last read button state without performing I2C communication.
    pub fn state(&self) -> (r: ButtonState)
        ensures
            r == self.last_state(),
    {
        self.current_state
    }

    /// Check if button A is pressed (uses cached state).
    pub fn button_a_pressed(&self) -> (r: bool)
        ensures
            r == self.last_state().a,
    {
        self.current_state.a
    }

    /// Check if button B is pressed (uses cached state).
    pub fn button_b_pressed(&self) -> (r: bool)
        ensures
            r == self.last_state().b,
    {
        self.current_state.b
    }

    /// Check if button C is pressed (uses cached state).
    pub fn button_c_pressed(&self) -> (r: bool)
        ensures
            r == self.last_state().c,
    {
        self.current_state.c
    }

    /// Write the current LED states to the hardware.
    pub fn update_leds(&mut self) -> (r: Result<()>)
        ensures
            final(self).bus_address() == old(self).bus_address(),
            final(self).leds() == old(self).leds(),
            final(self).last_state() == old(self).last_state(),
            ran(
                old(self).history(),
                final(self).history(),
                old(self).bus_address(),
                seq![Request::Write(leds_payload(old(self).leds().0, old(self).leds().1, old(self).leds().2))],
                r is Ok,
            ),
            from_bus(r),
            reports(r, final(self).history()),
    {
        let a: u8 = if self.led_a.is_on() { 1 } else { 0 };
        let b: u8 = if self.led_b.is_on() { 1 } else { 0 };
        let c: u8 = if self.led_c.is_on() { 1 } else { 0 };
        let data = [a, b, c];
        assert(data@ =~= leds_payload(self.led_a.lit(), self.led_b.lit(), self.led_c.lit()));
        self.device.write(&data)
    }

    /// Set all LED states at once and update the hardware.
    pub fn set_leds(&mut self, a: bool, b: bool, c: bool) -> (r: Result<()>)
        ensures
            final(self).bus_address() == old(self).bus_address(),
            final(self).leds().0 == a,
            final(self).leds().1 == b,
            final(self).leds().2 == c,
            final(self).last_state() == old(self).last_state(),
            ran(old(self).history(), final(self).history(), old(self).bus_address(), seq![Request::Write(leds_payload(a, b, c))], r is Ok),
            from_bus(r),
            reports(r, final(self).history()),
    {
        self.led_a.set(a);
        self.led_b.set(b);
        self.led_c.set(c);
        self.update_leds()
    }

    /// Turn all LEDs off.
    pub fn all_leds_off(&mut self) -> (r: Result<()>)
        ensures
            final(self).bus_address() == old(self).bus_address(),
            !final(self).leds().0 && !final(self).leds().1 && !final(self).leds().2,
            final(self).last_state() == old(self).last_state(),
            ran(
                old(self).history(),
                final(self).history(),
                old(self).bus_address(),
                seq![Request::Write(leds_payload(false, false, false))],
                r is Ok,
            ),
            from_bus(r),
            reports(r, final(self).history()),
    {
        self.set_leds(false, false, false)
    }

    /// Turn all LEDs on.
    pub fn all_leds_on(&mut self) -> (r: Result<()>)
        ensures
            final(self).bus_address() == old(self).bus_address(),
            final(self).leds().0 && final(self).leds().1 && final(self).leds().2,
            final(self).last_state() == old(self).last_state(),
            ran(
                old(self).history(),
                final(self).history(),
                old(self).bus_address(),
                seq![Request::Write(leds_payload(true, true, true))],
                r is Ok,
            ),
            from_bus(r),
            reports(r, final(self).history()),
    {
        self.set_leds(true, true, true)
    }

    /// Release the I2C bus.
    pub fn release(self) -> (r: I2C)
        ensures
            r == self.bus(),
    {
        self.device.release()
    }
}

} // verus!
