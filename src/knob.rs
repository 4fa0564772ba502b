//! Modulino Knob driver.
//!
//! The Modulino Knob module is a rotary encoder with a push button. A read
//! returns four bytes: the pinstrap byte, the encoder value (16-bit, least
//! significant byte first, two's complement) and the button state.
use crate::addresses;
use crate::error::{from_bus, Error, Result};
use crate::i2c_device::{reports, le_i16, le_i16_value, lemma_ran_then, ran, reply, Exchange, I2cDevice, Request};
use embedded_hal::i2c::I2c;
use vstd::prelude::*;

verus! {

/// The encoder value of a four-byte report.
pub open spec fn report_value(report: Seq<u8>) -> int {
    le_i16_value(report[1], report[2])
}

/// The button state of a four-byte report.
pub open spec fn report_pressed(report: Seq<u8>) -> bool {
    report[3] != 0
}

/// `v` kept within `range`, when there is one.
pub open spec fn clamp_to(range: Option<(i16, i16)>, v: int) -> int {
    match range {
        Some((lo, hi)) => if v < lo {
            lo as int
        } else if v > hi {
            hi as int
        } else {
            v
        },
        None => v,
    }
}

/// Payload that sets the encoder value: the value least significant byte
/// first, then two zero bytes.
pub open spec fn value_payload(v: int) -> Seq<u8> {
    let u = if v < 0 { v + 0x1_0000 } else { v };
    seq![(u % 256) as u8, (u / 256) as u8, 0u8, 0u8]
}

/// The transactions of `update` when the device reports `raw`: the read,
/// then a write of the clamped value when `raw` lies outside the range.
pub open spec fn update_plan(range: Option<(i16, i16)>, raw: int) -> Seq<Request> {
    if clamp_to(range, raw) != raw {
        seq![Request::Read(4), Request::Write(value_payload(clamp_to(range, raw)))]
    } else {
        seq![Request::Read(4)]
    }
}

/// `x` wrapped into the range of `i16`.
pub open spec fn wrap_i16(x: int) -> int {
    if x > i16::MAX {
        x - 0x1_0000
    } else if x < i16::MIN {
        x + 0x1_0000
    } else {
        x
    }
}

/// Rotation from `previous` to `current`: the wrapped difference, shifted
/// by half the value range when it exceeds a quarter turn of it either way.
pub open spec fn rotation(current: i16, previous: i16) -> int {
    let diff = wrap_i16(current - previous);
    if diff < -16384 || diff > 16384 {
        wrap_i16(diff + i16::MIN)
    } else {
        diff
    }
}

/// Driver for the Modulino Knob module (rotary encoder).
pub struct Knob<I2C> {
    device: I2cDevice<I2C>,
    value: i16,
    pressed: bool,
    range: Option<(i16, i16)>,
}

impl<I2C: I2c> Knob<I2C> {
    /// The transactions issued by this driver, oldest first.
    pub closed spec fn history(&self) -> Seq<Exchange> {
        self.device.history@
    }

    /// The bus address of the module.
    pub closed spec fn bus_address(&self) -> u8 {
        self.device.address
    }

    /// The bus handed over at construction.
    pub closed spec fn bus(&self) -> I2C {
        self.device.i2c
    }

    /// The encoder value last read or set.
    pub closed spec fn current(&self) -> i16 {
        self.value
    }

    /// The button state last read.
    pub closed spec fn is_pressed(&self) -> bool {
        self.pressed
    }

    /// The range the value is kept within, if any.
    pub closed spec fn limits(&self) -> Option<(i16, i16)> {
        self.range
    }

    /// Create a new Knob instance with the default address.
    pub fn new(i2c: I2C) -> (r: Result<Self>)
        ensures
            r matches Ok(k) ==> {
                &&& k.bus_address() == addresses::KNOB[0]
                &&& k.limits() is None
                &&& ran(Seq::empty(), k.history(), k.bus_address(), seq![Request::Read(4)], true)
                &&& k.current() == report_value(reply(Seq::empty(), k.history(), 0))
                &&& k.is_pressed() == report_pressed(reply(Seq::empty(), k.history(), 0))
            },
            from_bus(r),
    {
        Self::new_with_address(i2c, addresses::KNOB[0])
    }

    /// Create a new Knob instance with a custom address, and read the
    /// initial state.
    pub fn new_with_address(i2c: I2C, address: u8) -> (r: Result<Self>)
        ensures
            r matches Ok(k) ==> {
                &&& k.bus_address() == address
                &&& k.limits() is None
                &&& ran(Seq::empty(), k.history(), address, seq![Request::Read(4)], true)
                &&& k.current() == report_value(reply(Seq::empty(), k.history(), 0))
                &&& k.is_pressed() == report_pressed(reply(Seq::empty(), k.history(), 0))
            },
            from_bus(r),
    {
        let mut knob = Knob { device: I2cDevice::new(i2c, address), value: 0, pressed: false, range: None };
        match knob.update() {
            Ok(_) => Ok(knob),
            Err(e) => Err(e),
        }
    }

    /// Get the I2C address.
    pub fn address(&self) -> (r: u8)
        ensures
            r == self.bus_address(),
    {
        self.device.address
    }

    /// Read the current encoder state from the device.
    fn read_data(&mut self) -> (r: Result<(i16, bool)>)
        ensures
            final(self).bus_address() == old(self).bus_address(),
            final(self).current() == old(self).current(),
            final(self).is_pressed() == old(self).is_pressed(),
            final(self).limits() == old(self).limits(),
            ran(old(self).history(), final(self).history(), old(self).bus_address(), seq![Request::Read(4)], r is Ok),
            r matches Ok((v, p)) ==> {
                &&& v == report_value(reply(old(self).history(), final(self).history(), 0))
                &&& p == report_pressed(reply(old(self).history(), final(self).history(), 0))
            },
            from_bus(r),
            reports(r, final(self).history()),
    {
        let mut buf = [0u8; 4];
        match self.device.read(&mut buf) {
            Ok(()) => {
                let raw = le_i16(buf[1], buf[2]);
                Ok((raw, buf[3] != 0))
            },
            Err(e) => Err(e),
        }
    }

    /// Update the encoder state.
    ///
    /// Reads the device; a value outside the range is clamped, and the
    /// clamped value is written back to the device. Returns `true` if the
    /// value or the button state changed.
    pub fn update(&mut self) -> (r: Result<bool>)
        ensures
            final(self).bus_address() == old(self).bus_address(),
            final(self).limits() == old(self).limits(),
            ({
                let raw = report_value(reply(old(self).history(), final(self).history(), 0));
                ran(
                    old(self).history(),
                    final(self).history(),
                    old(self).bus_address(),
                    update_plan(old(self).limits(), raw),
                    r is Ok,
                )
            }),
            r is Ok ==> {
                let report = reply(old(self).history(), final(self).history(), 0);
                &&& final(self).current() == clamp_to(old(self).limits(), report_value(report))
                &&& final(self).is_pressed() == report_pressed(report)
            },
            r matches Ok(changed) ==> changed == (final(self).current() != old(self).current()
                || final(self).is_pressed() != old(self).is_pressed()),
            r is Err ==> final(self).current() == old(self).current() && final(self).is_pressed()
                == old(self).is_pressed(),
            from_bus(r),
            reports(r, final(self).history()),
    {
        let previous_value = self.value;
        let previous_pressed = self.pressed;
        let ghost h0 = self.device.history@;
        let (mut new_value, new_pressed) = match self.read_data() {
            Ok(d) => d,
            Err(e) => {
                return Err(e);
            },
        };
        let ghost h1 = self.device.history@;
        let ghost raw = new_value as int;
        assert(reply(h0, h1, 0) == h1[h0.len() as int].received);
        if let Some((min, max)) = self.range {
            if new_value < min || new_value > max {
                new_value = if new_value < min { min } else { max };
                let w = self.set_value_internal(new_value);
                proof {
                    lemma_ran_then(
                        h0,
                        h1,
                        self.device.history@,
                        self.device.address,
                        seq![Request::Read(4)],
                        seq![Request::Write(value_payload(new_value as int))],
                        w is Ok,
                    );
                    assert(seq![Request::Read(4)] + seq![Request::Write(value_payload(new_value as int))]
                        =~= update_plan(self.range, raw));
                    assert(self.device.history@[h0.len() as int] == h1[h0.len() as int]);
                }
                if let Err(e) = w {
                    return Err(e);
                }
            }
        }
        self.value = new_value;
        self.pressed = new_pressed;
        Ok(self.value != previous_value || self.pressed != previous_pressed)
    }

    /// Get the current encoder value.
    pub fn value(&self) -> (r: i16)
        ensures
            r == self.current(),
    {
        self.value
    }

    /// Set the encoder value; fails with `OutOfRange`, before any bus
    /// traffic, when a range is set and the value lies outside it.
    pub fn set_value(&mut self, value: i16) -> (r: Result<()>)
        ensures
            final(self).bus_address() == old(self).bus_address(),
            final(self).limits() == old(self).limits(),
            final(self).is_pressed() == old(self).is_pressed(),
            clamp_to(old(self).limits(), value as int) != value ==> {
                &&& r == Err::<(), Error>(Error::OutOfRange)
                &&& final(self).history() == old(self).history()
                &&& final(self).current() == old(self).current()
            },
            clamp_to(old(self).limits(), value as int) == value ==> {
                &&& ran(
                    old(self).history(),
                    final(self).history(),
                    old(self).bus_address(),
                    seq![Request::Write(value_payload(value as int))],
                    r is Ok,
                )
                &&& final(self).current() == if r is Ok { value } else { old(self).current() }
                &&& from_bus(r)
                &&& reports(r, final(self).history())
            },
    {
        if let Some((min, max)) = self.range {
            if value < min || value > max {
                return Err(Error::OutOfRange);
            }
        }
        match self.set_value_internal(value) {
            Ok(()) => {
                self.value = value;
                Ok(())
            },
            Err(e) => Err(e),
        }
    }

    /// Write an encoder value to the device.
    fn set_value_internal(&mut self, value: i16) -> (r: Result<()>)
        ensures
            final(self).bus_address() == old(self).bus_address(),
            final(self).current() == old(self).current(),
            final(self).is_pressed() == old(self).is_pressed(),
            final(self).limits() == old(self).limits(),
            ran(
                old(self).history(),
                final(self).history(),
                old(self).bus_address(),
                seq![Request::Write(value_payload(value as int))],
                r is Ok,
            ),
            from_bus(r),
            reports(r, final(self).history()),
    {
        let u: u16 = if value < 0 { (value as i32 + 0x1_0000) as u16 } else { value as u16 };
        let data = [(u % 256) as u8, (u / 256) as u8, 0, 0];
        assert(data@ =~= value_payload(value as int));
        self.device.write(&data)
    }

    /// Reset the encoder value to 0.
    pub fn reset(&mut self) -> (r: Result<()>)
        ensures
            final(self).bus_address() == old(self).bus_address(),
            final(self).limits() == old(self).limits(),
            final(self).is_pressed() == old(self).is_pressed(),
            clamp_to(old(self).limits(), 0) != 0 ==> {
                &&& r == Err::<(), Error>(Error::OutOfRange)
                &&& final(self).history() == old(self).history()
                &&& final(self).current() == old(self).current()
            },
            clamp_to(old(self).limits(), 0) == 0 ==> {
                &&& ran(
                    old(self).history(),
                    final(self).history(),
                    old(self).bus_address(),
                    seq![Request::Write(value_payload(0))],
                    r is Ok,
                )
                &&& final(self).current() == if r is Ok { 0 } else { old(self).current() }
                &&& from_bus(r)
                &&& reports(r, final(self).history())
            },
    {
        self.set_value(0)
    }

    /// Check if the button is currently pressed.
    pub fn pressed(&self) -> (r: bool)
        ensures
            r == self.is_pressed(),
    {
        self.pressed
    }

    /// Set the value range for the encoder; the current value is brought
    /// within it. No bus traffic.
    pub fn set_range(&mut self, min: i16, max: i16)
        ensures
            final(self).limits() == Some((min, max)),
            final(self).current() == clamp_to(Some((min, max)), old(self).current() as int),
            final(self).is_pressed() == old(self).is_pressed(),
            final(self).history() == old(self).history(),
            final(self).bus_address() == old(self).bus_address(),
            final(self).bus() == old(self).bus(),
    {
        self.range = Some((min, max));
        if self.value < min {
            self.value = min;
        } else if self.value > max {
            self.value = max;
        }
    }

    /// Clear the range constraint.
    pub fn clear_range(&mut self)
        ensures
            final(self).limits() is None,
            final(self).current() == old(self).current(),
            final(self).is_pressed() == old(self).is_pressed(),
            final(self).history() == old(self).history(),
            final(self).bus_address() == old(self).bus_address(),
            final(self).bus() == old(self).bus(),
    {
        self.range = None;
    }

    /// Get the current range, if set.
    pub fn range(&self) -> (r: Option<(i16, i16)>)
        ensures
            r == self.limits(),
    {
        self.range
    }

    /// Get the rotation since `previous_value`, allowing for wraparound:
    /// positive clockwise, negative counter-clockwise, 0 for none.
    pub fn rotation_delta(&self, previous_value: i16) -> (r: i16)
        ensures
            r == rotation(self.current(), previous_value),
    {
        let diff = self.value.wrapping_sub(previous_value);
        if diff < -16384 || diff > 16384 {
            diff.wrapping_add(i16::MIN)
        } else {
            diff
        }
    }

    /// Release the I2C bus.
    pub fn release(self) -> (r: I2C)
        ensures
            r == self.bus(),
    {
        self.device.release()
    }
}

} // verus!
