//! Modulino Latch Relay driver.
//!
//! The Modulino Latch Relay module is a latching relay that maintains its
//! state even when power is removed. It is switched with a three-byte write
//! and reports its two coil status bytes after the pinstrap byte.
use crate::addresses;
use crate::error::{from_bus, Result};
use crate::i2c_device::{reports, lemma_ran_failed, lemma_ran_then, ran, reply, Exchange, I2cDevice, Request};
use embedded_hal::i2c::I2c;
use vstd::prelude::*;

verus! {

/// The payload that switches the relay on or off.
pub open spec fn switch_payload(on: bool) -> Seq<u8> {
    seq![if on { 1u8 } else { 0u8 }, 0u8, 0u8]
}

/// The relay state of a four-byte report: unknown when both status bytes
/// are zero, off when the first is 1, on otherwise.
pub open spec fn report_relay(report: Seq<u8>) -> Option<bool> {
    if report[1] == 0 && report[2] == 0 {
        None
    } else if report[1] == 1 {
        Some(false)
    } else {
        Some(true)
    }
}

/// Driver for the Modulino Latch Relay module.
pub struct LatchRelay<I2C> {
    device: I2cDevice<I2C>,
}

impl<I2C: I2c> LatchRelay<I2C> {
    /// The transactions issued by this driver, oldest first.
    pub closed spec fn history(&self) -> Seq<Exchange> {
        self.device.history@
    }

    /// The bus address of the module.
    pub closed spec fn bus_address(&self) -> u8 {
        self.device.address
    }

    /// The bus handed over at construction.
    pub closed spec fn bus(&self) -> I2C {
        self.device.i2c
    }

    /// Create a new LatchRelay instance with the default address.
    pub fn new(i2c: I2C) -> (r: Result<Self>)
        ensures
            r matches Ok(l) ==> l.bus_address() == addresses::LATCH_RELAY && l.history() == Seq::<
                Exchange,
            >::empty() && l.bus() == i2c,
            r is Ok,
    {
        Self::new_with_address(i2c, addresses::LATCH_RELAY)
    }

    /// Create a new LatchRelay instance with a custom address. No bus
    /// traffic: the relay keeps its state.
    pub fn new_with_address(i2c: I2C, address: u8) -> (r: Result<Self>)
        ensures
            r matches Ok(l) ==> l.bus_address() == address && l.history() == Seq::<Exchange>::empty()
                && l.bus() == i2c,
            r is Ok,
    {
        Ok(LatchRelay { device: I2cDevice::new(i2c, address) })
    }

    /// Get the I2C address.
    pub fn address(&self) -> (r: u8)
        ensures
            r == self.bus_address(),
    {
        self.device.address
    }

    /// Turn the relay on.
    pub fn on(&mut self) -> (r: Result<()>)
        ensures
            final(self).bus_address() == old(self).bus_address(),
            ran(old(self).history(), final(self).history(), old(self).bus_address(), seq![Request::Write(switch_payload(true))], r is Ok),
            from_bus(r),
            reports(r, final(self).history()),
    {
        let data = [1u8, 0, 0];
        assert(data@ =~= switch_payload(true));
        self.device.write(&data)
    }

    /// Turn the relay off.
    pub fn off(&mut self) -> (r: Result<()>)
        ensures
            final(self).bus_address() == old(self).bus_address(),
            ran(old(self).history(), final(self).history(), old(self).bus_address(), seq![Request::Write(switch_payload(false))], r is Ok),
            from_bus(r),
            reports(r, final(self).history()),
    {
        let data = [0u8, 0, 0];
        assert(data@ =~= switch_payload(false));
        self.device.write(&data)
    }

    /// Set the relay state.
    pub fn set(&mut self, on: bool) -> (r: Result<()>)
        ensures
            final(self).bus_address() == old(self).bus_address(),
            ran(old(self).history(), final(self).history(), old(self).bus_address(), seq![Request::Write(switch_payload(on))], r is Ok),
            from_bus(r),
            reports(r, final(self).history()),
    {
        if on {
            self.on()
        } else {
            self.off()
        }
    }

    /// Toggle the relay state: read it, then switch it off when it is on,
    /// and on otherwise (also when the state is unknown).
    pub fn toggle(&mut self) -> (r: Result<()>)
        ensures
            final(self).bus_address() == old(self).bus_address(),
            ({
                let state = report_relay(reply(old(self).history(), final(self).history(), 0));
                ran(
                    old(self).history(),
                    final(self).history(),
                    old(self).bus_address(),
                    seq![Request::Read(4), Request::Write(switch_payload(state != Some(true)))],
                    r is Ok,
                )
            }),
            from_bus(r),
            reports(r, final(self).history()),
    {
        let ghost h0 = self.device.history@;
        let ghost addr = self.device.address;
        let state = self.is_on();
        let ghost h1 = self.device.history@;
        match state {
            Ok(s) => {
                let turn_on = match s {
                    Some(true) => false,
                    _ => true,
                };
                let r = self.set(turn_on);
                proof {
                    lemma_ran_then(
                        h0,
                        h1,
                        self.device.history@,
                        addr,
                        seq![Request::Read(4)],
                        seq![Request::Write(switch_payload(turn_on))],
                        r is Ok,
                    );
                    assert(seq![Request::Read(4)] + seq![Request::Write(switch_payload(turn_on))] =~= seq![
                        Request::Read(4),
                        Request::Write(switch_payload(turn_on)),
                    ]);
                    assert(self.device.history@[h0.len() as int] == h1[h0.len() as int]);
                }
                r
            },
            Err(e) => {
                proof {
                    let plan2 = seq![Request::Write(switch_payload(report_relay(reply(h0, h1, 0)) != Some(true)))];
                    lemma_ran_failed(h0, h1, addr, seq![Request::Read(4)], plan2);
                    assert(seq![Request::Read(4)] + plan2 =~= seq![Request::Read(4), plan2[0]]);
                }
                Err(e)
            },
        }
    }

    /// Check if the relay is currently on: `None` when the state is unknown
    /// (after a power cycle, before the first command).
    pub fn is_on(&mut self) -> (r: Result<Option<bool>>)
        ensures
            final(self).bus_address() == old(self).bus_address(),
            ran(old(self).history(), final(self).history(), old(self).bus_address(), seq![Request::Read(4)], r is Ok),
            r matches Ok(s) ==> s == report_relay(reply(old(self).history(), final(self).history(), 0)),
            from_bus(r),
            reports(r, final(self).history()),
    {
        let mut buf = [0u8; 4];
        if let Err(e) = self.device.read(&mut buf) {
            return Err(e);
        }
        let status0 = buf[1];
        let status1 = buf[2];
        if status0 == 0 && status1 == 0 {
            Ok(None)
        } else if status0 == 1 {
            Ok(Some(false))
        } else {
            Ok(Some(true))
        }
    }

    /// Release the I2C bus.
    pub fn release(self) -> (r: I2C)
        ensures
            r == self.bus(),
    {
        self.device.release()
    }
}

} // verus!
