//! Modulino Movement driver.
//!
//! The Modulino Movement module uses an LSM6DSOX IMU for accelerometer
//! and gyroscope measurements. Its registers have 8-bit addresses; each
//! measurement is three 16-bit two's complement values, least significant
//! byte first. The driver returns the raw values; at the ranges it
//! configures (±2 g, ±250 dps) one unit is 0.061 mg of acceleration and
//! 8.75 mdps of angular velocity.
use crate::addresses;
use crate::error::{from_bus, Error, Result};
use crate::i2c_device::{reports, le_i16, le_i16_value, lemma_ran_failed, lemma_ran_then, ran, reply, Exchange, I2cDevice, Request};
use embedded_hal::i2c::I2c;
use vstd::prelude::*;

verus! {

/// Accelerometer control: output rate and range.
pub const CTRL1_XL: u8 = 0x10;
/// Gyroscope control: output rate and range.
pub const CTRL2_G: u8 = 0x11;
/// Common control: reset and block data update.
pub const CTRL3_C: u8 = 0x12;
/// Status: bit 0 new acceleration, bit 1 new angular velocity.
pub const STATUS_REG: u8 = 0x1E;
/// First angular velocity output register.
pub const OUTX_L_G: u8 = 0x22;
/// First acceleration output register.
pub const OUTX_L_A: u8 = 0x28;
/// Identity register.
pub const WHO_AM_I: u8 = 0x0F;
/// Value of the identity register.
pub const WHO_AM_I_VALUE: u8 = 0x6C;

/// The register writes of the start-up configuration: software reset,
/// accelerometer at 104 Hz and ±2 g, gyroscope at 104 Hz and ±250 dps,
/// then block data update.
pub open spec fn init_plan() -> Seq<Request> {
    seq![
        Request::Write(seq![CTRL3_C, 0x01u8]),
        Request::Write(seq![CTRL1_XL, 0x40u8]),
        Request::Write(seq![CTRL2_G, 0x40u8]),
        Request::Write(seq![CTRL3_C, 0x44u8]),
    ]
}

/// The transactions of `identify_and_init` when the identity register reads
/// `id`: the configuration follows only the expected identity.
pub open spec fn identify_plan(id: u8) -> Seq<Request> {
    if id == WHO_AM_I_VALUE {
        seq![Request::WriteRead(seq![WHO_AM_I], 1)] + init_plan()
    } else {
        seq![Request::WriteRead(seq![WHO_AM_I], 1)]
    }
}

/// The identity check on the byte read from `WHO_AM_I`.
pub fn check_who_am_i(id: u8) -> (r: Result<()>)
    ensures
        r == (if id == WHO_AM_I_VALUE { Ok::<(), Error>(()) } else { Err(Error::DeviceNotFound) }),
{
    if id != WHO_AM_I_VALUE {
        Err(Error::DeviceNotFound)
    } else {
        Ok(())
    }
}

/// The three axis values of a six-byte output block.
pub open spec fn axes(block: Seq<u8>) -> (int, int, int) {
    (le_i16_value(block[0], block[1]), le_i16_value(block[2], block[3]), le_i16_value(block[4], block[5]))
}

/// Driver for the Modulino Movement module.
pub struct Movement<I2C> {
    device: I2cDevice<I2C>,
}

impl<I2C: I2c> Movement<I2C> {
    /// The transactions issued by this driver, oldest first.
    pub closed spec fn history(&self) -> Seq<Exchange> {
        self.device.history@
    }

    /// The bus address of the module.
    pub closed spec fn bus_address(&self) -> u8 {
        self.device.address
    }

    /// The bus handed over at construction.
    pub closed spec fn bus(&self) -> I2C {
        self.device.i2c
    }

    /// Create a new Movement instance with the default address (0x6A).
    pub fn new(i2c: I2C) -> (r: Result<Self>)
        ensures
            r matches Ok(m) ==> {
                &&& m.bus_address() == addresses::MOVEMENT[0]
                &&& ran(Seq::empty(), m.history(), m.bus_address(), seq![Request::WriteRead(seq![WHO_AM_I], 1)] + init_plan(), true)
                &&& reply(Seq::empty(), m.history(), 0)[0] == WHO_AM_I_VALUE
            },
            r is Err ==> (r->Err_0 is I2c || r->Err_0 is DeviceNotFound),
    {
        Self::new_with_address(i2c, addresses::MOVEMENT[0])
    }

    /// Create a new Movement instance with a custom address (0x6A or 0x6B
    /// depending on the SA0 pin). The identity register is checked first:
    /// any other value than 0x6C fails with `DeviceNotFound`, and then the
    /// start-up configuration is written.
    pub fn new_with_address(i2c: I2C, address: u8) -> (r: Result<Self>)
        ensures
            r matches Ok(m) ==> {
                &&& m.bus_address() == address
                &&& ran(Seq::empty(), m.history(), address, seq![Request::WriteRead(seq![WHO_AM_I], 1)] + init_plan(), true)
                &&& reply(Seq::empty(), m.history(), 0)[0] == WHO_AM_I_VALUE
            },
            r is Err ==> (r->Err_0 is I2c || r->Err_0 is DeviceNotFound),
    {
        let mut movement = Movement { device: I2cDevice::new(i2c, address) };
        match movement.identify_and_init() {
            Ok(()) => Ok(movement),
            Err(e) => Err(e),
        }
    }

    /// Check the identity register, then write the start-up configuration.
    ///
    /// Fails with `DeviceNotFound` when the identity read succeeds with any
    /// other value than 0x6C; nothing is written then.
    pub fn identify_and_init(&mut self) -> (r: Result<()>)
        ensures
            final(self).bus_address() == old(self).bus_address(),
            ({
                let id = reply(old(self).history(), final(self).history(), 0)[0];
                let bus_ok = !(r matches Err(Error::I2c(_)));
                &&& ran(old(self).history(), final(self).history(), old(self).bus_address(), identify_plan(id), bus_ok)
                &&& (r == Err::<(), Error>(Error::DeviceNotFound)) == (bus_ok && id != WHO_AM_I_VALUE)
            }),
            r is Err ==> (r->Err_0 is I2c || r->Err_0 is DeviceNotFound),
            reports(r, final(self).history()),
    {
        let ghost h0 = self.device.history@;
        let ghost addr = self.device.address;
        let who_am_i = match self.device.read_reg(WHO_AM_I) {
            Ok(v) => v,
            Err(e) => {
                proof {
                    lemma_ran_failed(h0, self.device.history@, addr, seq![Request::WriteRead(seq![WHO_AM_I], 1)], init_plan());
                }
                return Err(e);
            },
        };
        let ghost h1 = self.device.history@;
        assert(reply(h0, h1, 0)[0] == who_am_i);
        if let Err(e) = check_who_am_i(who_am_i) {
            return Err(e);
        }
        let r = self.init();
        proof {
            lemma_ran_then(h0, h1, self.device.history@, addr, seq![Request::WriteRead(seq![WHO_AM_I], 1)], init_plan(), r is Ok);
            assert(self.device.history@[h0.len() as int] == h1[h0.len() as int]);
        }
        r
    }

    /// Get the I2C address.
    pub fn address(&self) -> (r: u8)
        ensures
            r == self.bus_address(),
    {
        self.device.address
    }

    /// Write the start-up configuration.
    fn init(&mut self) -> (r: Result<()>)
        ensures
            final(self).bus_address() == old(self).bus_address(),
            ran(old(self).history(), final(self).history(), old(self).bus_address(), init_plan(), r is Ok),
            from_bus(r),
            reports(r, final(self).history()),
    {
        let ghost addr = self.device.address;
        let ghost plan_a = seq![Request::Write(seq![CTRL3_C, 0x01u8])];
        let ghost plan_b = seq![Request::Write(seq![CTRL1_XL, 0x40u8])];
        let ghost plan_c = seq![Request::Write(seq![CTRL2_G, 0x40u8])];
        let ghost plan_d = seq![Request::Write(seq![CTRL3_C, 0x44u8])];
        assert(plan_a + plan_b + plan_c + plan_d =~= init_plan());
        let ghost h0 = self.device.history@;
        if let Err(e) = self.device.write_reg(CTRL3_C, 0x01) {
            proof {
                lemma_ran_failed(h0, self.device.history@, addr, plan_a, plan_b);
                lemma_ran_failed(h0, self.device.history@, addr, plan_a + plan_b, plan_c);
                lemma_ran_failed(h0, self.device.history@, addr, plan_a + plan_b + plan_c, plan_d);
            }
            return Err(e);
        }
        let ghost h1 = self.device.history@;
        let r2 = self.device.write_reg(CTRL1_XL, 0x40);
        proof {
            lemma_ran_then(h0, h1, self.device.history@, addr, plan_a, plan_b, r2 is Ok);
        }
        if let Err(e) = r2 {
            proof {
                lemma_ran_failed(h0, self.device.history@, addr, plan_a + plan_b, plan_c);
                lemma_ran_failed(h0, self.device.history@, addr, plan_a + plan_b + plan_c, plan_d);
            }
            return Err(e);
        }
        let ghost h2 = self.device.history@;
        let r3 = self.device.write_reg(CTRL2_G, 0x40);
        proof {
            lemma_ran_then(h0, h2, self.device.history@, addr, plan_a + plan_b, plan_c, r3 is Ok);
        }
        if let Err(e) = r3 {
            proof {
                lemma_ran_failed(h0, self.device.history@, addr, plan_a + plan_b + plan_c, plan_d);
            }
            return Err(e);
        }
        let ghost h3 = self.device.history@;
        let r4 = self.device.write_reg(CTRL3_C, 0x44);
        proof {
            lemma_ran_then(h0, h3, self.device.history@, addr, plan_a + plan_b + plan_c, plan_d, r4 is Ok);
        }
        r4
    }

    /// Read one six-byte output block and decode its three axes.
    fn read_axes(&mut self, reg: u8) -> (r: Result<(i16, i16, i16)>)
        ensures
            final(self).bus_address() == old(self).bus_address(),
            ran(old(self).history(), final(self).history(), old(self).bus_address(), seq![Request::WriteRead(seq![reg], 6)], r is Ok),
            r matches Ok((x, y, z)) ==> axes(reply(old(self).history(), final(self).history(), 0)) == (x as int, y as int, z as int),
            from_bus(r),
            reports(r, final(self).history()),
    {
        let mut buf = [0u8; 6];
        if let Err(e) = self.device.read_regs(reg, &mut buf) {
            return Err(e);
        }
        Ok((le_i16(buf[0], buf[1]), le_i16(buf[2], buf[3]), le_i16(buf[4], buf[5])))
    }

    /// Read the raw acceleration on the X, Y and Z axes, in units of
    /// 0.061 mg.
    pub fn raw_acceleration(&mut self) -> (r: Result<(i16, i16, i16)>)
        ensures
            final(self).bus_address() == old(self).bus_address(),
            ran(old(self).history(), final(self).history(), old(self).bus_address(), seq![Request::WriteRead(seq![OUTX_L_A], 6)], r is Ok),
            r matches Ok((x, y, z)) ==> axes(reply(old(self).history(), final(self).history(), 0)) == (x as int, y as int, z as int),
            from_bus(r),
            reports(r, final(self).history()),
    {
        self.read_axes(OUTX_L_A)
    }

    /// Read the raw angular velocity on the X, Y and Z axes, in units of
    /// 8.75 mdps.
    pub fn raw_angular_velocity(&mut self) -> (r: Result<(i16, i16, i16)>)
        ensures
            final(self).bus_address() == old(self).bus_address(),
            ran(old(self).history(), final(self).history(), old(self).bus_address(), seq![Request::WriteRead(seq![OUTX_L_G], 6)], r is Ok),
            r matches Ok((x, y, z)) ==> axes(reply(old(self).history(), final(self).history(), 0)) == (x as int, y as int, z as int),
            from_bus(r),
            reports(r, final(self).history()),
    {
        self.read_axes(OUTX_L_G)
    }

    /// Check if new data is available: new acceleration (bit 0) or new
    /// angular velocity (bit 1) in the status register.
    pub fn data_ready(&mut self) -> (r: Result<bool>)
        ensures
            final(self).bus_address() == old(self).bus_address(),
            ran(old(self).history(), final(self).history(), old(self).bus_address(), seq![Request::WriteRead(seq![STATUS_REG], 1)], r is Ok),
            r matches Ok(ready) ==> ready == (reply(old(self).history(), final(self).history(), 0)[0] % 4 != 0),
            from_bus(r),
            reports(r, final(self).history()),
    {
        match self.device.read_reg(STATUS_REG) {
            Ok(status) => {
                assert(status & 0x03 == status % 4) by (bit_vector);
                Ok((status & 0x03) != 0)
            },
            Err(e) => Err(e),
        }
    }

    /// Release the I2C bus.
    pub fn release(self) -> (r: I2C)
        ensures
            r == self.bus(),
    {
        self.device.release()
    }
}

} // verus!
