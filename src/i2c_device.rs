//! Register access over an I2C bus, bound to one device address.
//!
//! Every device keeps a ghost record of the transactions it has issued
//! (`history`), so that contracts can say exactly which bytes went on the
//! wire, in which order, and what the values returned were decoded from.
use crate::error::{from_bus, Error, Result};
use embedded_hal::i2c::I2c;
use vstd::prelude::*;

verus! {

/// What the driver asks of the bus in one transaction.
pub enum Request {
    /// Send these bytes.
    Write(Seq<u8>),
    /// Receive this many bytes.
    Read(nat),
    /// Send these bytes, then receive this many in the same transaction.
    WriteRead(Seq<u8>, nat),
}

/// One transaction issued to the bus, with the bytes it brought back.
pub struct Exchange {
    pub address: u8,
    pub request: Request,
    pub received: Seq<u8>,
    pub ok: bool,
    /// The error kind the bus reported, when the transaction failed.
    pub fault: Option<embedded_hal::i2c::ErrorKind>,
}

/// Number of bytes a request receives.
pub open spec fn reply_len(q: Request) -> nat {
    match q {
        Request::Write(_) => 0,
        Request::Read(n) => n,
        Request::WriteRead(_, n) => n,
    }
}

/// `x` is the transaction `q` addressed to `address`.
pub open spec fn carries(x: Exchange, address: u8, q: Request) -> bool {
    &&& x.address == address
    &&& x.request == q
    &&& x.received.len() == reply_len(q)
    &&& x.ok == (x.fault is None)
}

/// A bus error in `r` is the one the bus reported for the last transaction
/// of `record`.
pub open spec fn reports<T>(r: Result<T>, record: Seq<Exchange>) -> bool {
    r matches Err(Error::I2c(k)) ==> record.len() > 0 && record.last().fault == Some(k)
}

/// The error kind of a bus result, if it failed.
pub open spec fn fault_of(r: core::result::Result<(), embedded_hal::i2c::ErrorKind>) -> Option<
    embedded_hal::i2c::ErrorKind,
> {
    match r {
        Ok(()) => None,
        Err(k) => Some(k),
    }
}

/// `issued` carries out `plan` in order, stopping at the first transaction
/// that failed; `ok` holds exactly when the whole plan went through.
pub open spec fn follows(issued: Seq<Exchange>, address: u8, plan: Seq<Request>, ok: bool) -> bool {
    &&& 0 < issued.len() <= plan.len()
    &&& forall|i: int| 0 <= i < issued.len() ==> carries(#[trigger] issued[i], address, plan[i])
    &&& forall|i: int| 0 <= i < issued.len() - 1 ==> (#[trigger] issued[i]).ok
    &&& issued.len() < plan.len() ==> !issued.last().ok
    &&& ok == (issued.len() == plan.len() && issued.last().ok)
}

/// The transactions recorded in `after` beyond those of `before`.
pub open spec fn issued(before: Seq<Exchange>, after: Seq<Exchange>) -> Seq<Exchange> {
    after.subrange(before.len() as int, after.len() as int)
}

/// Going from the record `before` to `after`, the device carried out `plan`
/// at `address` (see `follows`).
pub open spec fn ran(
    before: Seq<Exchange>,
    after: Seq<Exchange>,
    address: u8,
    plan: Seq<Request>,
    ok: bool,
) -> bool {
    &&& before.len() <= after.len()
    &&& after.subrange(0, before.len() as int) == before
    &&& follows(issued(before, after), address, plan, ok)
}

/// The bytes received by the `k`-th transaction issued between `before` and `after`.
pub open spec fn reply(before: Seq<Exchange>, after: Seq<Exchange>, k: int) -> Seq<u8> {
    after[before.len() + k].received
}

/// A 16-bit value, most significant byte first.
pub open spec fn be16(v: u16) -> Seq<u8> {
    seq![(v / 256) as u8, (v % 256) as u8]
}

/// A 32-bit value, most significant byte first.
pub open spec fn be32(v: u32) -> Seq<u8> {
    seq![(v / 0x100_0000) as u8, (v / 0x1_0000 % 256) as u8, (v / 256 % 256) as u8, (v % 256) as u8]
}

/// A 32-bit value, least significant byte first.
pub open spec fn le32(v: u32) -> Seq<u8> {
    seq![(v % 256) as u8, (v / 256 % 256) as u8, (v / 0x1_0000 % 256) as u8, (v / 0x100_0000) as u8]
}

/// The unsigned value of two bytes, most significant first.
pub open spec fn be16_value(b: Seq<u8>) -> int {
    b[0] * 256 + b[1]
}

/// The signed 16-bit value of two bytes, least significant first (two's
/// complement).
pub open spec fn le_i16_value(lo: u8, hi: u8) -> int {
    if hi < 128 {
        hi * 256 + lo
    } else {
        hi * 256 + lo - 0x1_0000
    }
}

/// The signed value of two bytes, least significant first.
pub(crate) fn le_i16(lo: u8, hi: u8) -> (r: i16)
    ensures
        r == le_i16_value(lo, hi),
{
    if hi < 128 {
        (hi as i16) * 256 + lo as i16
    } else {
        ((hi as i16) - 256) * 256 + lo as i16
    }
}

/// A 16-bit value written to a 16-bit register, then read back from it
/// as it was written, comes back unchanged: the write sends the register
/// address and then the value most significant byte first, and the read
/// sends the same register address and decodes the two bytes it receives
/// most significant first.
pub proof fn register_round_trip(reg: u16, value: u16)
    ensures
        (be16(reg) + be16(value)).subrange(0, 2) == be16(reg),
        be16_value((be16(reg) + be16(value)).subrange(2, 4)) == value,
{
    assert((be16(reg) + be16(value)).subrange(0, 2) =~= be16(reg));
    assert((be16(reg) + be16(value)).subrange(2, 4) =~= be16(value));
}

/// Extending a record that ran `plan_a` completely with a run of `plan_b` runs `plan_a + plan_b`.
pub proof fn lemma_ran_then(
    h0: Seq<Exchange>,
    h1: Seq<Exchange>,
    h2: Seq<Exchange>,
    address: u8,
    plan_a: Seq<Request>,
    plan_b: Seq<Request>,
    ok: bool,
)
    requires
        ran(h0, h1, address, plan_a, true),
        ran(h1, h2, address, plan_b, ok),
    ensures
        ran(h0, h2, address, plan_a + plan_b, ok),
{
    let i1 = issued(h0, h1);
    let i2 = issued(h1, h2);
    let i = issued(h0, h2);
    assert(h2.subrange(0, h1.len() as int) == h1);
    assert(i =~= i1 + i2);
    assert(h2.subrange(0, h0.len() as int) =~= h0) by {
        assert(h1.subrange(0, h0.len() as int) == h0);
        assert forall|k: int| 0 <= k < h0.len() implies h2[k] == h0[k] by {
            assert(h2.subrange(0, h1.len() as int)[k] == h1[k]);
            assert(h1.subrange(0, h0.len() as int)[k] == h0[k]);
        }
    }
    let p = plan_a + plan_b;
    assert forall|k: int| 0 <= k < i.len() implies carries(#[trigger] i[k], address, p[k]) by {
        if k < i1.len() {
            assert(i[k] == i1[k]);
        } else {
            assert(i[k] == i2[k - i1.len()]);
        }
    }
    assert forall|k: int| 0 <= k < i.len() - 1 implies (#[trigger] i[k]).ok by {
        if k < i1.len() {
            assert(i[k] == i1[k]);
            if k == i1.len() - 1 {
                assert(i1.last().ok);
            }
        } else {
            assert(i[k] == i2[k - i1.len()]);
        }
    }
    assert(i.last() == i2.last());
}

/// A run of `plan_a` that failed is a run of `plan_a + plan_b` that failed.
pub proof fn lemma_ran_failed(
    h0: Seq<Exchange>,
    h1: Seq<Exchange>,
    address: u8,
    plan_a: Seq<Request>,
    plan_b: Seq<Request>,
)
    requires
        ran(h0, h1, address, plan_a, false),
    ensures
        ran(h0, h1, address, plan_a + plan_b, false),
{
    let i = issued(h0, h1);
    let p = plan_a + plan_b;
    assert forall|k: int| 0 <= k < i.len() implies carries(#[trigger] i[k], address, p[k]) by {
        assert(p[k] == plan_a[k]);
    }
}

/// Relies on embedded-hal's `I2c::write`: one write transaction of `bytes` to
/// `address`, its error reduced to the portable `ErrorKind`.
#[verifier::external_body]
fn bus_write<I2C: I2c>(i2c: &mut I2C, address: u8, bytes: &[u8]) -> (r: core::result::Result<
    (),
    embedded_hal::i2c::ErrorKind,
>) {
    match i2c.write(address, bytes) {
        Ok(()) => Ok(()),
        Err(e) => Err(embedded_hal::i2c::Error::kind(&e)),
    }
}

/// Relies on embedded-hal's `I2c::read`: one read transaction from `address`
/// into `buf`, which is filled in place and keeps its length.
#[verifier::external_body]
fn bus_read<I2C: I2c>(i2c: &mut I2C, address: u8, buf: &mut [u8]) -> (r: core::result::Result<
    (),
    embedded_hal::i2c::ErrorKind,
>)
    ensures
        final(buf)@.len() == old(buf)@.len(),
{
    match i2c.read(address, buf) {
        Ok(()) => Ok(()),
        Err(e) => Err(embedded_hal::i2c::Error::kind(&e)),
    }
}

/// Relies on embedded-hal's `I2c::write_read`: one transaction with a repeated
/// start, sending `bytes` and then filling `buf` in place, which keeps its length.
#[verifier::external_body]
fn bus_write_read<I2C: I2c>(
    i2c: &mut I2C,
    address: u8,
    bytes: &[u8],
    buf: &mut [u8],
) -> (r: core::result::Result<(), embedded_hal::i2c::ErrorKind>)
    ensures
        final(buf)@.len() == old(buf)@.len(),
{
    match i2c.write_read(address, bytes, buf) {
        Ok(()) => Ok(()),
        Err(e) => Err(embedded_hal::i2c::Error::kind(&e)),
    }
}

/// Helper struct for I2C operations.
pub struct I2cDevice<I2C> {
    /// The I2C bus.
    pub i2c: I2C,
    /// The device address.
    pub address: u8,
    /// The transactions issued through this device, oldest first.
    pub history: Ghost<Seq<Exchange>>,
}

impl<I2C: I2c> I2cDevice<I2C> {
    /// Create a new I2cDevice.
    pub fn new(i2c: I2C, address: u8) -> (r: Self)
        ensures
            r.i2c == i2c,
            r.address == address,
            r.history@ == Seq::<Exchange>::empty(),
    {
        I2cDevice { i2c, address, history: Ghost(Seq::empty()) }
    }

    /// Write bytes to the device.
    pub fn write(&mut self, data: &[u8]) -> (r: Result<()>)
        ensures
            final(self).address == old(self).address,
            ran(old(self).history@, final(self).history@, old(self).address, seq![Request::Write(data@)], r is Ok),
            from_bus(r),
            reports(r, final(self).history@),
    {
        let r = bus_write(&mut self.i2c, self.address, data);
        let ghost x = Exchange {
            address: self.address,
            request: Request::Write(data@),
            received: Seq::empty(),
            ok: r is Ok,
            fault: fault_of(r),
        };
        proof {
            self.history@ = self.history@.push(x);
        }
        assert(issued(old(self).history@, self.history@) =~= seq![x]);
        assert(self.history@.subrange(0, old(self).history@.len() as int) =~= old(self).history@);
        match r {
            Ok(()) => Ok(()),
            Err(e) => Err(Error::I2c(e)),
        }
    }

    /// Read bytes from the device.
    pub fn read(&mut self, buf: &mut [u8]) -> (r: Result<()>)
        ensures
            final(self).address == old(self).address,
            ran(old(self).history@, final(self).history@, old(self).address, seq![Request::Read(old(buf)@.len())], r is Ok),
            final(buf)@ == reply(old(self).history@, final(self).history@, 0),
            from_bus(r),
            reports(r, final(self).history@),
    {
        let ghost n = buf@.len();
        let r = bus_read(&mut self.i2c, self.address, buf);
        let ghost x = Exchange {
            address: self.address,
            request: Request::Read(n),
            received: buf@,
            ok: r is Ok,
            fault: fault_of(r),
        };
        proof {
            self.history@ = self.history@.push(x);
        }
        assert(issued(old(self).history@, self.history@) =~= seq![x]);
        assert(self.history@.subrange(0, old(self).history@.len() as int) =~= old(self).history@);
        match r {
            Ok(()) => Ok(()),
            Err(e) => Err(Error::I2c(e)),
        }
    }

    /// Write bytes and then read bytes (Repeated Start).
    pub fn write_read(&mut self, write: &[u8], read: &mut [u8]) -> (r: Result<()>)
        ensures
            final(self).address == old(self).address,
            ran(
                old(self).history@,
                final(self).history@,
                old(self).address,
                seq![Request::WriteRead(write@, old(read)@.len())],
                r is Ok,
            ),
            final(read)@ == reply(old(self).history@, final(self).history@, 0),
            from_bus(r),
            reports(r, final(self).history@),
    {
        let ghost n = read@.len();
        let r = bus_write_read(&mut self.i2c, self.address, write, read);
        let ghost x = Exchange {
            address: self.address,
            request: Request::WriteRead(write@, n),
            received: read@,
            ok: r is Ok,
            fault: fault_of(r),
        };
        proof {
            self.history@ = self.history@.push(x);
        }
        assert(issued(old(self).history@, self.history@) =~= seq![x]);
        assert(self.history@.subrange(0, old(self).history@.len() as int) =~= old(self).history@);
        match r {
            Ok(()) => Ok(()),
            Err(e) => Err(Error::I2c(e)),
        }
    }

    /// Write a byte to an 8-bit register.
    pub fn write_reg(&mut self, reg: u8, value: u8) -> (r: Result<()>)
        ensures
            final(self).address == old(self).address,
            ran(old(self).history@, final(self).history@, old(self).address, seq![Request::Write(seq![reg, value])], r is Ok),
            from_bus(r),
            reports(r, final(self).history@),
    {
        let data = [reg, value];
        assert(data@ =~= seq![reg, value]);
        self.write(&data)
    }

    /// Read a byte from an 8-bit register.
    pub fn read_reg(&mut self, reg: u8) -> (r: Result<u8>)
        ensures
            final(self).address == old(self).address,
            ran(old(self).history@, final(self).history@, old(self).address, seq![Request::WriteRead(seq![reg], 1)], r is Ok),
            r matches Ok(v) ==> v == reply(old(self).history@, final(self).history@, 0)[0],
            from_bus(r),
            reports(r, final(self).history@),
    {
        let mut buf = [0u8; 1];
        let cmd = [reg];
        assert(cmd@ =~= seq![reg]);
        let r = self.write_read(&cmd, &mut buf);
        match r {
            Ok(()) => Ok(buf[0]),
            Err(e) => Err(e),
        }
    }

    /// Read multiple bytes starting from an 8-bit register.
    pub fn read_regs(&mut self, reg: u8, buf: &mut [u8]) -> (r: Result<()>)
        ensures
            final(self).address == old(self).address,
            ran(
                old(self).history@,
                final(self).history@,
                old(self).address,
                seq![Request::WriteRead(seq![reg], old(buf)@.len())],
                r is Ok,
            ),
            final(buf)@ == reply(old(self).history@, final(self).history@, 0),
            from_bus(r),
            reports(r, final(self).history@),
    {
        let cmd = [reg];
        assert(cmd@ =~= seq![reg]);
        self.write_read(&cmd, buf)
    }

    /// Write a byte to a 16-bit register (Big Endian address).
    pub fn write_reg16_u8(&mut self, reg: u16, value: u8) -> (r: Result<()>)
        ensures
            final(self).address == old(self).address,
            ran(
                old(self).history@,
                final(self).history@,
                old(self).address,
                seq![Request::Write(be16(reg).push(value))],
                r is Ok,
            ),
            from_bus(r),
            reports(r, final(self).history@),
    {
        let data = [(reg / 256) as u8, (reg % 256) as u8, value];
        assert(data@ =~= be16(reg).push(value));
        self.write(&data)
    }

    /// Write a 16-bit value to a 16-bit register (Big Endian address and value).
    pub fn write_reg16_u16(&mut self, reg: u16, value: u16) -> (r: Result<()>)
        ensures
            final(self).address == old(self).address,
            ran(
                old(self).history@,
                final(self).history@,
                old(self).address,
                seq![Request::Write(be16(reg) + be16(value))],
                r is Ok,
            ),
            from_bus(r),
            reports(r, final(self).history@),
    {
        let data = [(reg / 256) as u8, (reg % 256) as u8, (value / 256) as u8, (value % 256) as u8];
        assert(data@ =~= be16(reg) + be16(value));
        self.write(&data)
    }

    /// Write a 32-bit value to a 16-bit register (Big Endian address and value).
    pub fn write_reg16_u32(&mut self, reg: u16, value: u32) -> (r: Result<()>)
        ensures
            final(self).address == old(self).address,
            ran(
                old(self).history@,
                final(self).history@,
                old(self).address,
                seq![Request::Write(be16(reg) + be32(value))],
                r is Ok,
            ),
            from_bus(r),
            reports(r, final(self).history@),
    {
        let data = [
            (reg / 256) as u8,
            (reg % 256) as u8,
            (value / 0x100_0000) as u8,
            (value / 0x1_0000 % 256) as u8,
            (value / 256 % 256) as u8,
            (value % 256) as u8,
        ];
        assert(data@ =~= be16(reg) + be32(value));
        self.write(&data)
    }

    /// Read a byte from a 16-bit register (Big Endian address).
    pub fn read_reg16_u8(&mut self, reg: u16) -> (r: Result<u8>)
        ensures
            final(self).address == old(self).address,
            ran(old(self).history@, final(self).history@, old(self).address, seq![Request::WriteRead(be16(reg), 1)], r is Ok),
            r matches Ok(v) ==> v == reply(old(self).history@, final(self).history@, 0)[0],
            from_bus(r),
            reports(r, final(self).history@),
    {
        let cmd = [(reg / 256) as u8, (reg % 256) as u8];
        assert(cmd@ =~= be16(reg));
        let mut buf = [0u8; 1];
        let r = self.write_read(&cmd, &mut buf);
        match r {
            Ok(()) => Ok(buf[0]),
            Err(e) => Err(e),
        }
    }

    /// Read a 16-bit value from a 16-bit register (Big Endian address and value).
    pub fn read_reg16_u16(&mut self, reg: u16) -> (r: Result<u16>)
        ensures
            final(self).address == old(self).address,
            ran(old(self).history@, final(self).history@, old(self).address, seq![Request::WriteRead(be16(reg), 2)], r is Ok),
            r matches Ok(v) ==> v == be16_value(reply(old(self).history@, final(self).history@, 0)),
            from_bus(r),
            reports(r, final(self).history@),
    {
        let cmd = [(reg / 256) as u8, (reg % 256) as u8];
        assert(cmd@ =~= be16(reg));
        let mut buf = [0u8; 2];
        let r = self.write_read(&cmd, &mut buf);
        match r {
            Ok(()) => Ok((buf[0] as u16) * 256 + buf[1] as u16),
            Err(e) => Err(e),
        }
    }

    /// Release the I2C bus.
    pub fn release(self) -> (r: I2C)
        ensures
            r == self.i2c,
    {
        self.i2c
    }
}

} // verus!
