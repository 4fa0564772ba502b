//! Modulino Distance driver.
//!
//! The Modulino Distance module uses a VL53L4CD Time-of-Flight sensor
//! to measure distance to objects. Its registers have 16-bit addresses,
//! sent most significant byte first.
use crate::addresses;
use crate::error::{from_bus, Error, Result};
use crate::i2c_device::{reports, 
    be16, be16_value, be32, carries, follows, issued, lemma_ran_failed, lemma_ran_then, ran, reply, Exchange,
    I2cDevice, Request,
};
use embedded_hal::delay::DelayNs;
use embedded_hal::i2c::I2c;
use vstd::prelude::*;

verus! {

/// Ranging start/stop register.
pub const SYSTEM_START: u16 = 0x0087;
/// Range status of the last measurement.
pub const RESULT_RANGE_STATUS: u16 = 0x0089;
/// Final crosstalk-corrected range, in millimetres.
pub const RESULT_RANGE_MM: u16 = 0x0096;
/// Interrupt clear register.
pub const SYSTEM_INTERRUPT_CLEAR: u16 = 0x0086;
/// GPIO mux control; bit 4 holds the interrupt polarity.
pub const GPIO_HV_MUX_CTRL: u16 = 0x0030;
/// GPIO status; bit 0 holds the interrupt line.
pub const GPIO_TIO_HV_STATUS: u16 = 0x0031;
/// First range timing register.
pub const RANGE_CONFIG_A: u16 = 0x005E;
/// Second range timing register.
pub const RANGE_CONFIG_B: u16 = 0x0061;
/// Inter-measurement period register, in oscillator ticks.
pub const INTERMEASUREMENT_MS: u16 = 0x006C;

/// Firmware status register.
pub const FIRMWARE_SYSTEM_STATUS: u16 = 0x00E5;

/// Value of `FIRMWARE_SYSTEM_STATUS` once the sensor has booted.
pub const FIRMWARE_BOOTED: u8 = 0x03;
/// Attempts of the start-up polling loops, one millisecond apart.
pub const MAX_WAIT_ATTEMPTS: u32 = 1000;
/// Pause between two attempts of a polling loop, in milliseconds.
pub const POLL_INTERVAL_MS: u32 = 1;
/// Value written to `SYSTEM_START` to start ranging.
pub const START_RANGING: u8 = 0x40;
/// Value written to `SYSTEM_START` to stop ranging.
pub const STOP_RANGING: u8 = 0x00;
/// Value written to `SYSTEM_INTERRUPT_CLEAR` to clear the interrupt.
pub const CLEAR_INTERRUPT: u8 = 0x01;
/// Oscillator frequency used to convert the inter-measurement period.
pub const OSC_FREQUENCY: u32 = 64000;
/// Timing budget applied by `init`, in milliseconds.
pub const DEFAULT_TIMING_BUDGET_MS: u16 = 20;
/// Inter-measurement period applied by `init`, in milliseconds.
pub const DEFAULT_INTER_MEASUREMENT_MS: u32 = 50;
/// Number of data-ready polls `read_distance_blocking` makes before giving up.
pub const MAX_POLLS: u32 = 1000;

/// Register value for a timing budget in milliseconds; unsupported budgets
/// are encoded as 20 ms.
pub open spec fn timing_budget_code(budget_ms: u16) -> u16 {
    if budget_ms == 10 {
        0x0001
    } else if budget_ms == 15 {
        0x0002
    } else if budget_ms == 20 {
        0x0005
    } else if budget_ms == 33 {
        0x000B
    } else if budget_ms == 50 {
        0x0013
    } else if budget_ms == 100 {
        0x0029
    } else if budget_ms == 200 {
        0x0055
    } else if budget_ms == 500 {
        0x00D6
    } else {
        0x0005
    }
}

/// Oscillator ticks for an inter-measurement period, `period_ms * 64000 / 1000`,
/// saturated at the register's largest value.
pub open spec fn inter_measurement_ticks(period_ms: u32) -> u32 {
    let ticks = period_ms * OSC_FREQUENCY / 1000;
    if ticks > u32::MAX {
        u32::MAX
    } else {
        ticks as u32
    }
}

/// A write of one byte to a 16-bit register.
pub open spec fn write_u8(reg: u16, value: u8) -> Request {
    Request::Write(be16(reg).push(value))
}

/// A read of `n` bytes from a 16-bit register.
pub open spec fn read_n(reg: u16, n: nat) -> Request {
    Request::WriteRead(be16(reg), n)
}

/// The transactions of `set_timing_budget`.
pub open spec fn timing_budget_plan(budget_ms: u16) -> Seq<Request> {
    let code = timing_budget_code(budget_ms);
    seq![
        Request::Write(be16(RANGE_CONFIG_A) + be16(code)),
        Request::Write(be16(RANGE_CONFIG_B) + be16(code)),
    ]
}

/// The transactions of `set_inter_measurement`.
pub open spec fn inter_measurement_plan(period_ms: u32) -> Seq<Request> {
    seq![Request::Write(be16(INTERMEASUREMENT_MS) + be32(inter_measurement_ticks(period_ms)))]
}

/// The transactions of `init`.
pub open spec fn init_plan() -> Seq<Request> {
    timing_budget_plan(DEFAULT_TIMING_BUDGET_MS) + inter_measurement_plan(DEFAULT_INTER_MEASUREMENT_MS)
}

/// The transactions of `data_ready`.
pub open spec fn data_ready_plan() -> Seq<Request> {
    seq![read_n(GPIO_HV_MUX_CTRL, 1), read_n(GPIO_TIO_HV_STATUS, 1)]
}

/// The transactions of `read_distance`.
pub open spec fn read_distance_plan() -> Seq<Request> {
    seq![
        read_n(RESULT_RANGE_STATUS, 1),
        read_n(RESULT_RANGE_MM, 2),
        write_u8(SYSTEM_INTERRUPT_CLEAR, CLEAR_INTERRUPT),
    ]
}

/// Interrupt polarity: bit 4 of the mux control register.
pub open spec fn polarity_bit(mux: u8) -> u8 {
    ((mux / 16) % 2) as u8
}

/// Interrupt line: bit 0 of the GPIO status register.
pub open spec fn status_bit(status: u8) -> u8 {
    (status % 2) as u8
}

/// Range status code: the low five bits of the status register.
pub open spec fn range_status_code(raw: u8) -> u8 {
    (raw % 32) as u8
}

/// Range status codes of measurements treated as valid by `read_distance_blocking`.
pub open spec fn valid_range_status(status: u8) -> bool {
    status == 0 || status == 4
}

/// A measurement is accepted when its range status is valid and its
/// distance is not zero.
pub open spec fn accepted(status: u8, distance_mm: int) -> bool {
    valid_range_status(status) && distance_mm > 0
}

/// What the `data_ready` run `s` reported.
pub open spec fn reports_ready(s: Seq<Exchange>) -> bool {
    status_bit(s[1].received[0]) != polarity_bit(s[0].received[0])
}

/// Range status code of the `read_distance` run `s`.
pub open spec fn measured_status(s: Seq<Exchange>) -> u8 {
    range_status_code(s[0].received[0])
}

/// Distance of the `read_distance` run `s`.
pub open spec fn measured_distance(s: Seq<Exchange>) -> int {
    be16_value(s[1].received)
}

/// `s` is a poll that reported ready, then a complete `read_distance` run.
pub open spec fn read_round(s: Seq<Exchange>, address: u8) -> bool {
    &&& s.len() == 5
    &&& follows(s.subrange(0, 2), address, data_ready_plan(), true)
    &&& reports_ready(s.subrange(0, 2))
    &&& follows(s.subrange(2, 5), address, read_distance_plan(), true)
}

/// `s` is one round of `read_distance_blocking` that gave no result: a poll
/// that reported not ready, or a measurement that was not accepted.
pub open spec fn rejected_round(s: Seq<Exchange>, address: u8) -> bool {
    ||| (s.len() == 2 && follows(s, address, data_ready_plan(), true) && !reports_ready(s))
    ||| (read_round(s, address) && !accepted(measured_status(s.subrange(2, 5)), measured_distance(s.subrange(2, 5))))
}

/// `s` is the round of `read_distance_blocking` whose measurement was accepted.
pub open spec fn accepted_round(s: Seq<Exchange>, address: u8) -> bool {
    read_round(s, address) && accepted(measured_status(s.subrange(2, 5)), measured_distance(s.subrange(2, 5)))
}

/// `s` is a round of `read_distance_blocking` cut short by a bus failure,
/// in the poll or in the measurement that followed a ready poll.
pub open spec fn failed_round(s: Seq<Exchange>, address: u8) -> bool {
    ||| follows(s, address, data_ready_plan(), false)
    ||| {
        &&& s.len() > 2
        &&& follows(s.subrange(0, 2), address, data_ready_plan(), true)
        &&& reports_ready(s.subrange(0, 2))
        &&& follows(s.subrange(2, s.len() as int), address, read_distance_plan(), false)
    }
}

/// `s` consists of `n` rounds of `read_distance_blocking` that gave no result.
pub open spec fn rejected_rounds(s: Seq<Exchange>, address: u8, n: nat) -> bool
    decreases n,
{
    if n == 0 {
        s.len() == 0
    } else {
        ||| (s.len() >= 2 && rejected_round(s.subrange(s.len() - 2, s.len() as int), address)
            && rejected_rounds(s.subrange(0, s.len() - 2), address, (n - 1) as nat))
        ||| (s.len() >= 5 && rejected_round(s.subrange(s.len() - 5, s.len() as int), address)
            && rejected_rounds(s.subrange(0, s.len() - 5), address, (n - 1) as nat))
    }
}

/// `s` consists of `n` complete `data_ready` runs that each reported not
/// ready.
pub open spec fn idle_polls(s: Seq<Exchange>, address: u8, n: nat) -> bool
    decreases n,
{
    if n == 0 {
        s.len() == 0
    } else {
        let last = s.subrange(s.len() - 2, s.len() as int);
        &&& s.len() >= 2
        &&& follows(last, address, data_ready_plan(), true)
        &&& !reports_ready(last)
        &&& idle_polls(s.subrange(0, s.len() - 2), address, (n - 1) as nat)
    }
}

proof fn lemma_idle_extend(done: Seq<Exchange>, poll: Seq<Exchange>, address: u8, n: nat)
    requires
        idle_polls(done, address, n),
        follows(poll, address, data_ready_plan(), true),
        !reports_ready(poll),
    ensures
        idle_polls(done + poll, address, n + 1),
{
    let s = done + poll;
    assert(s.subrange(s.len() - 2, s.len() as int) =~= poll);
    assert(s.subrange(0, s.len() - 2) =~= done);
}

/// `s` is a completed boot wait: firmware status reads that all went
/// through, ending at the first that reads `FIRMWARE_BOOTED` or after
/// `MAX_WAIT_ATTEMPTS` reads.
pub open spec fn boot_wait(s: Seq<Exchange>, address: u8) -> bool {
    &&& 0 < s.len() <= MAX_WAIT_ATTEMPTS
    &&& forall|i: int|
        0 <= i < s.len() ==> carries(#[trigger] s[i], address, read_n(FIRMWARE_SYSTEM_STATUS, 1)) && s[i].ok
    &&& forall|i: int| 0 <= i < s.len() - 1 ==> (#[trigger] s[i]).received[0] != FIRMWARE_BOOTED
    &&& (s.last().received[0] == FIRMWARE_BOOTED || s.len() == MAX_WAIT_ATTEMPTS)
}

/// `s` is a completed wait for data: `MAX_WAIT_ATTEMPTS` polls that reported
/// not ready, or fewer followed by one that reported ready.
pub open spec fn ready_wait(s: Seq<Exchange>, address: u8) -> bool {
    ||| idle_polls(s, address, MAX_WAIT_ATTEMPTS as nat)
    ||| {
        let last = s.subrange(s.len() - 2, s.len() as int);
        &&& s.len() >= 2
        &&& follows(last, address, data_ready_plan(), true)
        &&& reports_ready(last)
        &&& exists|n: nat| n < MAX_WAIT_ATTEMPTS && #[trigger] idle_polls(s.subrange(0, s.len() - 2), address, n)
    }
}

/// The writes that end `init_with_delay`: clear the interrupt, stop
/// ranging, then the default timing settings.
pub open spec fn settle_plan() -> Seq<Request> {
    seq![write_u8(SYSTEM_INTERRUPT_CLEAR, CLEAR_INTERRUPT), write_u8(SYSTEM_START, STOP_RANGING)] + init_plan()
}

/// `s` is a complete start-up sequence, split at `i` and `j`: the boot wait,
/// the start of ranging, the wait for the first measurement, then
/// `settle_plan`.
pub open spec fn start_up(s: Seq<Exchange>, address: u8, i: int, j: int) -> bool {
    &&& 0 < i < j <= s.len()
    &&& boot_wait(s.subrange(0, i), address)
    &&& follows(s.subrange(i, i + 1), address, seq![write_u8(SYSTEM_START, START_RANGING)], true)
    &&& ready_wait(s.subrange(i + 1, j), address)
    &&& follows(s.subrange(j, s.len() as int), address, settle_plan(), true)
}

/// Whether `read_distance_blocking` accepts a measurement.
pub fn accept_measurement(status: u8, distance_mm: u16) -> (r: bool)
    ensures
        r == accepted(status, distance_mm as int),
{
    (status == 0 || status == 4) && distance_mm > 0
}

proof fn lemma_rounds_extend(done: Seq<Exchange>, round: Seq<Exchange>, address: u8, n: nat)
    requires
        rejected_rounds(done, address, n),
        rejected_round(round, address),
    ensures
        rejected_rounds(done + round, address, n + 1),
{
    let s = done + round;
    assert(s.subrange(s.len() - round.len(), s.len() as int) =~= round);
    assert(s.subrange(0, s.len() - round.len()) =~= done);
}

/// Records `h0`, `hb`, `h` that each extend the one before.
proof fn lemma_concat(h0: Seq<Exchange>, hb: Seq<Exchange>, h: Seq<Exchange>)
    requires
        h0.is_prefix_of(hb),
        hb.len() <= h.len(),
        h.subrange(0, hb.len() as int) == hb,
    ensures
        h0.is_prefix_of(h),
        issued(h0, h) =~= issued(h0, hb) + issued(hb, h),
{
    assert forall|i: int| 0 <= i < hb.len() implies h[i] == hb[i] by {
        assert(h.subrange(0, hb.len() as int)[i] == hb[i]);
    }
    assert(h.subrange(0, h0.len() as int) =~= h0);
}

/// Every budget outside the supported set is encoded exactly as 20 ms.
pub proof fn timing_budget_fallback(budget_ms: u16)
    requires
        !(budget_ms == 10 || budget_ms == 15 || budget_ms == 20 || budget_ms == 33 || budget_ms
            == 50 || budget_ms == 100 || budget_ms == 200 || budget_ms == 500),
    ensures
        timing_budget_code(budget_ms) == timing_budget_code(DEFAULT_TIMING_BUDGET_MS),
        timing_budget_plan(budget_ms) == timing_budget_plan(DEFAULT_TIMING_BUDGET_MS),
{
}

/// A zero period is written as zero ticks, and a period whose tick count fits
/// in the register is written as exactly `period_ms * 64000 / 1000`, which is
/// `period_ms * 64`.
pub proof fn inter_measurement_exact(period_ms: u32)
    ensures
        period_ms == 0 ==> inter_measurement_ticks(period_ms) == 0,
        period_ms * 64 <= u32::MAX ==> inter_measurement_ticks(period_ms) == period_ms * 64000 / 1000,
        period_ms * 64 <= u32::MAX ==> inter_measurement_ticks(period_ms) == period_ms * 64,
{
    assert(period_ms * 64000 / 1000 == period_ms * 64) by (nonlinear_arith);
}

/// `read_distance` writes exactly once, and that write puts `0x01` into the
/// interrupt clear register, as the bytes `[0x00, 0x86, 0x01]`.
pub proof fn read_distance_clears_once()
    ensures
        read_distance_plan().len() == 3,
        forall|i: int| 0 <= i < 3 ==> ((#[trigger] read_distance_plan()[i] is Write) <==> i == 2),
        read_distance_plan()[2] == Request::Write(seq![0x00u8, 0x86u8, 0x01u8]),
{
    assert(be16(SYSTEM_INTERRUPT_CLEAR).push(CLEAR_INTERRUPT) =~= seq![0x00u8, 0x86u8, 0x01u8]);
}

/// Relies on embedded-hal's `DelayNs::delay_ms`: blocks for at least `ms`
/// milliseconds; it does not touch the bus.
#[verifier::external_body]
fn pause_ms<D: DelayNs>(delay: &mut D, ms: u32) {
    delay.delay_ms(ms)
}

proof fn lemma_bits(x: u8)
    ensures
        (x & 0x10) >> 4u8 == (x / 16) % 2,
        x & 0x01 == x % 2,
        x & 0x1F == x % 32,
{
    assert((x & 0x10) >> 4u8 == (x / 16) % 2) by (bit_vector);
    assert(x & 0x01 == x % 2) by (bit_vector);
    assert(x & 0x1F == x % 32) by (bit_vector);
}

/// Driver for the Modulino Distance module (VL53L4CD ToF sensor).
pub struct Distance<I2C> {
    device: I2cDevice<I2C>,
}

impl<I2C: I2c> Distance<I2C> {
    /// The transactions issued by this driver, oldest first.
    pub closed spec fn history(&self) -> Seq<Exchange> {
        self.device.history@
    }

    /// The bus handed over at construction.
    pub closed spec fn bus(&self) -> I2C {
        self.device.i2c
    }

    /// The bus address of the sensor.
    pub closed spec fn bus_address(&self) -> u8 {
        self.device.address
    }

    /// Create a new Distance instance with the default address.
    ///
    /// No bus traffic: call `init` to apply the default timing settings.
    pub fn new(i2c: I2C) -> (r: Self)
        ensures
            r.bus_address() == addresses::DISTANCE,
            r.history() == Seq::<Exchange>::empty(),
            r.bus() == i2c,
    {
        Self::new_with_address(i2c, addresses::DISTANCE)
    }

    /// Create a new Distance instance with a custom address.
    pub fn new_with_address(i2c: I2C, address: u8) -> (r: Self)
        ensures
            r.bus_address() == address,
            r.history() == Seq::<Exchange>::empty(),
            r.bus() == i2c,
    {
        Distance { device: I2cDevice::new(i2c, address) }
    }

    /// Get the I2C address.
    pub fn address(&self) -> (r: u8)
        ensures
            r == self.bus_address(),
    {
        self.device.address
    }

    /// Run the start-up sequence: wait for the sensor to boot, start ranging
    /// and wait for the first measurement (both waits bounded and not
    /// failing when they run out), clear the interrupt, stop ranging, then
    /// apply the default settings as `init` does. A bus failure ends the
    /// sequence at once with its error.
    #[verifier::spinoff_prover]
    #[verifier::rlimit(50)]
    pub fn init_with_delay<D: DelayNs>(&mut self, delay: &mut D) -> (r: Result<()>)
        ensures
            final(self).bus_address() == old(self).bus_address(),
            old(self).history().is_prefix_of(final(self).history()),
            r is Ok ==> exists|i: int, j: int|
                #[trigger] start_up(issued(old(self).history(), final(self).history()), old(self).bus_address(), i, j),
            from_bus(r),
            reports(r, final(self).history()),
    {
        let ghost addr = self.device.address;
        let ghost h0 = self.device.history@;
        if let Err(e) = self.wait_for_boot(delay) {
            return Err(e);
        }
        let ghost h1 = self.device.history@;
        assert(boot_wait(issued(h0, h1), addr));
        if let Err(e) = self.start_ranging() {
            return Err(e);
        }
        let ghost h2 = self.device.history@;
        let waited = self.wait_data_ready(delay);
        let seen = match waited {
            Ok(b) => b,
            Err(e) => {
                return Err(e);
            },
        };
        let ghost h3 = self.device.history@;
        proof {
            let w = issued(h2, h3);
            if !seen {
                assert(idle_polls(w, addr, MAX_WAIT_ATTEMPTS as nat));
            } else {
                let n = choose|n: nat| n < MAX_WAIT_ATTEMPTS && #[trigger] idle_polls(w.subrange(0, w.len() - 2), addr, n);
                assert(idle_polls(w.subrange(0, w.len() - 2), addr, n));
            }
        }
        assert(ready_wait(issued(h2, h3), addr));
        let ghost plan_a = seq![write_u8(SYSTEM_INTERRUPT_CLEAR, CLEAR_INTERRUPT)];
        let ghost plan_b = seq![write_u8(SYSTEM_START, STOP_RANGING)];
        if let Err(e) = self.clear_interrupt() {
            return Err(e);
        }
        let ghost h4 = self.device.history@;
        if let Err(e) = self.stop_ranging() {
            return Err(e);
        }
        let ghost h5 = self.device.history@;
        let r = self.init();
        if let Err(e) = r {
            return Err(e);
        }
        let ghost h6 = self.device.history@;
        proof {
            lemma_ran_then(h3, h4, h5, addr, plan_a, plan_b, true);
            lemma_ran_then(h3, h5, h6, addr, plan_a + plan_b, init_plan(), true);
            assert(plan_a + plan_b + init_plan() =~= settle_plan());
            lemma_concat(h0, h1, h2);
            lemma_concat(h0, h2, h3);
            lemma_concat(h0, h3, h6);
            let new = issued(h0, h6);
            let i = issued(h0, h1).len() as int;
            let j = issued(h0, h3).len() as int;
            assert(new.subrange(0, i) =~= issued(h0, h1));
            assert(new.subrange(i, i + 1) =~= issued(h1, h2));
            assert(new.subrange(i + 1, j) =~= issued(h2, h3));
            assert(new.subrange(j, new.len() as int) =~= issued(h3, h6));
            assert(start_up(new, addr, i, j));
        }
        Ok(())
    }

    /// Apply the default settings: a 20 ms timing budget and a 50 ms
    /// inter-measurement period.
    pub fn init(&mut self) -> (r: Result<()>)
        ensures
            final(self).bus_address() == old(self).bus_address(),
            ran(old(self).history(), final(self).history(), old(self).bus_address(), init_plan(), r is Ok),
            from_bus(r),
            reports(r, final(self).history()),
    {
        let ghost h0 = self.device.history@;
        let r1 = self.set_timing_budget(DEFAULT_TIMING_BUDGET_MS);
        if let Err(e) = r1 {
            proof {
                lemma_ran_failed(
                    h0,
                    self.device.history@,
                    self.device.address,
                    timing_budget_plan(DEFAULT_TIMING_BUDGET_MS),
                    inter_measurement_plan(DEFAULT_INTER_MEASUREMENT_MS),
                );
            }
            return Err(e);
        }
        let ghost h1 = self.device.history@;
        let r2 = self.set_inter_measurement(DEFAULT_INTER_MEASUREMENT_MS);
        proof {
            lemma_ran_then(
                h0,
                h1,
                self.device.history@,
                self.device.address,
                timing_budget_plan(DEFAULT_TIMING_BUDGET_MS),
                inter_measurement_plan(DEFAULT_INTER_MEASUREMENT_MS),
                r2 is Ok,
            );
        }
        r2
    }

    /// Set the timing budget in milliseconds.
    ///
    /// Valid values: 10, 15, 20, 33, 50, 100, 200, 500; any other value is
    /// treated as 20.
    pub fn set_timing_budget(&mut self, budget_ms: u16) -> (r: Result<()>)
        ensures
            final(self).bus_address() == old(self).bus_address(),
            ran(
                old(self).history(),
                final(self).history(),
                old(self).bus_address(),
                timing_budget_plan(budget_ms),
                r is Ok,
            ),
            from_bus(r),
            reports(r, final(self).history()),
    {
        let code: u16 = match budget_ms {
            10 => 0x0001,
            15 => 0x0002,
            20 => 0x0005,
            33 => 0x000B,
            50 => 0x0013,
            100 => 0x0029,
            200 => 0x0055,
            500 => 0x00D6,
            _ => 0x0005,
        };
        let ghost plan_a = seq![Request::Write(be16(RANGE_CONFIG_A) + be16(code))];
        let ghost plan_b = seq![Request::Write(be16(RANGE_CONFIG_B) + be16(code))];
        assert(plan_a + plan_b =~= timing_budget_plan(budget_ms));
        let ghost h0 = self.device.history@;
        let r1 = self.device.write_reg16_u16(RANGE_CONFIG_A, code);
        if let Err(e) = r1 {
            proof {
                lemma_ran_failed(h0, self.device.history@, self.device.address, plan_a, plan_b);
            }
            return Err(e);
        }
        let ghost h1 = self.device.history@;
        let r2 = self.device.write_reg16_u16(RANGE_CONFIG_B, code);
        proof {
            lemma_ran_then(h0, h1, self.device.history@, self.device.address, plan_a, plan_b, r2 is Ok);
        }
        r2
    }

    /// Set the inter-measurement period in milliseconds.
    ///
    /// The register holds oscillator ticks, `period_ms * 64000 / 1000`; a
    /// period too long for the register is written as its largest value.
    pub fn set_inter_measurement(&mut self, period_ms: u32) -> (r: Result<()>)
        ensures
            final(self).bus_address() == old(self).bus_address(),
            ran(
                old(self).history(),
                final(self).history(),
                old(self).bus_address(),
                inter_measurement_plan(period_ms),
                r is Ok,
            ),
            from_bus(r),
            reports(r, final(self).history()),
    {
        let per_ms: u32 = OSC_FREQUENCY / 1000;
        let ticks: u32 = if period_ms > u32::MAX / per_ms {
            u32::MAX
        } else {
            period_ms * per_ms
        };
        assert(ticks == inter_measurement_ticks(period_ms)) by {
            assert(period_ms * 64000 / 1000 == period_ms * 64) by (nonlinear_arith);
        }
        self.device.write_reg16_u32(INTERMEASUREMENT_MS, ticks)
    }

    /// Start continuous ranging.
    pub fn start_ranging(&mut self) -> (r: Result<()>)
        ensures
            final(self).bus_address() == old(self).bus_address(),
            ran(
                old(self).history(),
                final(self).history(),
                old(self).bus_address(),
                seq![write_u8(SYSTEM_START, START_RANGING)],
                r is Ok,
            ),
            from_bus(r),
            reports(r, final(self).history()),
    {
        self.device.write_reg16_u8(SYSTEM_START, START_RANGING)
    }

    /// Stop ranging.
    pub fn stop_ranging(&mut self) -> (r: Result<()>)
        ensures
            final(self).bus_address() == old(self).bus_address(),
            ran(
                old(self).history(),
                final(self).history(),
                old(self).bus_address(),
                seq![write_u8(SYSTEM_START, STOP_RANGING)],
                r is Ok,
            ),
            from_bus(r),
            reports(r, final(self).history()),
    {
        self.device.write_reg16_u8(SYSTEM_START, STOP_RANGING)
    }

    /// Check if new data is ready: the interrupt line differs from the
    /// configured polarity.
    pub fn data_ready(&mut self) -> (r: Result<bool>)
        ensures
            final(self).bus_address() == old(self).bus_address(),
            ran(old(self).history(), final(self).history(), old(self).bus_address(), data_ready_plan(), r is Ok),
            r matches Ok(ready) ==> ready == (status_bit(reply(old(self).history(), final(self).history(), 1)[0])
                != polarity_bit(reply(old(self).history(), final(self).history(), 0)[0])),
            from_bus(r),
            reports(r, final(self).history()),
    {
        let ghost plan_a = seq![read_n(GPIO_HV_MUX_CTRL, 1)];
        let ghost plan_b = seq![read_n(GPIO_TIO_HV_STATUS, 1)];
        assert(plan_a + plan_b =~= data_ready_plan());
        let ghost h0 = self.device.history@;
        let mux = match self.device.read_reg16_u8(GPIO_HV_MUX_CTRL) {
            Ok(v) => v,
            Err(e) => {
                proof {
                    lemma_ran_failed(h0, self.device.history@, self.device.address, plan_a, plan_b);
                }
                return Err(e);
            },
        };
        let ghost h1 = self.device.history@;
        let r2 = self.device.read_reg16_u8(GPIO_TIO_HV_STATUS);
        proof {
            lemma_ran_then(h0, h1, self.device.history@, self.device.address, plan_a, plan_b, r2 is Ok);
        }
        match r2 {
            Ok(status) => {
                proof {
                    lemma_bits(mux);
                    lemma_bits(status);
                }
                let polarity = (mux & 0x10) >> 4;
                Ok((status & 0x01) != polarity)
            },
            Err(e) => Err(e),
        }
    }

    /// Clear the interrupt flag, so that the sensor produces the next
    /// measurement.
    pub fn clear_interrupt(&mut self) -> (r: Result<()>)
        ensures
            final(self).bus_address() == old(self).bus_address(),
            ran(
                old(self).history(),
                final(self).history(),
                old(self).bus_address(),
                seq![write_u8(SYSTEM_INTERRUPT_CLEAR, CLEAR_INTERRUPT)],
                r is Ok,
            ),
            from_bus(r),
            reports(r, final(self).history()),
    {
        self.device.write_reg16_u8(SYSTEM_INTERRUPT_CLEAR, CLEAR_INTERRUPT)
    }

    /// Read the range status code (low five bits) of the last measurement.
    pub fn read_range_status(&mut self) -> (r: Result<u8>)
        ensures
            final(self).bus_address() == old(self).bus_address(),
            ran(
                old(self).history(),
                final(self).history(),
                old(self).bus_address(),
                seq![read_n(RESULT_RANGE_STATUS, 1)],
                r is Ok,
            ),
            r matches Ok(s) ==> s == range_status_code(reply(old(self).history(), final(self).history(), 0)[0]),
            from_bus(r),
            reports(r, final(self).history()),
    {
        match self.device.read_reg16_u8(RESULT_RANGE_STATUS) {
            Ok(raw) => {
                proof {
                    lemma_bits(raw);
                }
                Ok(raw & 0x1F)
            },
            Err(e) => Err(e),
        }
    }

    /// Read the range status code and the distance in millimetres, then
    /// clear the interrupt.
    fn read_measurement(&mut self) -> (r: Result<(u8, u16)>)
        ensures
            final(self).bus_address() == old(self).bus_address(),
            ran(old(self).history(), final(self).history(), old(self).bus_address(), read_distance_plan(), r is Ok),
            r matches Ok((s, d)) ==> {
                &&& s == range_status_code(reply(old(self).history(), final(self).history(), 0)[0])
                &&& d == be16_value(reply(old(self).history(), final(self).history(), 1))
            },
            from_bus(r),
            reports(r, final(self).history()),
    {
        let ghost addr = self.device.address;
        let ghost plan_a = seq![read_n(RESULT_RANGE_STATUS, 1)];
        let ghost plan_b = seq![read_n(RESULT_RANGE_MM, 2)];
        let ghost plan_c = seq![write_u8(SYSTEM_INTERRUPT_CLEAR, CLEAR_INTERRUPT)];
        assert(plan_a + plan_b + plan_c =~= read_distance_plan());
        let ghost h0 = self.device.history@;
        let status = match self.read_range_status() {
            Ok(s) => s,
            Err(e) => {
                proof {
                    lemma_ran_failed(h0, self.device.history@, addr, plan_a, plan_b);
                    lemma_ran_failed(h0, self.device.history@, addr, plan_a + plan_b, plan_c);
                }
                return Err(e);
            },
        };
        let ghost h1 = self.device.history@;
        let distance = match self.device.read_reg16_u16(RESULT_RANGE_MM) {
            Ok(d) => d,
            Err(e) => {
                proof {
                    lemma_ran_then(h0, h1, self.device.history@, addr, plan_a, plan_b, false);
                    lemma_ran_failed(h0, self.device.history@, addr, plan_a + plan_b, plan_c);
                }
                return Err(e);
            },
        };
        let ghost h2 = self.device.history@;
        proof {
            lemma_ran_then(h0, h1, h2, addr, plan_a, plan_b, true);
        }
        let r3 = self.clear_interrupt();
        proof {
            lemma_ran_then(h0, h2, self.device.history@, addr, plan_a + plan_b, plan_c, r3 is Ok);
            assert(self.device.history@[h0.len() as int] == h2[h0.len() as int]);
            assert(self.device.history@[h0.len() + 1int] == h2[h0.len() + 1int]);
            assert(h2[h0.len() as int] == h1[h0.len() as int]);
        }
        match r3 {
            Ok(()) => Ok((status, distance)),
            Err(e) => Err(e),
        }
    }

    /// Read the distance measurement in millimetres.
    ///
    /// Reads the range status and the distance, then clears the interrupt so
    /// that the sensor produces the next measurement. The value is returned
    /// whatever the range status: callers that filter readings use
    /// `read_range_status` before this call.
    pub fn read_distance(&mut self) -> (r: Result<u16>)
        ensures
            final(self).bus_address() == old(self).bus_address(),
            ran(old(self).history(), final(self).history(), old(self).bus_address(), read_distance_plan(), r is Ok),
            r matches Ok(d) ==> d == be16_value(reply(old(self).history(), final(self).history(), 1)),
            from_bus(r),
            reports(r, final(self).history()),
    {
        match self.read_measurement() {
            Ok((_, d)) => Ok(d),
            Err(e) => Err(e),
        }
    }

    /// Wait for the sensor to boot: poll the firmware status register
    /// until it reads `FIRMWARE_BOOTED`, one millisecond apart, at most
    /// `MAX_WAIT_ATTEMPTS` times.
    ///
    /// Running out of attempts is not an error: the result is then
    /// `Ok(false)` and the caller goes on (a warm-started sensor may never
    /// report the boot). Only a bus failure is.
    pub fn wait_for_boot<D: DelayNs>(&mut self, delay: &mut D) -> (r: Result<bool>)
        ensures
            final(self).bus_address() == old(self).bus_address(),
            old(self).history().is_prefix_of(final(self).history()),
            ({
                let polls = issued(old(self).history(), final(self).history());
                &&& 0 < polls.len() <= MAX_WAIT_ATTEMPTS
                &&& forall|i: int|
                    0 <= i < polls.len() ==> carries(
                        #[trigger] polls[i],
                        old(self).bus_address(),
                        read_n(FIRMWARE_SYSTEM_STATUS, 1),
                    )
                &&& forall|i: int|
                    0 <= i < polls.len() - 1 ==> (#[trigger] polls[i]).ok && polls[i].received[0]
                        != FIRMWARE_BOOTED
                &&& (r is Ok) == polls.last().ok
                &&& r matches Ok(booted) ==> booted == (polls.last().received[0] == FIRMWARE_BOOTED)
                &&& r == Ok::<bool, Error>(false) ==> polls.len() == MAX_WAIT_ATTEMPTS
            }),
            from_bus(r),
            reports(r, final(self).history()),
    {
        let ghost h0 = self.device.history@;
        let ghost addr = self.device.address;
        let mut attempts: u32 = 0;
        loop
            invariant
                addr == old(self).device.address,
                h0 == old(self).device.history@,
                self.device.address == addr,
                attempts < MAX_WAIT_ATTEMPTS,
                h0.is_prefix_of(self.device.history@),
                issued(h0, self.device.history@).len() == attempts,
                forall|i: int|
                    0 <= i < attempts ==> carries(
                        #[trigger] issued(h0, self.device.history@)[i],
                        addr,
                        read_n(FIRMWARE_SYSTEM_STATUS, 1),
                    ),
                forall|i: int|
                    0 <= i < attempts ==> (#[trigger] issued(h0, self.device.history@)[i]).ok
                        && issued(h0, self.device.history@)[i].received[0] != FIRMWARE_BOOTED,
            decreases MAX_WAIT_ATTEMPTS - attempts,
        {
            let ghost hb = self.device.history@;
            let status = self.device.read_reg16_u8(FIRMWARE_SYSTEM_STATUS);
            proof {
                lemma_one_more(h0, hb, self.device.history@, addr, read_n(FIRMWARE_SYSTEM_STATUS, 1), status is Ok);
            }
            attempts = attempts + 1;
            match status {
                Ok(v) => {
                    if v == FIRMWARE_BOOTED {
                        return Ok(true);
                    }
                    if attempts == MAX_WAIT_ATTEMPTS {
                        return Ok(false);
                    }
                },
                Err(e) => {
                    return Err(e);
                },
            }
            pause_ms(delay, POLL_INTERVAL_MS);
        }
    }

    /// Wait for a measurement: poll `data_ready`, one millisecond apart, at
    /// most `MAX_WAIT_ATTEMPTS` times.
    ///
    /// Running out of attempts is not an error: the result is then
    /// `Ok(false)`. Only a bus failure is, and it ends the wait at once.
    #[verifier::spinoff_prover]
    #[verifier::rlimit(50)]
    pub fn wait_data_ready<D: DelayNs>(&mut self, delay: &mut D) -> (r: Result<bool>)
        ensures
            final(self).bus_address() == old(self).bus_address(),
            old(self).history().is_prefix_of(final(self).history()),
            ({
                let new = issued(old(self).history(), final(self).history());
                let addr = old(self).bus_address();
                &&& r == Ok::<bool, Error>(false) ==> idle_polls(new, addr, MAX_WAIT_ATTEMPTS as nat)
                &&& r == Ok::<bool, Error>(true) ==> {
                    let last = new.subrange(new.len() - 2, new.len() as int);
                    &&& new.len() >= 2
                    &&& follows(last, addr, data_ready_plan(), true)
                    &&& reports_ready(last)
                    &&& exists|n: nat|
                        n < MAX_WAIT_ATTEMPTS && #[trigger] idle_polls(new.subrange(0, new.len() - 2), addr, n)
                }
                &&& r matches Err(Error::I2c(_)) ==> exists|m: int, n: nat|
                    0 <= m < new.len() && n < MAX_WAIT_ATTEMPTS && #[trigger] idle_polls(new.subrange(0, m), addr, n)
                        && follows(new.subrange(m, new.len() as int), addr, data_ready_plan(), false)
            }),
            from_bus(r),
            reports(r, final(self).history()),
    {
        let ghost h0 = self.device.history@;
        let ghost addr = self.device.address;
        let mut attempts: u32 = 0;
        loop
            invariant
                addr == old(self).device.address,
                h0 == old(self).device.history@,
                self.device.address == addr,
                attempts < MAX_WAIT_ATTEMPTS,
                h0.is_prefix_of(self.device.history@),
                idle_polls(issued(h0, self.device.history@), addr, attempts as nat),
            decreases MAX_WAIT_ATTEMPTS - attempts,
        {
            let ghost hb = self.device.history@;
            let ghost done = issued(h0, hb);
            let ready = self.data_ready();
            let ghost h1 = self.device.history@;
            proof {
                lemma_concat(h0, hb, h1);
                let new = issued(h0, h1);
                assert(new.subrange(0, done.len() as int) =~= done);
                assert(new.subrange(done.len() as int, new.len() as int) =~= issued(hb, h1));
                if ready is Ok {
                    assert(reply(hb, h1, 0) == issued(hb, h1)[0].received);
                    assert(reply(hb, h1, 1) == issued(hb, h1)[1].received);
                }
            }
            attempts = attempts + 1;
            match ready {
                Ok(true) => {
                    proof {
                        let new = issued(h0, h1);
                        assert(new.subrange(new.len() - 2, new.len() as int) =~= issued(hb, h1));
                        assert(new.subrange(0, new.len() - 2) =~= done);
                        assert(idle_polls(new.subrange(0, new.len() - 2), addr, (attempts - 1) as nat));
                    }
                    return Ok(true);
                },
                Ok(false) => {
                    proof {
                        lemma_idle_extend(done, issued(hb, h1), addr, (attempts - 1) as nat);
                    }
                    if attempts == MAX_WAIT_ATTEMPTS {
                        return Ok(false);
                    }
                },
                Err(e) => {
                    proof {
                        let new = issued(h0, h1);
                        assert(0 <= done.len() < new.len());
                        assert(idle_polls(new.subrange(0, done.len() as int), addr, (attempts - 1) as nat));
                        assert(follows(issued(hb, h1), addr, data_ready_plan(), false));
                        assert(follows(new.subrange(done.len() as int, new.len() as int), addr, data_ready_plan(), false));
                        assert((attempts - 1) < MAX_WAIT_ATTEMPTS);
                    }
                    return Err(e);
                },
            }
            pause_ms(delay, POLL_INTERVAL_MS);
        }
    }

    /// Read distance, waiting for data to be ready.
    ///
    /// Each round polls `data_ready` and, when it reports ready, reads the
    /// measurement; the first measurement that `accept_measurement` accepts
    /// is returned. Gives up with `Timeout` after `MAX_POLLS` rounds; a bus
    /// failure ends the call at once with its error.
    #[verifier::spinoff_prover]
    #[verifier::rlimit(50)]
    pub fn read_distance_blocking(&mut self) -> (r: Result<u16>)
        ensures
            final(self).bus_address() == old(self).bus_address(),
            old(self).history().is_prefix_of(final(self).history()),
            ({
                let new = issued(old(self).history(), final(self).history());
                let addr = old(self).bus_address();
                &&& r == Err::<u16, Error>(Error::Timeout) ==> rejected_rounds(new, addr, MAX_POLLS as nat)
                &&& r matches Ok(d) ==> {
                    &&& new.len() >= 5
                    &&& accepted_round(new.subrange(new.len() - 5, new.len() as int), addr)
                    &&& d == measured_distance(new.subrange(new.len() - 3, new.len() as int))
                    &&& exists|n: nat|
                        n < MAX_POLLS && #[trigger] rejected_rounds(new.subrange(0, new.len() - 5), addr, n)
                }
                &&& r matches Err(Error::I2c(_)) ==> exists|m: int, n: nat|
                    0 <= m < new.len() && n < MAX_POLLS && #[trigger] rejected_rounds(new.subrange(0, m), addr, n)
                        && failed_round(new.subrange(m, new.len() as int), addr)
            }),
            r is Err ==> (r->Err_0 is I2c || r->Err_0 is Timeout),
            reports(r, final(self).history()),
    {
        let ghost h0 = self.device.history@;
        let ghost addr = self.device.address;
        let mut polls: u32 = 0;
        while polls < MAX_POLLS
            invariant
                addr == old(self).device.address,
                h0 == old(self).device.history@,
                self.device.address == addr,
                polls <= MAX_POLLS,
                h0.is_prefix_of(self.device.history@),
                rejected_rounds(issued(h0, self.device.history@), addr, polls as nat),
            decreases MAX_POLLS - polls,
        {
            let ghost hb = self.device.history@;
            let ghost done = issued(h0, hb);
            let ready = self.data_ready();
            let ghost h1 = self.device.history@;
            proof {
                lemma_concat(h0, hb, h1);
                assert(issued(h0, h1).subrange(0, done.len() as int) =~= done);
                assert(issued(h0, h1).subrange(done.len() as int, issued(h0, h1).len() as int) =~= issued(hb, h1));
            }
            match ready {
                Ok(true) => {
                    let m = self.read_measurement();
                    let ghost h2 = self.device.history@;
                    proof {
                        lemma_concat(h0, h1, h2);
                        lemma_concat(hb, h1, h2);
                        let round = issued(hb, h2);
                        let new = issued(h0, h2);
                        assert(round.subrange(0, 2) =~= issued(hb, h1));
                        assert(round.subrange(2, round.len() as int) =~= issued(h1, h2));
                        assert(reply(hb, h1, 0) == issued(hb, h1)[0].received);
                        assert(reply(hb, h1, 1) == issued(hb, h1)[1].received);
                        assert(new =~= done + round);
                        assert(new.subrange(0, done.len() as int) =~= done);
                        assert(new.subrange(done.len() as int, new.len() as int) =~= round);
                    }
                    match m {
                        Ok((status, d)) => {
                            proof {
                                assert(reply(h1, h2, 0) == issued(h1, h2)[0].received);
                                assert(reply(h1, h2, 1) == issued(h1, h2)[1].received);
                            }
                            if accept_measurement(status, d) {
                                proof {
                                    let round = issued(hb, h2);
                                    let new = issued(h0, h2);
                                    assert(new.subrange(new.len() - 5, new.len() as int) =~= round);
                                    assert(new.subrange(new.len() - 3, new.len() as int) =~= issued(h1, h2));
                                    assert(new.subrange(0, new.len() - 5) =~= done);
                                    assert(rejected_rounds(new.subrange(0, new.len() - 5), addr, polls as nat));
                                }
                                return Ok(d);
                            }
                            proof {
                                lemma_rounds_extend(done, issued(hb, h2), addr, polls as nat);
                            }
                        },
                        Err(e) => {
                            proof {
                                let new = issued(h0, h2);
                                let round = issued(hb, h2);
                                assert(issued(hb, h1).len() == 2);
                                assert(round.len() > 2);
                                assert(reports_ready(round.subrange(0, 2)));
                                assert(follows(round.subrange(2, round.len() as int), addr, read_distance_plan(), false));
                                assert(failed_round(round, addr));
                                assert(0 <= done.len() < new.len());
                                assert(failed_round(new.subrange(done.len() as int, new.len() as int), addr));
                                assert(rejected_rounds(new.subrange(0, done.len() as int), addr, polls as nat));
                            }
                            return Err(e);
                        },
                    }
                },
                Ok(false) => {
                    proof {
                        assert(reply(hb, h1, 0) == issued(hb, h1)[0].received);
                        assert(reply(hb, h1, 1) == issued(hb, h1)[1].received);
                        assert(issued(h0, h1) =~= done + issued(hb, h1));
                        lemma_rounds_extend(done, issued(hb, h1), addr, polls as nat);
                    }
                },
                Err(e) => {
                    proof {
                        let new = issued(h0, h1);
                        assert(failed_round(new.subrange(done.len() as int, new.len() as int), addr));
                        assert(rejected_rounds(new.subrange(0, done.len() as int), addr, polls as nat));
                    }
                    return Err(e);
                },
            }
            polls = polls + 1;
        }
        Err(Error::Timeout)
    }

    /// Release the I2C bus.
    pub fn release(self) -> (r: I2C)
        ensures
            r == self.bus(),
    {
        self.device.release()
    }
}

/// One more transaction `q` on top of the polls issued since `h0`.
proof fn lemma_one_more(
    h0: Seq<Exchange>,
    hb: Seq<Exchange>,
    h: Seq<Exchange>,
    address: u8,
    q: Request,
    ok: bool,
)
    requires
        h0.is_prefix_of(hb),
        ran(hb, h, address, seq![q], ok),
    ensures
        h0.is_prefix_of(h),
        h.len() == hb.len() + 1,
        issued(h0, h) == issued(h0, hb).push(h.last()),
        carries(h.last(), address, q),
        h.last().ok == ok,
{
    assert(issued(hb, h).len() == 1);
    assert(issued(hb, h)[0] == h.last());
    assert forall|i: int| 0 <= i < hb.len() implies h[i] == hb[i] by {
        assert(h.subrange(0, hb.len() as int)[i] == hb[i]);
    }
    assert forall|i: int| 0 <= i < h0.len() implies h[i] == h0[i] by {
        assert(h[i] == hb[i]);
    }
    assert(h.subrange(0, h0.len() as int) =~= h0);
    assert(issued(h0, h) =~= issued(h0, hb).push(h.last()));
}

} // verus!
