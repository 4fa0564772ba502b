use embedded_hal::i2c::ErrorKind;
use embedded_hal_mock::eh1::delay::NoopDelay;
use embedded_hal_mock::eh1::i2c::{Mock as I2cMock, Transaction as I2cTransaction};
use modulino::distance::accept_measurement;
use modulino::{Distance, Error};

const ADDR: u8 = 0x29;

fn budget_writes(code: u16) -> Vec<I2cTransaction> {
    let hi = (code >> 8) as u8;
    let lo = code as u8;
    vec![
        I2cTransaction::write(ADDR, vec![0x00, 0x5E, hi, lo]),
        I2cTransaction::write(ADDR, vec![0x00, 0x61, hi, lo]),
    ]
}

#[test]
fn test_distance_logic() {
    let addr = 0x29;
    let expectations = [
        // read_distance(): status, distance, then the interrupt clear
        I2cTransaction::write_read(addr, vec![0x00, 0x89], vec![0x04]),
        I2cTransaction::write_read(addr, vec![0x00, 0x96], vec![0x01, 0xF4]), // 500mm
        I2cTransaction::write(addr, vec![0x00, 0x86, 0x01]),
    ];

    // Construction issues no bus traffic.
    let mut distance = Distance::new(I2cMock::new(&expectations));

    assert_eq!(distance.read_distance().unwrap(), 500);

    distance.release().done();
}

#[test]
fn distance_default_address() {
    let distance = Distance::new(I2cMock::new(&[]));
    assert_eq!(distance.address(), 0x29);
    distance.release().done();
}

#[test]
fn timing_budget_33_writes_both_registers() {
    let mut distance = Distance::new(I2cMock::new(&budget_writes(0x000B)));
    distance.set_timing_budget(33).unwrap();
    distance.release().done();
}

#[test]
fn timing_budget_table() {
    let table: [(u16, u16); 8] = [
        (10, 0x0001),
        (15, 0x0002),
        (20, 0x0005),
        (33, 0x000B),
        (50, 0x0013),
        (100, 0x0029),
        (200, 0x0055),
        (500, 0x00D6),
    ];
    for (ms, code) in table {
        let mut distance = Distance::new(I2cMock::new(&budget_writes(code)));
        distance.set_timing_budget(ms).unwrap();
        distance.release().done();
    }
}

#[test]
fn timing_budget_unsupported_falls_back_to_20ms() {
    for ms in [0u16, 25, 34, 1000, u16::MAX] {
        let mut distance = Distance::new(I2cMock::new(&budget_writes(0x0005)));
        distance.set_timing_budget(ms).unwrap();
        distance.release().done();
    }
}

#[test]
fn inter_measurement_zero_writes_zero() {
    let exp = [I2cTransaction::write(ADDR, vec![0x00, 0x6C, 0, 0, 0, 0])];
    let mut distance = Distance::new(I2cMock::new(&exp));
    distance.set_inter_measurement(0).unwrap();
    distance.release().done();
}

#[test]
fn inter_measurement_ticks_of_period() {
    // 50 ms * 64000 / 1000 = 3200 = 0x0C80
    let exp = [
        I2cTransaction::write(ADDR, vec![0x00, 0x6C, 0x00, 0x00, 0x0C, 0x80]),
        // 1000 ms -> 64000 = 0xFA00
        I2cTransaction::write(ADDR, vec![0x00, 0x6C, 0x00, 0x00, 0xFA, 0x00]),
        // largest period that fits: 0x3FF_FFFF * 64 = 0xFFFF_FFC0
        I2cTransaction::write(ADDR, vec![0x00, 0x6C, 0xFF, 0xFF, 0xFF, 0xC0]),
        // beyond: the register's largest value
        I2cTransaction::write(ADDR, vec![0x00, 0x6C, 0xFF, 0xFF, 0xFF, 0xFF]),
    ];
    let mut distance = Distance::new(I2cMock::new(&exp));
    distance.set_inter_measurement(50).unwrap();
    distance.set_inter_measurement(1000).unwrap();
    distance.set_inter_measurement(0x3FF_FFFF).unwrap();
    distance.set_inter_measurement(u32::MAX).unwrap();
    distance.release().done();
}

#[test]
fn init_applies_default_timing() {
    let mut exp = budget_writes(0x0005);
    exp.push(I2cTransaction::write(ADDR, vec![0x00, 0x6C, 0x00, 0x00, 0x0C, 0x80]));
    let mut distance = Distance::new(I2cMock::new(&exp));
    distance.init().unwrap();
    distance.release().done();
}

#[test]
fn start_and_stop_ranging() {
    let exp = [
        I2cTransaction::write(ADDR, vec![0x00, 0x87, 0x40]),
        I2cTransaction::write(ADDR, vec![0x00, 0x87, 0x00]),
    ];
    let mut distance = Distance::new(I2cMock::new(&exp));
    distance.start_ranging().unwrap();
    distance.stop_ranging().unwrap();
    distance.release().done();
}

#[test]
fn data_ready_when_bits_differ() {
    let exp = [
        // polarity bit 4 = 1, status bit 0 = 0: ready
        I2cTransaction::write_read(ADDR, vec![0x00, 0x30], vec![0x10]),
        I2cTransaction::write_read(ADDR, vec![0x00, 0x31], vec![0x00]),
        // both 1: not ready
        I2cTransaction::write_read(ADDR, vec![0x00, 0x30], vec![0x10]),
        I2cTransaction::write_read(ADDR, vec![0x00, 0x31], vec![0x01]),
        // both 0: not ready
        I2cTransaction::write_read(ADDR, vec![0x00, 0x30], vec![0x00]),
        I2cTransaction::write_read(ADDR, vec![0x00, 0x31], vec![0x00]),
        // polarity 0, status 1, other bits set: ready
        I2cTransaction::write_read(ADDR, vec![0x00, 0x30], vec![0xEF]),
        I2cTransaction::write_read(ADDR, vec![0x00, 0x31], vec![0xFF]),
    ];
    let mut distance = Distance::new(I2cMock::new(&exp));
    assert!(distance.data_ready().unwrap());
    assert!(!distance.data_ready().unwrap());
    assert!(!distance.data_ready().unwrap());
    assert!(distance.data_ready().unwrap());
    distance.release().done();
}

#[test]
fn clear_interrupt_writes_one() {
    let exp = [I2cTransaction::write(ADDR, vec![0x00, 0x86, 0x01])];
    let mut distance = Distance::new(I2cMock::new(&exp));
    distance.clear_interrupt().unwrap();
    distance.release().done();
}

#[test]
fn read_distance_returns_raw_value_whatever_the_status() {
    let exp = [
        I2cTransaction::write_read(ADDR, vec![0x00, 0x89], vec![0x07]),
        I2cTransaction::write_read(ADDR, vec![0x00, 0x96], vec![0x12, 0x34]),
        I2cTransaction::write(ADDR, vec![0x00, 0x86, 0x01]),
    ];
    let mut distance = Distance::new(I2cMock::new(&exp));
    assert_eq!(distance.read_distance().unwrap(), 0x1234);
    distance.release().done();
}

#[test]
fn read_range_status_masks_low_five_bits() {
    let exp = [I2cTransaction::write_read(ADDR, vec![0x00, 0x89], vec![0xE4])];
    let mut distance = Distance::new(I2cMock::new(&exp));
    assert_eq!(distance.read_range_status().unwrap(), 0x04);
    distance.release().done();
}

#[test]
fn read_distance_stops_at_bus_error() {
    let exp = [
        I2cTransaction::write_read(ADDR, vec![0x00, 0x89], vec![0x00]),
        I2cTransaction::write_read(ADDR, vec![0x00, 0x96], vec![0x00, 0x00]).with_error(ErrorKind::Other),
    ];
    let mut distance = Distance::new(I2cMock::new(&exp));
    assert_eq!(distance.read_distance(), Err(Error::I2c(ErrorKind::Other)));
    distance.release().done();
}

#[test]
fn read_distance_blocking_skips_invalid_readings() {
    let exp = [
        // not ready
        I2cTransaction::write_read(ADDR, vec![0x00, 0x30], vec![0x00]),
        I2cTransaction::write_read(ADDR, vec![0x00, 0x31], vec![0x00]),
        // ready, but status 2: skipped
        I2cTransaction::write_read(ADDR, vec![0x00, 0x30], vec![0x00]),
        I2cTransaction::write_read(ADDR, vec![0x00, 0x31], vec![0x01]),
        I2cTransaction::write_read(ADDR, vec![0x00, 0x89], vec![0x02]),
        I2cTransaction::write_read(ADDR, vec![0x00, 0x96], vec![0x00, 0x64]),
        I2cTransaction::write(ADDR, vec![0x00, 0x86, 0x01]),
        // ready, status 0, distance 0: skipped
        I2cTransaction::write_read(ADDR, vec![0x00, 0x30], vec![0x00]),
        I2cTransaction::write_read(ADDR, vec![0x00, 0x31], vec![0x01]),
        I2cTransaction::write_read(ADDR, vec![0x00, 0x89], vec![0x00]),
        I2cTransaction::write_read(ADDR, vec![0x00, 0x96], vec![0x00, 0x00]),
        I2cTransaction::write(ADDR, vec![0x00, 0x86, 0x01]),
        // ready, status 4, 300 mm
        I2cTransaction::write_read(ADDR, vec![0x00, 0x30], vec![0x00]),
        I2cTransaction::write_read(ADDR, vec![0x00, 0x31], vec![0x01]),
        I2cTransaction::write_read(ADDR, vec![0x00, 0x89], vec![0x04]),
        I2cTransaction::write_read(ADDR, vec![0x00, 0x96], vec![0x01, 0x2C]),
        I2cTransaction::write(ADDR, vec![0x00, 0x86, 0x01]),
    ];
    let mut distance = Distance::new(I2cMock::new(&exp));
    assert_eq!(distance.read_distance_blocking().unwrap(), 300);
    distance.release().done();
}

#[test]
fn read_distance_blocking_times_out() {
    let mut exp = Vec::new();
    for _ in 0..1000 {
        exp.push(I2cTransaction::write_read(ADDR, vec![0x00, 0x30], vec![0x00]));
        exp.push(I2cTransaction::write_read(ADDR, vec![0x00, 0x31], vec![0x00]));
    }
    let mut distance = Distance::new(I2cMock::new(&exp));
    assert_eq!(distance.read_distance_blocking(), Err(Error::Timeout));
    distance.release().done();
}

#[test]
fn wait_for_boot_polls_until_booted() {
    let exp = [
        I2cTransaction::write_read(ADDR, vec![0x00, 0xE5], vec![0x00]),
        I2cTransaction::write_read(ADDR, vec![0x00, 0xE5], vec![0x01]),
        I2cTransaction::write_read(ADDR, vec![0x00, 0xE5], vec![0x03]),
    ];
    let mut distance = Distance::new(I2cMock::new(&exp));
    assert!(distance.wait_for_boot(&mut NoopDelay::new()).unwrap());
    distance.release().done();
}

#[test]
fn wait_for_boot_gives_up_without_error() {
    let mut exp = Vec::new();
    for _ in 0..1000 {
        exp.push(I2cTransaction::write_read(ADDR, vec![0x00, 0xE5], vec![0x00]));
    }
    let mut distance = Distance::new(I2cMock::new(&exp));
    assert!(!distance.wait_for_boot(&mut NoopDelay::new()).unwrap());
    distance.release().done();
}

#[test]
fn wait_data_ready_polls_until_ready() {
    let exp = [
        I2cTransaction::write_read(ADDR, vec![0x00, 0x30], vec![0x10]),
        I2cTransaction::write_read(ADDR, vec![0x00, 0x31], vec![0x01]),
        I2cTransaction::write_read(ADDR, vec![0x00, 0x30], vec![0x10]),
        I2cTransaction::write_read(ADDR, vec![0x00, 0x31], vec![0x00]),
    ];
    let mut distance = Distance::new(I2cMock::new(&exp));
    assert!(distance.wait_data_ready(&mut NoopDelay::new()).unwrap());
    distance.release().done();
}

#[test]
fn wait_data_ready_gives_up_without_error() {
    let mut exp = Vec::new();
    for _ in 0..1000 {
        exp.push(I2cTransaction::write_read(ADDR, vec![0x00, 0x30], vec![0x00]));
        exp.push(I2cTransaction::write_read(ADDR, vec![0x00, 0x31], vec![0x00]));
    }
    let mut distance = Distance::new(I2cMock::new(&exp));
    assert!(!distance.wait_data_ready(&mut NoopDelay::new()).unwrap());
    distance.release().done();
}

#[test]
fn measurement_acceptance() {
    assert!(accept_measurement(0, 1));
    assert!(accept_measurement(4, 500));
    assert!(!accept_measurement(4, 0));
    assert!(!accept_measurement(2, 500));
    assert!(!accept_measurement(31, 65535));
}

#[test]
fn read_distance_blocking_passes_bus_error_on() {
    let exp = [
        I2cTransaction::write_read(ADDR, vec![0x00, 0x30], vec![0x00]),
        I2cTransaction::write_read(ADDR, vec![0x00, 0x31], vec![0x01]),
        I2cTransaction::write_read(ADDR, vec![0x00, 0x89], vec![0x00]).with_error(ErrorKind::NoAcknowledge(
            embedded_hal::i2c::NoAcknowledgeSource::Data,
        )),
    ];
    let mut distance = Distance::new(I2cMock::new(&exp));
    assert_eq!(
        distance.read_distance_blocking(),
        Err(Error::I2c(ErrorKind::NoAcknowledge(embedded_hal::i2c::NoAcknowledgeSource::Data)))
    );
    distance.release().done();
}

#[test]
fn init_with_delay_runs_start_up_sequence() {
    let mut exp = vec![
        I2cTransaction::write_read(ADDR, vec![0x00, 0xE5], vec![0x00]),
        I2cTransaction::write_read(ADDR, vec![0x00, 0xE5], vec![0x03]),
        I2cTransaction::write(ADDR, vec![0x00, 0x87, 0x40]),
        I2cTransaction::write_read(ADDR, vec![0x00, 0x30], vec![0x00]),
        I2cTransaction::write_read(ADDR, vec![0x00, 0x31], vec![0x01]),
        I2cTransaction::write(ADDR, vec![0x00, 0x86, 0x01]),
        I2cTransaction::write(ADDR, vec![0x00, 0x87, 0x00]),
    ];
    exp.extend(budget_writes(0x0005));
    exp.push(I2cTransaction::write(ADDR, vec![0x00, 0x6C, 0x00, 0x00, 0x0C, 0x80]));
    let mut distance = Distance::new(I2cMock::new(&exp));
    distance.init_with_delay(&mut NoopDelay::new()).unwrap();
    distance.release().done();
}
