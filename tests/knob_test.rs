use embedded_hal_mock::eh1::i2c::{Mock as I2cMock, Transaction as I2cTransaction};
use modulino::{Error, Knob};

#[test]
fn test_knob_functionality() {
    let addr = 0x3A;
    let expectations = [
        I2cTransaction::read(addr, vec![0x76, 0x64, 0x00, 0x00]), // Initial read in new()
        I2cTransaction::read(addr, vec![0x76, 0x69, 0x00, 0x01]), // update()
    ];
    let mut knob = Knob::new(I2cMock::new(&expectations)).unwrap();
    assert_eq!(knob.value(), 100);
    assert!(knob.update().unwrap());
    assert!(knob.pressed());
    knob.release().done();
}

#[test]
fn knob_negative_values_and_set_value() {
    let addr = 0x3A;
    let expectations = [
        // -2 = 0xFFFE
        I2cTransaction::read(addr, vec![0x76, 0xFE, 0xFF, 0x00]),
        I2cTransaction::write(addr, vec![0x9C, 0xFF, 0x00, 0x00]), // -100
        I2cTransaction::write(addr, vec![0x00, 0x00, 0x00, 0x00]), // reset
    ];
    let mut knob = Knob::new(I2cMock::new(&expectations)).unwrap();
    assert_eq!(knob.address(), 0x3A);
    assert_eq!(knob.value(), -2);
    knob.set_value(-100).unwrap();
    assert_eq!(knob.value(), -100);
    knob.reset().unwrap();
    assert_eq!(knob.value(), 0);
    knob.release().done();
}

#[test]
fn knob_range_clamps_and_rejects() {
    let addr = 0x3A;
    let expectations = [
        I2cTransaction::read(addr, vec![0x76, 0x32, 0x00, 0x00]), // 50
        // device reports 200, above the range: clamped and written back
        I2cTransaction::read(addr, vec![0x76, 0xC8, 0x00, 0x00]),
        I2cTransaction::write(addr, vec![0x0A, 0x00, 0x00, 0x00]),
        // within range: no write
        I2cTransaction::read(addr, vec![0x76, 0x05, 0x00, 0x00]),
    ];
    let mut knob = Knob::new(I2cMock::new(&expectations)).unwrap();
    knob.set_range(-10, 10);
    assert_eq!(knob.range(), Some((-10, 10)));
    assert_eq!(knob.value(), 10);
    assert_eq!(knob.set_value(11), Err(Error::OutOfRange));
    assert_eq!(knob.value(), 10);
    assert!(knob.update().unwrap() == false);
    assert_eq!(knob.value(), 10);
    assert!(knob.update().unwrap());
    assert_eq!(knob.value(), 5);
    knob.clear_range();
    assert_eq!(knob.range(), None);
    knob.release().done();
}

#[test]
fn knob_rotation_delta_wraps() {
    let addr = 0x3A;
    let expectations = [
        I2cTransaction::read(addr, vec![0x76, 0x0A, 0x00, 0x00]), // 10
        I2cTransaction::read(addr, vec![0x76, 0xFE, 0x7F, 0x00]), // 32766
    ];
    let mut knob = Knob::new(I2cMock::new(&expectations)).unwrap();
    assert_eq!(knob.rotation_delta(7), 3);
    assert_eq!(knob.rotation_delta(13), -3);
    // 10 - (-32766) wraps to -32760, beyond a quarter of the range
    assert_eq!(knob.rotation_delta(-32766), 8);
    knob.update().unwrap();
    // 32766 - (-32766) wraps to -4
    assert_eq!(knob.rotation_delta(-32766), -4);
    // 32766 - 0 is beyond a quarter of the range
    assert_eq!(knob.rotation_delta(0), -2);
    knob.release().done();
}
