use embedded_hal::i2c::ErrorKind;
use embedded_hal_mock::eh1::i2c::{Mock as I2cMock, Transaction as I2cTransaction};
use modulino::{Error, Movement};

#[test]
fn test_movement_imu() {
    let addr = 0x6A;
    let expectations = [
        I2cTransaction::write_read(addr, vec![0x0F], vec![0x6C]),
        I2cTransaction::write(addr, vec![0x12, 0x01]),
        I2cTransaction::write(addr, vec![0x10, 0x40]),
        I2cTransaction::write(addr, vec![0x11, 0x40]),
        I2cTransaction::write(addr, vec![0x12, 0x44]),
        I2cTransaction::write_read(addr, vec![0x28], vec![0x00, 0x00, 0x00, 0x00, 0x09, 0x40]),
    ];
    let mut movement = Movement::new(I2cMock::new(&expectations)).unwrap();
    let (x, y, z) = movement.raw_acceleration().unwrap();
    assert_eq!((x, y, z), (0, 0, 0x4009));
    // 0.061 mg per unit
    let z_g = z as f32 * 0.061 / 1000.0;
    assert!((z_g - 1.0).abs() < 0.01);
    movement.release().done();
}

#[test]
fn movement_gyro_and_data_ready() {
    let addr = 0x6B;
    let expectations = [
        I2cTransaction::write_read(addr, vec![0x0F], vec![0x6C]),
        I2cTransaction::write(addr, vec![0x12, 0x01]),
        I2cTransaction::write(addr, vec![0x10, 0x40]),
        I2cTransaction::write(addr, vec![0x11, 0x40]),
        I2cTransaction::write(addr, vec![0x12, 0x44]),
        I2cTransaction::write_read(addr, vec![0x22], vec![0xFF, 0xFF, 0x00, 0x80, 0xFF, 0x7F]),
        I2cTransaction::write_read(addr, vec![0x1E], vec![0x04]),
        I2cTransaction::write_read(addr, vec![0x1E], vec![0x02]),
    ];
    let mut movement = Movement::new_with_address(I2cMock::new(&expectations), 0x6B).unwrap();
    assert_eq!(movement.address(), 0x6B);
    assert_eq!(movement.raw_angular_velocity().unwrap(), (-1, i16::MIN, i16::MAX));
    assert!(!movement.data_ready().unwrap());
    assert!(movement.data_ready().unwrap());
    movement.release().done();
}

#[test]
fn movement_wrong_identity_is_not_found() {
    let addr = 0x6A;
    let expectations = [I2cTransaction::write_read(addr, vec![0x0F], vec![0x6A])];
    let mut mock = I2cMock::new(&expectations);
    let result = Movement::new(mock.clone());
    assert!(matches!(result, Err(Error::DeviceNotFound)));
    mock.done();
}

#[test]
fn identity_check_values() {
    assert_eq!(modulino::movement::check_who_am_i(0x6C), Ok(()));
    assert_eq!(modulino::movement::check_who_am_i(0x6A), Err(Error::DeviceNotFound));
    assert_eq!(modulino::movement::check_who_am_i(0x00), Err(Error::DeviceNotFound));
}

#[test]
fn movement_bus_error_kind_is_passed_on() {
    let expectations = [I2cTransaction::write_read(0x6A, vec![0x0F], vec![0x6C]).with_error(ErrorKind::Bus)];
    let mut mock = I2cMock::new(&expectations);
    let result = Movement::new(mock.clone());
    assert!(matches!(result, Err(Error::I2c(ErrorKind::Bus))));
    mock.done();
}
