use embedded_hal::i2c::ErrorKind;
use embedded_hal_mock::eh1::i2c::{Mock as I2cMock, Transaction as I2cTransaction};
use modulino::{Error, I2cDevice};

#[test]
fn register_round_trip_through_mock() {
    let addr = 0x29;
    let expectations = [
        I2cTransaction::write(addr, vec![0x00, 0x5E, 0xBE, 0xEF]),
        I2cTransaction::write_read(addr, vec![0x00, 0x5E], vec![0xBE, 0xEF]),
    ];
    let mut dev = I2cDevice::new(I2cMock::new(&expectations), addr);
    dev.write_reg16_u16(0x005E, 0xBEEF).unwrap();
    assert_eq!(dev.read_reg16_u16(0x005E).unwrap(), 0xBEEF);
    dev.release().done();
}

#[test]
fn register_payload_shapes() {
    let addr = 0x44;
    let expectations = [
        I2cTransaction::write(addr, vec![0x10, 0x7F]),
        I2cTransaction::write_read(addr, vec![0x0F], vec![0x6C]),
        I2cTransaction::write_read(addr, vec![0x28], vec![1, 2, 3]),
        I2cTransaction::write(addr, vec![0x12, 0x34, 0x56]),
        I2cTransaction::write(addr, vec![0x12, 0x34, 0x01, 0x02, 0x03, 0x04]),
        I2cTransaction::write_read(addr, vec![0x00, 0xE5], vec![0x03]),
        I2cTransaction::read(addr, vec![9, 8]),
        I2cTransaction::write(addr, vec![7]),
    ];
    let mut dev = I2cDevice::new(I2cMock::new(&expectations), addr);
    dev.write_reg(0x10, 0x7F).unwrap();
    assert_eq!(dev.read_reg(0x0F).unwrap(), 0x6C);
    let mut buf = [0u8; 3];
    dev.read_regs(0x28, &mut buf).unwrap();
    assert_eq!(buf, [1, 2, 3]);
    dev.write_reg16_u8(0x1234, 0x56).unwrap();
    dev.write_reg16_u32(0x1234, 0x0102_0304).unwrap();
    assert_eq!(dev.read_reg16_u8(0x00E5).unwrap(), 0x03);
    let mut two = [0u8; 2];
    dev.read(&mut two).unwrap();
    assert_eq!(two, [9, 8]);
    dev.write(&[7]).unwrap();
    dev.release().done();
}

#[test]
fn bus_errors_are_reported_with_their_kind() {
    let addr = 0x10;
    let expectations = [
        I2cTransaction::write(addr, vec![0x01, 0x02]).with_error(ErrorKind::ArbitrationLoss),
        I2cTransaction::write_read(addr, vec![0x03], vec![0x00]).with_error(ErrorKind::Overrun),
    ];
    let mut dev = I2cDevice::new(I2cMock::new(&expectations), addr);
    assert_eq!(dev.write_reg(0x01, 0x02), Err(Error::I2c(ErrorKind::ArbitrationLoss)));
    assert_eq!(dev.read_reg(0x03), Err(Error::I2c(ErrorKind::Overrun)));
    dev.release().done();
}
