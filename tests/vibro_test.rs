use embedded_hal_mock::eh1::i2c::{Mock as I2cMock, Transaction as I2cTransaction};
use modulino::{PowerLevel, Vibro};

#[test]
fn test_vibro_control() {
    let addr = 0x38;

    let expectations = [
        // new() calls off()
        I2cTransaction::write(addr, vec![0u8; 12]),
        // on(500ms, Medium): 1000 Hz, 500 ms, power 45
        I2cTransaction::write(
            addr,
            vec![
                0xE8, 0x03, 0x00, 0x00, 0xF4, 0x01, 0x00, 0x00, 0x2D, 0x00, 0x00, 0x00,
            ],
        ),
        I2cTransaction::write(addr, vec![0u8; 12]),
    ];

    let i2c = I2cMock::new(&expectations);
    let mut vibro = Vibro::new(i2c).unwrap();

    vibro.on(500, PowerLevel::Medium).unwrap();
    vibro.off().unwrap();

    vibro.release().done();
}

#[test]
fn vibro_frequency_and_power() {
    let addr = 0x38;
    let expectations = [
        I2cTransaction::write(addr, vec![0u8; 12]),
        // 70000 Hz = 0x011170, indefinitely, Maximum = 75
        I2cTransaction::write(addr, vec![0x70, 0x11, 0x01, 0x00, 0xFF, 0xFF, 0x00, 0x00, 0x4B, 0x00, 0x00, 0x00]),
        I2cTransaction::write(addr, vec![0x70, 0x11, 0x01, 0x00, 0x64, 0x00, 0x00, 0x00, 0x63, 0x00, 0x00, 0x00]),
        I2cTransaction::write(addr, vec![0x70, 0x11, 0x01, 0x00, 0x0A, 0x00, 0x00, 0x00, 0x19, 0x00, 0x00, 0x00]),
        I2cTransaction::write(addr, vec![0u8; 12]),
    ];
    let mut vibro = Vibro::new(I2cMock::new(&expectations)).unwrap();
    assert_eq!(vibro.address(), 0x38);
    assert_eq!(vibro.frequency(), 1000);
    vibro.set_frequency(70000);
    assert_eq!(vibro.frequency(), 70000);
    vibro.on_continuous(PowerLevel::Maximum).unwrap();
    vibro.on_with_power(100, 99).unwrap();
    vibro.pulse(10, PowerLevel::Gentle).unwrap();
    vibro.stop().unwrap();
    vibro.release().done();
}

#[test]
fn power_level_values() {
    assert_eq!(PowerLevel::Stop.value(), 0);
    assert_eq!(PowerLevel::Moderate.value(), 35);
    assert_eq!(PowerLevel::Intense.value(), 55);
    assert_eq!(PowerLevel::Powerful.value(), 65);
    assert_eq!(PowerLevel::default().value(), 45);
}

#[test]
fn power_level_into_byte() {
    assert_eq!(u8::from(PowerLevel::Gentle), 25);
    let max: u8 = PowerLevel::Maximum.into();
    assert_eq!(max, 75);
}
