use embedded_hal_mock::eh1::i2c::{Mock as I2cMock, Transaction as I2cTransaction};
use modulino::Joystick;

#[test]
fn test_joystick_update_and_read() {
    let addr = 0x2C;

    let expectations = [
        // Joystick::new() calls update(): centered, button released
        I2cTransaction::read(addr, vec![0x58, 128, 128, 0]),
        // update(): max right, max down, button pressed
        I2cTransaction::read(addr, vec![0x58, 255, 0, 1]),
    ];

    let i2c = I2cMock::new(&expectations);
    let mut joystick = Joystick::new(i2c).unwrap();

    assert_eq!(joystick.x(), 0);
    assert_eq!(joystick.y(), 0);
    assert!(!joystick.button_pressed());

    assert!(joystick.update().unwrap());

    // 255 -> 127 (max positive), 0 -> -128 (max negative)
    assert_eq!(joystick.x(), 127);
    assert_eq!(joystick.y(), -128);
    assert!(joystick.button_pressed());

    joystick.release().done();
}

#[test]
fn test_joystick_deadzone() {
    let addr = 0x2C;

    let expectations = [
        I2cTransaction::read(addr, vec![0x58, 128, 128, 0]),
        // 135 - 128 = 7 and 120 - 128 = -8, both within the default deadzone 10
        I2cTransaction::read(addr, vec![0x58, 135, 120, 0]),
    ];

    let i2c = I2cMock::new(&expectations);
    let mut joystick = Joystick::new(i2c).unwrap();

    joystick.update().unwrap();

    assert_eq!(joystick.x(), 0);
    assert_eq!(joystick.y(), 0);

    joystick.release().done();
}

#[test]
fn joystick_deadzone_edge_and_change_report() {
    let addr = 0x2C;
    let expectations = [
        I2cTransaction::read(addr, vec![0x58, 128, 128, 0]),
        // exactly the deadzone away from center: reported
        I2cTransaction::read(addr, vec![0x58, 138, 118, 0]),
        // same reading again: no change
        I2cTransaction::read(addr, vec![0x58, 138, 118, 0]),
        // with a zero deadzone even one step counts
        I2cTransaction::read(addr, vec![0x58, 129, 128, 0]),
    ];
    let mut joystick = Joystick::new(I2cMock::new(&expectations)).unwrap();
    assert_eq!(joystick.address(), 0x2C);
    assert_eq!(joystick.deadzone(), 10);
    assert!(joystick.is_centered());
    assert!(joystick.update().unwrap());
    assert_eq!(joystick.position(), (10, -10));
    assert!(!joystick.is_centered());
    assert!(!joystick.update().unwrap());
    joystick.set_deadzone(0);
    assert!(joystick.update().unwrap());
    assert_eq!(joystick.position(), (1, 0));
    joystick.release().done();
}
