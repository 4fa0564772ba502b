use embedded_hal_mock::eh1::i2c::{Mock as I2cMock, Transaction as I2cTransaction};
use modulino::{ButtonLed, ButtonState, Buttons};

#[test]
fn test_buttons_and_leds() {
    let addr = 0x3E;
    let expectations = [
        I2cTransaction::read(addr, vec![0x7C, 0x00, 0x01, 0x00]),
        I2cTransaction::write(addr, vec![0x00, 0x01, 0x00]),
    ];
    let mut buttons = Buttons::new(I2cMock::new(&expectations)).unwrap();
    assert!(buttons.button_b_pressed());
    buttons.set_leds(false, true, false).unwrap();
    buttons.release().done();
}

#[test]
fn buttons_read_and_led_updates() {
    let addr = 0x3E;
    let expectations = [
        I2cTransaction::read(addr, vec![0x7C, 0x00, 0x00, 0x00]),
        I2cTransaction::read(addr, vec![0x7C, 0x05, 0x00, 0xFF]),
        I2cTransaction::write(addr, vec![0x01, 0x00, 0x01]),
        I2cTransaction::write(addr, vec![0x01, 0x01, 0x01]),
        I2cTransaction::write(addr, vec![0x00, 0x00, 0x00]),
    ];
    let mut buttons = Buttons::new(I2cMock::new(&expectations)).unwrap();
    assert_eq!(buttons.address(), 0x3E);
    assert!(!buttons.state().any_pressed());
    let state = buttons.read().unwrap();
    assert_eq!(state, ButtonState { a: true, b: false, c: true });
    assert!(buttons.button_a_pressed() && !buttons.button_b_pressed() && buttons.button_c_pressed());
    buttons.led_a.on();
    buttons.led_c.set(true);
    buttons.update_leds().unwrap();
    buttons.all_leds_on().unwrap();
    buttons.all_leds_off().unwrap();
    assert!(!buttons.led_b.is_on());
    buttons.release().done();
}

#[test]
fn button_state_any_and_all() {
    let none = ButtonState { a: false, b: false, c: false };
    let one = ButtonState { a: false, b: true, c: false };
    let all = ButtonState { a: true, b: true, c: true };
    assert!(!none.any_pressed() && !none.all_pressed());
    assert!(one.any_pressed() && !one.all_pressed());
    assert!(all.any_pressed() && all.all_pressed());
}

#[test]
fn button_led_state_changes() {
    let mut led = ButtonLed::new();
    assert!(!led.is_on());
    led.toggle();
    assert!(led.is_on());
    led.off();
    assert!(!led.is_on());
    led.on();
    led.toggle();
    assert!(!led.is_on());
}

#[test]
fn defaults_are_released_and_off() {
    let s = ButtonState::default();
    assert!(!s.any_pressed());
    assert!(!ButtonLed::default().is_on());
}
