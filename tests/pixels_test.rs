use embedded_hal_mock::eh1::i2c::{Mock as I2cMock, Transaction as I2cTransaction};
use modulino::{Color, Error, Pixels};

fn dark() -> Vec<u8> {
    let mut data = Vec::new();
    for _ in 0..8 {
        data.extend_from_slice(&[0xE0, 0x00, 0x00, 0x00]);
    }
    data
}

#[test]
fn test_pixels_formatting() {
    let addr = 0x36;
    let mut expected_data: Vec<u8> = Vec::new();
    expected_data.extend_from_slice(&[0xEF, 0x00, 0x00, 0xFF]); // Red
    for _ in 1..8 {
        expected_data.extend_from_slice(&[0xE0, 0x00, 0x00, 0x00]);
    }

    let expectations = [I2cTransaction::write(addr, expected_data)];
    let mut pixels = Pixels::new(I2cMock::new(&expectations)).unwrap();
    pixels.set_color(0, Color::new(255, 0, 0), 50).unwrap();
    pixels.show().unwrap();
    pixels.release().done();
}

#[test]
fn pixels_out_of_range_index() {
    let expectations = [I2cTransaction::write(0x36, dark())];
    let mut pixels = Pixels::new(I2cMock::new(&expectations)).unwrap();
    assert!(matches!(pixels.set_color(8, Color::new(1, 2, 3), 100), Err(Error::OutOfRange)));
    assert!(matches!(pixels.set_brightness(8, 100), Err(Error::OutOfRange)));
    assert!(matches!(pixels.clear(9), Err(Error::OutOfRange)));
    assert_eq!(pixels.set_color_show(8, Color::new(1, 2, 3), 100), Err(Error::OutOfRange));
    pixels.show().unwrap();
    pixels.release().done();
}

#[test]
fn pixels_ranges_and_brightness() {
    let mut expected = dark();
    // LEDs 5..=7 green at brightness 100 (level 31), range end cut at 7
    for i in 5..8 {
        expected[i * 4..i * 4 + 4].copy_from_slice(&[0xFF, 0x00, 0xFF, 0x00]);
    }
    // LED 6 cleared again
    expected[24..28].copy_from_slice(&[0xE0, 0x00, 0x00, 0x00]);
    // LED 5 brightness 10 -> level 3; brightness over 100 counts as 100
    expected[20] = 0xE3;
    let mut all_dim = Vec::new();
    for _ in 0..8 {
        all_dim.extend_from_slice(&[0xE0 | 15, 0x30, 0x20, 0x10]);
    }
    let expectations = [
        I2cTransaction::write(0x36, expected),
        I2cTransaction::write(0x36, all_dim),
        I2cTransaction::write(0x36, dark()),
    ];
    let mut pixels = Pixels::new_with_address(I2cMock::new(&expectations), 0x36).unwrap();
    assert_eq!(pixels.address(), 0x36);
    pixels.set_range_color(5, 20, Color::new(0, 255, 0), 200);
    pixels.clear_range(6, 6);
    pixels.set_brightness(5, 10).unwrap();
    pixels.show().unwrap();
    pixels.set_all_rgb(0x10, 0x20, 0x30, 100).set_all_brightness(50);
    pixels.show().unwrap();
    pixels.set_all_color(Color::from_rgb24(0xABCDEF), 7).clear_all();
    pixels.show().unwrap();
    pixels.release().done();
}

#[test]
fn pixels_set_rgb_and_show_at_once() {
    let mut expected = dark();
    expected[4..8].copy_from_slice(&[0xE0 | 6, 0x03, 0x02, 0x01]);
    let expectations = [I2cTransaction::write(0x36, expected)];
    let mut pixels = Pixels::new(I2cMock::new(&expectations)).unwrap();
    pixels.set_rgb(1, 1, 2, 3, 20).unwrap();
    pixels.clear(1).unwrap();
    pixels.set_color_show(1, Color::new(1, 2, 3), 20).unwrap();
    pixels.release().done();
}

#[test]
fn color_conversions() {
    let c = Color::from_rgb24(0x12_3456);
    assert_eq!(c, Color::new(0x12, 0x34, 0x56));
    assert_eq!(Color::from_rgb24(0xFF12_3456), c);
    assert_eq!(c.to_apa102_data(), 0x1234_5600);
    assert_eq!(Color::new(255, 255, 255).to_apa102_data(), 0xFFFF_FF00);
}

#[test]
fn color_from_conversions() {
    let c: Color = (1u8, 2u8, 3u8).into();
    assert_eq!(c, Color::new(1, 2, 3));
    let t: (u8, u8, u8) = c.into();
    assert_eq!(t, (1, 2, 3));
    assert_eq!(Color::from(0x00FF_8001u32), Color::new(0xFF, 0x80, 0x01));
}

#[test]
fn default_color_is_black() {
    assert_eq!(Color::default(), Color::new(0, 0, 0));
}
