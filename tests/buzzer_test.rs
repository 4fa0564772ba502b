use embedded_hal_mock::eh1::i2c::{Mock as I2cMock, Transaction as I2cTransaction};
use modulino::{Buzzer, Note};

#[test]
fn test_buzzer_tone_generation() {
    let addr = 0x1E;
    let expectations = [
        I2cTransaction::write(addr, vec![0x00; 8]),
        I2cTransaction::write(addr, vec![0xB8, 0x01, 0x00, 0x00, 0xF4, 0x01, 0x00, 0x00]),
    ];
    let mut buzzer = Buzzer::new(I2cMock::new(&expectations)).unwrap();
    buzzer.tone(440, 500).unwrap();
    buzzer.release().done();
}

#[test]
fn buzzer_notes_and_continuous_tone() {
    let addr = 0x1E;
    let expectations = [
        I2cTransaction::write(addr, vec![0x00; 8]),
        // C5 = 523 Hz = 0x020B for 1000 ms = 0x03E8
        I2cTransaction::write(addr, vec![0x0B, 0x02, 0x00, 0x00, 0xE8, 0x03, 0x00, 0x00]),
        I2cTransaction::write(addr, vec![0xE8, 0x03, 0x00, 0x00, 0xFF, 0xFF, 0x00, 0x00]),
        I2cTransaction::write(addr, vec![0x00; 8]),
    ];
    let mut buzzer = Buzzer::new(I2cMock::new(&expectations)).unwrap();
    assert_eq!(buzzer.address(), 0x1E);
    buzzer.play_note(Note::C5, 1000).unwrap();
    buzzer.tone_continuous(1000).unwrap();
    buzzer.stop().unwrap();
    buzzer.release().done();
}

#[test]
fn note_frequencies() {
    assert_eq!(Note::A4.frequency(), 440);
    assert_eq!(Note::FS3.frequency(), 185);
    assert_eq!(Note::DS8.frequency(), 4978);
    assert_eq!(Note::Rest.frequency(), 0);
}

#[test]
fn note_into_frequency() {
    assert_eq!(u16::from(Note::G6), 1568);
    let hz: u16 = Note::CS4.into();
    assert_eq!(hz, 277);
}
