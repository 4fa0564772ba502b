//! Modulino Buzzer driver.
//!
//! The Modulino Buzzer module contains a piezo speaker that can play tones
//! at specified frequencies. A tone is set with one eight-byte write: the
//! frequency, then the duration, each as a 32-bit value least significant
//! byte first.
use crate::addresses;
use crate::error::{from_bus, Result};
use crate::i2c_device::{reports, le32, ran, Exchange, I2cDevice, Request};
use embedded_hal::i2c::I2c;
use vstd::prelude::*;

verus! {

/// Duration that keeps a tone playing until it is stopped.
pub const CONTINUOUS: u16 = 0xFFFF;

/// Musical note frequencies in Hz.
///
/// Notes are named with the note letter, optional sharp (S), and octave number.
/// For example, `A4` is 440 Hz (standard tuning), `CS5` is C# in octave 5.
#[derive(Debug, Clone, Copy, PartialEq, Eq)]
#[allow(missing_docs)]
pub enum Note {
    // Octave 3
    FS3,
    G3,
    GS3,
    A3,
    AS3,
    B3,

    // Octave 4
    C4,
    CS4,
    D4,
    DS4,
    E4,
    F4,
    FS4,
    G4,
    GS4,
    A4,
    AS4,
    B4,

    // Octave 5
    C5,
    CS5,
    D5,
    DS5,
    E5,
    F5,
    FS5,
    G5,
    GS5,
    A5,
    AS5,
    B5,

    // Octave 6
    C6,
    CS6,
    D6,
    DS6,
    E6,
    F6,
    FS6,
    G6,
    GS6,
    A6,
    AS6,
    B6,

    // Octave 7
    C7,
    CS7,
    D7,
    DS7,
    E7,
    F7,
    FS7,
    G7,
    GS7,
    A7,
    AS7,
    B7,

    // Octave 8
    C8,
    CS8,
    D8,
    DS8,

    /// Silence (rest)
    Rest,
}

/// The frequency of a note in Hz; 0 for a rest.
pub open spec fn note_hz(note: Note) -> u16 {
    match note {
        Note::FS3 => 185,
        Note::G3 => 196,
        Note::GS3 => 208,
        Note::A3 => 220,
        Note::AS3 => 233,
        Note::B3 => 247,
        Note::C4 => 262,
        Note::CS4 => 277,
        Note::D4 => 294,
        Note::DS4 => 311,
        Note::E4 => 330,
        Note::F4 => 349,
        Note::FS4 => 370,
        Note::G4 => 392,
        Note::GS4 => 415,
        Note::A4 => 440,
        Note::AS4 => 466,
        Note::B4 => 494,
        Note::C5 => 523,
        Note::CS5 => 554,
        Note::D5 => 587,
        Note::DS5 => 622,
        Note::E5 => 659,
        Note::F5 => 698,
        Note::FS5 => 740,
        Note::G5 => 784,
        Note::GS5 => 831,
        Note::A5 => 880,
        Note::AS5 => 932,
        Note::B5 => 988,
        Note::C6 => 1047,
        Note::CS6 => 1109,
        Note::D6 => 1175,
        Note::DS6 => 1245,
        Note::E6 => 1319,
        Note::F6 => 1397,
        Note::FS6 => 1480,
        Note::G6 => 1568,
        Note::GS6 => 1661,
        Note::A6 => 1760,
        Note::AS6 => 1865,
        Note::B6 => 1976,
        Note::C7 => 2093,
        Note::CS7 => 2217,
        Note::D7 => 2349,
        Note::DS7 => 2489,
        Note::E7 => 2637,
        Note::F7 => 2794,
        Note::FS7 => 2960,
        Note::G7 => 3136,
        Note::GS7 => 3322,
        Note::A7 => 3520,
        Note::AS7 => 3729,
        Note::B7 => 3951,
        Note::C8 => 4186,
        Note::CS8 => 4435,
        Note::D8 => 4699,
        Note::DS8 => 4978,
        Note::Rest => 0,
    }
}

/// The payload that plays `frequency` Hz for `duration_ms` milliseconds.
pub open spec fn tone_payload(frequency: u16, duration_ms: u16) -> Seq<u8> {
    le32(frequency as u32) + le32(duration_ms as u32)
}

impl Note {
    /// Get the frequency in Hz.
    pub fn frequency(&self) -> (r: u16)
        ensures
            r == note_hz(*self),
    {
        match self {
            Note::FS3 => 185,
            Note::G3 => 196,
            Note::GS3 => 208,
            Note::A3 => 220,
            Note::AS3 => 233,
            Note::B3 => 247,
            Note::C4 => 262,
            Note::CS4 => 277,
            Note::D4 => 294,
            Note::DS4 => 311,
            Note::E4 => 330,
            Note::F4 => 349,
            Note::FS4 => 370,
            Note::G4 => 392,
            Note::GS4 => 415,
            Note::A4 => 440,
            Note::AS4 => 466,
            Note::B4 => 494,
            Note::C5 => 523,
            Note::CS5 => 554,
            Note::D5 => 587,
            Note::DS5 => 622,
            Note::E5 => 659,
            Note::F5 => 698,
            Note::FS5 => 740,
            Note::G5 => 784,
            Note::GS5 => 831,
            Note::A5 => 880,
            Note::AS5 => 932,
            Note::B5 => 988,
            Note::C6 => 1047,
            Note::CS6 => 1109,
            Note::D6 => 1175,
            Note::DS6 => 1245,
            Note::E6 => 1319,
            Note::F6 => 1397,
            Note::FS6 => 1480,
            Note::G6 => 1568,
            Note::GS6 => 1661,
            Note::A6 => 1760,
            Note::AS6 => 1865,
            Note::B6 => 1976,
            Note::C7 => 2093,
            Note::CS7 => 2217,
            Note::D7 => 2349,
            Note::DS7 => 2489,
            Note::E7 => 2637,
            Note::F7 => 2794,
            Note::FS7 => 2960,
            Note::G7 => 3136,
            Note::GS7 => 3322,
            Note::A7 => 3520,
            Note::AS7 => 3729,
            Note::B7 => 3951,
            Note::C8 => 4186,
            Note::CS8 => 4435,
            Note::D8 => 4699,
            Note::DS8 => 4978,
            Note::Rest => 0,
        }
    }
}

impl From<Note> for u16 {
    fn from(note: Note) -> (r: u16) {
        note.frequency()
    }
}

impl vstd::std_specs::convert::FromSpecImpl<Note> for u16 {
    open spec fn obeys_from_spec() -> bool {
        true
    }

    open spec fn from_spec(note: Note) -> u16 {
        note_hz(note)
    }
}

/// Driver for the Modulino Buzzer module.
pub struct Buzzer<I2C> {
    device: I2cDevice<I2C>,
}

impl<I2C: I2c> Buzzer<I2C> {
    /// Minimum supported frequency in Hz.
    pub const MIN_FREQUENCY: u16 = 180;

    /// The transactions issued by this driver, oldest first.
    pub closed spec fn history(&self) -> Seq<Exchange> {
        self.device.history@
    }

    /// The bus address of the module.
    pub closed spec fn bus_address(&self) -> u8 {
        self.device.address
    }

    /// The bus handed over at construction.
    pub closed spec fn bus(&self) -> I2C {
        self.device.i2c
    }

    /// Create a new Buzzer instance with the default address.
    pub fn new(i2c: I2C) -> (r: Result<Self>)
        ensures
            r matches Ok(b) ==> {
                &&& b.bus_address() == addresses::BUZZER
                &&& ran(Seq::empty(), b.history(), b.bus_address(), seq![Request::Write(tone_payload(0, 0))], true)
            },
            from_bus(r),
    {
        Self::new_with_address(i2c, addresses::BUZZER)
    }

    /// Create a new Buzzer instance with a custom address, silenced.
    pub fn new_with_address(i2c: I2C, address: u8) -> (r: Result<Self>)
        ensures
            r matches Ok(b) ==> {
                &&& b.bus_address() == address
                &&& ran(Seq::empty(), b.history(), address, seq![Request::Write(tone_payload(0, 0))], true)
            },
            from_bus(r),
    {
        let mut buzzer = Buzzer { device: I2cDevice::new(i2c, address) };
        match buzzer.no_tone() {
            Ok(()) => Ok(buzzer),
            Err(e) => Err(e),
        }
    }

    /// Get the I2C address.
    pub fn address(&self) -> (r: u8)
        ensures
            r == self.bus_address(),
    {
        self.device.address
    }

    /// Play a tone at `frequency` Hz (minimum 180 Hz, or 0 for silence) for
    /// `duration_ms` milliseconds (0xFFFF for indefinite).
    pub fn tone(&mut self, frequency: u16, duration_ms: u16) -> (r: Result<()>)
        ensures
            final(self).bus_address() == old(self).bus_address(),
            ran(
                old(self).history(),
                final(self).history(),
                old(self).bus_address(),
                seq![Request::Write(tone_payload(frequency, duration_ms))],
                r is Ok,
            ),
            from_bus(r),
            reports(r, final(self).history()),
    {
        let data = [
            (frequency % 256) as u8,
            (frequency / 256) as u8,
            0,
            0,
            (duration_ms % 256) as u8,
            (duration_ms / 256) as u8,
            0,
            0,
        ];
        assert(data@ =~= tone_payload(frequency, duration_ms));
        self.device.write(&data)
    }

    /// Play a tone indefinitely until stopped.
    pub fn tone_continuous(&mut self, frequency: u16) -> (r: Result<()>)
        ensures
            final(self).bus_address() == old(self).bus_address(),
            ran(
                old(self).history(),
                final(self).history(),
                old(self).bus_address(),
                seq![Request::Write(tone_payload(frequency, CONTINUOUS))],
                r is Ok,
            ),
            from_bus(r),
            reports(r, final(self).history()),
    {
        self.tone(frequency, CONTINUOUS)
    }

    /// Play a musical note for `duration_ms` milliseconds.
    pub fn play_note(&mut self, note: Note, duration_ms: u16) -> (r: Result<()>)
        ensures
            final(self).bus_address() == old(self).bus_address(),
            ran(
                old(self).history(),
                final(self).history(),
                old(self).bus_address(),
                seq![Request::Write(tone_payload(note_hz(note), duration_ms))],
                r is Ok,
            ),
            from_bus(r),
            reports(r, final(self).history()),
    {
        self.tone(note.frequency(), duration_ms)
    }

    /// Stop playing any tone: eight zero bytes.
    pub fn no_tone(&mut self) -> (r: Result<()>)
        ensures
            final(self).bus_address() == old(self).bus_address(),
            ran(
                old(self).history(),
                final(self).history(),
                old(self).bus_address(),
                seq![Request::Write(tone_payload(0, 0))],
                r is Ok,
            ),
            from_bus(r),
            reports(r, final(self).history()),
    {
        let data = [0u8; 8];
        assert(data@ =~= tone_payload(0, 0));
        self.device.write(&data)
    }

    /// Alias for `no_tone()`.
    pub fn stop(&mut self) -> (r: Result<()>)
        ensures
            final(self).bus_address() == old(self).bus_address(),
            ran(
                old(self).history(),
                final(self).history(),
                old(self).bus_address(),
                seq![Request::Write(tone_payload(0, 0))],
                r is Ok,
            ),
            from_bus(r),
            reports(r, final(self).history()),
    {
        self.no_tone()
    }

    /// Release the I2C bus.
    pub fn release(self) -> (r: I2C)
        ensures
            r == self.bus(),
    {
        self.device.release()
    }
}

} // verus!
