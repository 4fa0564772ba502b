//! Modulino Pixels driver.
//!
//! The Modulino Pixels module has 8 RGB LEDs (APA102-compatible). The driver
//! keeps a 32-byte frame buffer, four bytes per LED (brightness, blue, green,
//! red), and sends it whole with `show`.
use crate::addresses;
use crate::color::Color;
use crate::error::{from_bus, Error, Result};
use crate::i2c_device::{reports, ran, Exchange, I2cDevice, Request};
use embedded_hal::i2c::I2c;
use vstd::prelude::*;

verus! {

/// Number of LEDs on the Modulino Pixels.
pub const NUM_LEDS: usize = 8;

/// Length of the frame buffer: four bytes per LED.
pub const BUFFER_LEN: usize = 32;

/// Brightness on the 0-100 scale mapped to the 5-bit APA102 scale; values
/// above 100 count as 100.
pub open spec fn brightness_level(brightness: u8) -> u8 {
    let clamped: int = if brightness > 100 { 100 } else { brightness as int };
    (clamped * 31 / 100) as u8
}

/// The first byte of an LED's frame: the three marker bits and the level.
pub open spec fn brightness_byte(brightness: u8) -> u8 {
    (0xE0 + brightness_level(brightness)) as u8
}

/// The four bytes of one LED: brightness, blue, green, red.
pub open spec fn led_frame(color: Color, brightness: u8) -> Seq<u8> {
    seq![brightness_byte(brightness), color.b, color.g, color.r]
}

/// `buf` with the frames of LEDs `lo..hi` replaced by `frame`.
pub open spec fn paint(buf: Seq<u8>, lo: int, hi: int, frame: Seq<u8>) -> Seq<u8> {
    Seq::new(buf.len(), |k: int| if lo <= k / 4 < hi { frame[k % 4] } else { buf[k] })
}

/// `buf` with the brightness bytes of LEDs `lo..hi` replaced by `byte`.
pub open spec fn dim(buf: Seq<u8>, lo: int, hi: int, byte: u8) -> Seq<u8> {
    Seq::new(buf.len(), |k: int| if lo <= k / 4 < hi && k % 4 == 0 { byte } else { buf[k] })
}

/// The buffer with every LED off.
pub open spec fn dark_buffer() -> Seq<u8> {
    Seq::new(BUFFER_LEN as nat, |k: int| if k % 4 == 0 { 0xE0u8 } else { 0u8 })
}

/// Last LED index of a range that ends at `to`, cut at the last LED.
pub open spec fn range_end(to: usize) -> int {
    if to >= NUM_LEDS { NUM_LEDS - 1 } else { to as int }
}

/// Driver for the Modulino Pixels module.
pub struct Pixels<I2C> {
    device: I2cDevice<I2C>,
    data: [u8; BUFFER_LEN],
}

impl<I2C: I2c> Pixels<I2C> {
    /// The transactions issued by this driver, oldest first.
    pub closed spec fn history(&self) -> Seq<Exchange> {
        self.device.history@
    }

    /// The bus address of the module.
    pub closed spec fn bus_address(&self) -> u8 {
        self.device.address
    }

    /// The bus handed over at construction.
    pub closed spec fn bus(&self) -> I2C {
        self.device.i2c
    }

    /// The frame buffer that `show` sends.
    pub closed spec fn buffer(&self) -> Seq<u8> {
        self.data@
    }

    /// The buffer always holds one frame per LED.
    pub proof fn lemma_buffer_len(&self)
        ensures
            self.buffer().len() == BUFFER_LEN,
    {
    }

    /// Create a new Pixels instance with the default address.
    pub fn new(i2c: I2C) -> (r: Result<Self>)
        ensures
            r matches Ok(p) ==> {
                &&& p.bus_address() == addresses::PIXELS
                &&& p.history() == Seq::<Exchange>::empty()
                &&& p.buffer() == dark_buffer()
                &&& p.bus() == i2c
            },
            r is Ok,
    {
        Self::new_with_address(i2c, addresses::PIXELS)
    }

    /// Create a new Pixels instance with a custom address, all LEDs off in
    /// the buffer. Nothing is sent until `show`.
    pub fn new_with_address(i2c: I2C, address: u8) -> (r: Result<Self>)
        ensures
            r matches Ok(p) ==> {
                &&& p.bus_address() == address
                &&& p.history() == Seq::<Exchange>::empty()
                &&& p.buffer() == dark_buffer()
                &&& p.bus() == i2c
            },
            r is Ok,
    {
        let mut pixels = Pixels { device: I2cDevice::new(i2c, address), data: [0xE0u8; BUFFER_LEN] };
        pixels.clear_all();
        Ok(pixels)
    }

    /// Get the I2C address.
    pub fn address(&self) -> (r: u8)
        ensures
            r == self.bus_address(),
    {
        self.device.address
    }

    /// Map brightness from 0-100 to 0-31 (5-bit brightness for APA102).
    fn map_brightness(brightness: u8) -> (r: u8)
        ensures
            r == brightness_level(brightness),
            r <= 31,
    {
        let clamped = if brightness > 100 { 100 } else { brightness };
        ((clamped as u16 * 31) / 100) as u8
    }

    /// Put the frame of one LED into the buffer.
    fn write_frame(&mut self, index: usize, color: Color, brightness: u8)
        requires
            index < NUM_LEDS,
        ensures
            final(self).buffer() == paint(old(self).buffer(), index as int, index + 1, led_frame(color, brightness)),
            final(self).history() == old(self).history(),
            final(self).bus_address() == old(self).bus_address(),
            final(self).bus() == old(self).bus(),
    {
        let byte_index = index * 4;
        let mapped = Self::map_brightness(brightness);
        self.data[byte_index] = 0xE0 + mapped;
        self.data[byte_index + 1] = color.b;
        self.data[byte_index + 2] = color.g;
        self.data[byte_index + 3] = color.r;
        assert(self.data@ =~= paint(old(self).data@, index as int, index + 1, led_frame(color, brightness)));
    }

    /// Put the brightness byte of one LED into the buffer.
    fn write_brightness(&mut self, index: usize, brightness: u8)
        requires
            index < NUM_LEDS,
        ensures
            final(self).buffer() == dim(old(self).buffer(), index as int, index + 1, brightness_byte(brightness)),
            final(self).history() == old(self).history(),
            final(self).bus_address() == old(self).bus_address(),
            final(self).bus() == old(self).bus(),
    {
        let mapped = Self::map_brightness(brightness);
        self.data[index * 4] = mapped | 0xE0;
        assert(mapped | 0xE0 == 0xE0 + mapped) by (bit_vector)
            requires
                mapped <= 31,
        ;
        assert(self.data@ =~= dim(old(self).data@, index as int, index + 1, brightness_byte(brightness)));
    }

    /// Set the color of a specific LED (0-7) with a brightness (0-100).
    pub fn set_color(&mut self, index: usize, color: Color, brightness: u8) -> (r: Result<&mut Self>)
        ensures
            index >= NUM_LEDS ==> r == Err::<&mut Self, Error>(Error::OutOfRange) && *final(self) == *old(self),
            index < NUM_LEDS ==> r is Ok,
            r matches Ok(p) ==> {
                &&& p.buffer() == paint(old(self).buffer(), index as int, index + 1, led_frame(color, brightness))
                &&& p.history() == old(self).history()
                &&& p.bus_address() == old(self).bus_address()
                &&& p.bus() == old(self).bus()
                &&& *final(self) == *final(p)
            },
    {
        if index >= NUM_LEDS {
            return Err(Error::OutOfRange);
        }
        self.write_frame(index, color, brightness);
        Ok(self)
    }
    /// Set the color of a specific LED using RGB values.
    pub fn set_rgb(&mut self, index: usize, r: u8, g: u8, b: u8, brightness: u8) -> (res: Result<&mut Self>)
        ensures
            index >= NUM_LEDS ==> res == Err::<&mut Self, Error>(Error::OutOfRange) && *final(self) == *old(self),
            index < NUM_LEDS ==> res is Ok,
            res matches Ok(p) ==> {
                &&& p.buffer() == paint(old(self).buffer(), index as int, index + 1, led_frame(Color { r, g, b }, brightness))
                &&& p.history() == old(self).history()
                &&& p.bus_address() == old(self).bus_address()
                &&& p.bus() == old(self).bus()
                &&& *final(self) == *final(p)
            },
    {
        self.set_color(index, Color::new(r, g, b), brightness)
    }

    /// Set the brightness (0-100) of a specific LED without changing its color.
    pub fn set_brightness(&mut self, index: usize, brightness: u8) -> (r: Result<&mut Self>)
        ensures
            index >= NUM_LEDS ==> r == Err::<&mut Self, Error>(Error::OutOfRange) && *final(self) == *old(self),
            index < NUM_LEDS ==> r is Ok,
            r matches Ok(p) ==> {
                &&& p.buffer() == dim(old(self).buffer(), index as int, index + 1, brightness_byte(brightness))
                &&& p.history() == old(self).history()
                &&& p.bus_address() == old(self).bus_address()
                &&& p.bus() == old(self).bus()
                &&& *final(self) == *final(p)
            },
    {
        if index >= NUM_LEDS {
            return Err(Error::OutOfRange);
        }
        self.write_brightness(index, brightness);
        Ok(self)
    }

    /// Paint the LEDs `from..=end` with one frame, where `end` is already cut
    /// at the last LED.
    fn paint_range(&mut self, from: usize, end: usize, color: Color, brightness: u8)
        requires
            end < NUM_LEDS,
        ensures
            final(self).buffer() == paint(old(self).buffer(), from as int, end + 1, led_frame(color, brightness)),
            final(self).history() == old(self).history(),
            final(self).bus_address() == old(self).bus_address(),
            final(self).bus() == old(self).bus(),
    {
        let ghost start = self.buffer();
        let ghost frame = led_frame(color, brightness);
        let mut i = from;
        while i <= end
            invariant
                end < NUM_LEDS,
                from <= i <= end + 1 || (from > end && i == from),
                frame == led_frame(color, brightness),
                self.buffer() == paint(start, from as int, i as int, frame),
                self.device == old(self).device,
                start == old(self).data@,
            decreases end + 1 - i,
        {
            let ghost before = self.buffer();
            proof {
                self.lemma_buffer_len();
            }
            self.write_frame(i, color, brightness);
            assert forall|k: int| 0 <= k < BUFFER_LEN implies #[trigger] self.buffer()[k] == paint(
                start,
                from as int,
                i + 1,
                frame,
            )[k] by {
                assert(self.buffer()[k] == paint(before, i as int, i + 1, frame)[k]);
                assert(before[k] == paint(start, from as int, i as int, frame)[k]);
            }
            assert(self.buffer() =~= paint(start, from as int, i + 1, frame));
            i = i + 1;
        }
        assert(self.buffer() =~= paint(start, from as int, end + 1, frame));
    }

    /// Set the brightness byte of the LEDs `from..=end`, where `end` is
    /// already cut at the last LED.
    fn dim_range(&mut self, from: usize, end: usize, brightness: u8)
        requires
            end < NUM_LEDS,
        ensures
            final(self).buffer() == dim(old(self).buffer(), from as int, end + 1, brightness_byte(brightness)),
            final(self).history() == old(self).history(),
            final(self).bus_address() == old(self).bus_address(),
            final(self).bus() == old(self).bus(),
    {
        let ghost start = self.buffer();
        let ghost byte = brightness_byte(brightness);
        let mut i = from;
        while i <= end
            invariant
                end < NUM_LEDS,
                from <= i <= end + 1 || (from > end && i == from),
                byte == brightness_byte(brightness),
                self.buffer() == dim(start, from as int, i as int, byte),
                self.device == old(self).device,
                start == old(self).data@,
            decreases end + 1 - i,
        {
            let ghost before = self.buffer();
            proof {
                self.lemma_buffer_len();
            }
            self.write_brightness(i, brightness);
            assert forall|k: int| 0 <= k < BUFFER_LEN implies #[trigger] self.buffer()[k] == dim(
                start,
                from as int,
                i + 1,
                byte,
            )[k] by {
                assert(self.buffer()[k] == dim(before, i as int, i + 1, byte)[k]);
                assert(before[k] == dim(start, from as int, i as int, byte)[k]);
            }
            assert(self.buffer() =~= dim(start, from as int, i + 1, byte));
            i = i + 1;
        }
        assert(self.buffer() =~= dim(start, from as int, end + 1, byte));
    }

    /// Set the color of all LEDs.
    pub fn set_all_color(&mut self, color: Color, brightness: u8) -> (r: &mut Self)
        ensures
            r.buffer() == paint(old(self).buffer(), 0, NUM_LEDS as int, led_frame(color, brightness)),
            r.history() == old(self).history(),
            r.bus_address() == old(self).bus_address(),
            r.bus() == old(self).bus(),
            *final(self) == *final(r),
    {
        self.paint_range(0, NUM_LEDS - 1, color, brightness);
        self
    }

    /// Set all LEDs to the same RGB color.
    pub fn set_all_rgb(&mut self, r: u8, g: u8, b: u8, brightness: u8) -> (res: &mut Self)
        ensures
            res.buffer() == paint(old(self).buffer(), 0, NUM_LEDS as int, led_frame(Color { r, g, b }, brightness)),
            res.history() == old(self).history(),
            res.bus_address() == old(self).bus_address(),
            res.bus() == old(self).bus(),
            *final(self) == *final(res),
    {
        self.set_all_color(Color::new(r, g, b), brightness)
    }

    /// Set the color of the LEDs `from..=to`; indices past the last LED are
    /// ignored.
    pub fn set_range_color(&mut self, from: usize, to: usize, color: Color, brightness: u8) -> (r: &mut Self)
        ensures
            r.buffer() == paint(old(self).buffer(), from as int, range_end(to) + 1, led_frame(color, brightness)),
            r.history() == old(self).history(),
            r.bus_address() == old(self).bus_address(),
            r.bus() == old(self).bus(),
            *final(self) == *final(r),
    {
        let end = if to >= NUM_LEDS { NUM_LEDS - 1 } else { to };
        self.paint_range(from, end, color, brightness);
        self
    }

    /// Set the brightness of all LEDs without changing their colors.
    pub fn set_all_brightness(&mut self, brightness: u8) -> (r: &mut Self)
        ensures
            r.buffer() == dim(old(self).buffer(), 0, NUM_LEDS as int, brightness_byte(brightness)),
            r.history() == old(self).history(),
            r.bus_address() == old(self).bus_address(),
            r.bus() == old(self).bus(),
            *final(self) == *final(r),
    {
        self.dim_range(0, NUM_LEDS - 1, brightness);
        self
    }

    /// Clear (turn off) a specific LED.
    pub fn clear(&mut self, index: usize) -> (r: Result<&mut Self>)
        ensures
            index >= NUM_LEDS ==> r == Err::<&mut Self, Error>(Error::OutOfRange) && *final(self) == *old(self),
            index < NUM_LEDS ==> r is Ok,
            r matches Ok(p) ==> {
                &&& p.buffer() == paint(old(self).buffer(), index as int, index + 1, led_frame(Color { r: 0, g: 0, b: 0 }, 0))
                &&& p.history() == old(self).history()
                &&& p.bus_address() == old(self).bus_address()
                &&& p.bus() == old(self).bus()
                &&& *final(self) == *final(p)
            },
    {
        self.set_color(index, Color::new(0, 0, 0), 0)
    }

    /// Clear the LEDs `from..=to`; indices past the last LED are ignored.
    pub fn clear_range(&mut self, from: usize, to: usize) -> (r: &mut Self)
        ensures
            r.buffer() == paint(old(self).buffer(), from as int, range_end(to) + 1, led_frame(Color { r: 0, g: 0, b: 0 }, 0)),
            r.history() == old(self).history(),
            r.bus_address() == old(self).bus_address(),
            r.bus() == old(self).bus(),
            *final(self) == *final(r),
    {
        self.set_range_color(from, to, Color::new(0, 0, 0), 0)
    }

    /// Clear all LEDs.
    pub fn clear_all(&mut self) -> (r: &mut Self)
        ensures
            r.buffer() == dark_buffer(),
            r.history() == old(self).history(),
            r.bus_address() == old(self).bus_address(),
            r.bus() == old(self).bus(),
            *final(self) == *final(r),
    {
        self.paint_range(0, NUM_LEDS - 1, Color::new(0, 0, 0), 0);
        assert(self.data@ =~= dark_buffer());
        self
    }

    /// Apply the current LED states to the hardware: one write of the
    /// whole buffer.
    pub fn show(&mut self) -> (r: Result<()>)
        ensures
            final(self).buffer() == old(self).buffer(),
            final(self).bus_address() == old(self).bus_address(),
            ran(old(self).history(), final(self).history(), old(self).bus_address(), seq![Request::Write(old(self).buffer())], r is Ok),
            from_bus(r),
            reports(r, final(self).history()),
    {
        self.device.write(&self.data)
    }

    /// Set a color and immediately show it.
    pub fn set_color_show(&mut self, index: usize, color: Color, brightness: u8) -> (r: Result<()>)
        ensures
            index >= NUM_LEDS ==> r == Err::<(), Error>(Error::OutOfRange) && *final(self) == *old(self),
            index < NUM_LEDS ==> {
                &&& final(self).buffer() == paint(old(self).buffer(), index as int, index + 1, led_frame(color, brightness))
                &&& final(self).bus_address() == old(self).bus_address()
                &&& ran(old(self).history(), final(self).history(), old(self).bus_address(), seq![Request::Write(final(self).buffer())], r is Ok)
                &&& from_bus(r)
                &&& reports(r, final(self).history())
            },
    {
        if index >= NUM_LEDS {
            return Err(Error::OutOfRange);
        }
        self.write_frame(index, color, brightness);
        self.show()
    }

    /// Release the I2C bus.
    pub fn release(self) -> (r: I2C)
        ensures
            r == self.bus(),
    {
        self.device.release()
    }
}

} // verus!
