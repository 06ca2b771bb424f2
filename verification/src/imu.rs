//! The inertial measurement unit on SPI2.
//!
//! Each SPI transfer sends a 16-bit word as two 8-bit frames, low byte
//! first: the register address, then the data byte.  Setting bit 7 of the
//! address asks for a read of that register.  The vertical acceleration is
//! read as two bytes, high then low, that together form a signed 16-bit
//! sample; the sample is published as the servo's present position.
use vstd::prelude::*;

verus! {

/// Bit of the address byte that asks for a read.
pub const READ_FLAG: u8 = 0x80;

/// Power management register: writing `SENSORS_ON` to it starts the sensors.
pub const POWER_REGISTER: u8 = 0x1F;

/// Power management value that turns the sensors on.
pub const SENSORS_ON: u8 = 0x1F;

/// Identification register.
pub const WHO_AM_I_REGISTER: u8 = 0x75;

/// Register with the high byte of the vertical acceleration.
pub const ACCEL_Z_HIGH_REGISTER: u8 = 0x0F;

/// Register with the low byte of the vertical acceleration.
pub const ACCEL_Z_LOW_REGISTER: u8 = 0x10;

/// The signed value of a 16-bit two's complement word.
pub open spec fn signed16(word: int) -> int {
    if word < 0x8000 {
        word
    } else {
        word - 0x10000
    }
}

/// The word that writes `value` to `register`.
pub fn write_command(register: u8, value: u8) -> (word: u16)
    ensures
        word == register as int + 0x100 * value as int,
{
    let word: u16 = ((value as u16) << 8u16) | (register as u16);
    assert(word == register as int + 0x100 * value as int) by (bit_vector)
        requires
            word == ((value as u16) << 8u16) | (register as u16),
    ;
    word
}

/// The word that reads `register`: its address with the read flag set.
pub fn read_command(register: u8) -> (word: u16)
    requires
        register < READ_FLAG,
    ensures
        word == register as int + READ_FLAG as int,
{
    let word: u16 = (register | READ_FLAG) as u16;
    assert((register | 0x80u8) as u16 == register as int + 0x80) by (bit_vector)
        requires
            register < 0x80u8,
    ;
    word
}

/// The acceleration sample made of the two values read back: the low byte
/// of the first shifted into the high byte of the word, the second or-ed
/// into it, the word taken as a signed 16-bit value.
pub open spec fn sample_from_reads(upper: u16, lower: u16) -> i16 {
    ((upper << 8u16) | lower) as i16
}

/// Combines the high and low reads of the vertical acceleration into the
/// signed sample.
pub fn accel_sample(upper: u16, lower: u16) -> (sample: i16)
    ensures
        sample == sample_from_reads(upper, lower),
        upper < 0x100 && lower < 0x100 ==> sample as int == signed16(
            0x100 * upper as int + lower as int,
        ),
{
    let sample: i16 = ((upper << 8u16) | lower) as i16;
    assert(upper < 0x100u16 && lower < 0x100u16 ==> (((upper << 8u16) | lower) as i16) as int == (
    if 0x100 * upper + lower < 0x8000 {
        0x100 * upper + lower
    } else {
        0x100 * upper + lower - 0x10000
    })) by (bit_vector);
    sample
}

/// The present position published for a sample: the sample itself, widened.
pub fn present_position(sample: i16) -> (position: i32)
    ensures
        position == sample as int,
        -0x8000 <= position < 0x8000,
{
    sample as i32
}

/// Splitting a sample into its high and low byte and combining the two
/// again gives the sample back.
pub proof fn lemma_sample_round_trip(sample: i16)
    ensures
        sample_from_reads(((sample as u16) >> 8u16) as u16, ((sample as u16) & 0xffu16) as u16)
            == sample,
{
    assert((((((sample as u16) >> 8u16) as u16) << 8u16) | (((sample as u16) & 0xffu16) as u16)) as i16
        == sample) by (bit_vector);
}

} // verus!
