//! From raw output-register bytes to axis values.
//!
//! Both sensors deliver three big-endian 16-bit words, X first. The
//! magnetometer's words are the axis values as they stand. The
//! accelerometer's words hold a 14-bit two's-complement count in their upper
//! bits; the count is scaled to thousandths of g in truncating integer
//! arithmetic.

use vstd::prelude::*;

verus! {

/// Numerator of the accelerometer's sensitivity: 0.244 mg per count.
pub const ACCEL_SCALE_NUM: isize = 244;

/// Denominator of the accelerometer's sensitivity.
pub const ACCEL_SCALE_DEN: isize = 1000;

/// One three-axis reading.
#[derive(Clone, Copy, Debug, PartialEq, Eq)]
pub struct Sample {
    pub x: i16,
    pub y: i16,
    pub z: i16,
}

/// The unsigned value of a big-endian 16-bit word.
pub open spec fn be16(hi: u8, lo: u8) -> int {
    hi * 256 + lo
}

/// A 16-bit word read as a two's-complement number.
pub open spec fn signed16(word: int) -> int {
    if word >= 0x8000 {
        word - 0x1_0000
    } else {
        word
    }
}

/// Division that rounds toward zero.
pub open spec fn truncating_div(n: int, d: int) -> int {
    if n >= 0 {
        n / d
    } else {
        -((-n) / d)
    }
}

/// The 14-bit count in an accelerometer word: the signed word without its two
/// padding bits, rounded down as an arithmetic shift rounds.
pub open spec fn accel_count(hi: u8, lo: u8) -> int {
    signed16(be16(hi, lo)) / 4
}

/// One accelerometer axis: the count times 244 / 1000, rounded toward zero.
pub open spec fn accel_axis(hi: u8, lo: u8) -> int {
    truncating_div(accel_count(hi, lo) * 244, 1000)
}

/// One magnetometer axis: the signed word itself.
pub open spec fn mag_axis(hi: u8, lo: u8) -> int {
    signed16(be16(hi, lo))
}

/// The acceleration that the first six bytes of `bytes` hold.
pub open spec fn accel_sample(bytes: Seq<u8>) -> Sample {
    Sample {
        x: accel_axis(bytes[0], bytes[1]) as i16,
        y: accel_axis(bytes[2], bytes[3]) as i16,
        z: accel_axis(bytes[4], bytes[5]) as i16,
    }
}

/// The magnetic field that the first six bytes of `bytes` hold.
pub open spec fn mag_sample(bytes: Seq<u8>) -> Sample {
    Sample {
        x: mag_axis(bytes[0], bytes[1]) as i16,
        y: mag_axis(bytes[2], bytes[3]) as i16,
        z: mag_axis(bytes[4], bytes[5]) as i16,
    }
}

/// Every accelerometer axis fits in 16 bits with room to spare: a 14-bit
/// count scaled by less than a quarter.
pub proof fn lemma_accel_axis_range(hi: u8, lo: u8)
    ensures
        -8192 <= accel_count(hi, lo) <= 8191,
        -1998 <= accel_axis(hi, lo) <= 1998,
{
}

/// Every magnetometer axis is a 16-bit signed value.
pub proof fn lemma_mag_axis_range(hi: u8, lo: u8)
    ensures
        -32768 <= mag_axis(hi, lo) <= 32767,
{
}

/// Reads a big-endian word as a signed 16-bit number.
fn signed_word(hi: u8, lo: u8) -> (word: i16)
    ensures
        word == signed16(be16(hi, lo)),
{
    let bits: u16 = ((hi as u16) << 8) | (lo as u16);
    assert(bits == hi * 256 + lo) by (bit_vector)
        requires
            bits == ((hi as u16) << 8) | (lo as u16),
    ;
    let word: i16 = #[verifier::truncate] (bits as i16);
    assert(bits < 0x8000 ==> word == bits) by (bit_vector)
        requires
            word == bits as i16,
    ;
    assert(bits >= 0x8000 ==> word == bits - 0x1_0000) by (bit_vector)
        requires
            word == bits as i16,
    ;
    word
}

/// Decodes one accelerometer axis from its two output bytes.
pub fn decode_accel_axis(hi: u8, lo: u8) -> (axis: i16)
    ensures
        axis == accel_axis(hi, lo),
{
    let word: i16 = signed_word(hi, lo);
    let count: i16 = word >> 2;
    assert(count == word / 4) by (bit_vector)
        requires
            count == word >> 2,
    ;
    let scaled: isize = (count as isize * ACCEL_SCALE_NUM) / ACCEL_SCALE_DEN;
    scaled as i16
}

/// Decodes one magnetometer axis from its two output bytes.
pub fn decode_mag_axis(hi: u8, lo: u8) -> (axis: i16)
    ensures
        axis == mag_axis(hi, lo),
{
    signed_word(hi, lo)
}

/// Decodes an acceleration from the six sample bytes at the front of the
/// buffer.
pub fn decode_acceleration(bytes: &Vec<u8>) -> (sample: Sample)
    requires
        bytes@.len() >= 6,
    ensures
        sample == accel_sample(bytes@),
        sample.x == accel_axis(bytes@[0], bytes@[1]),
        sample.y == accel_axis(bytes@[2], bytes@[3]),
        sample.z == accel_axis(bytes@[4], bytes@[5]),
{
    Sample {
        x: decode_accel_axis(bytes[0], bytes[1]),
        y: decode_accel_axis(bytes[2], bytes[3]),
        z: decode_accel_axis(bytes[4], bytes[5]),
    }
}

/// Decodes a magnetic field from the six sample bytes at the front of the
/// buffer.
pub fn decode_magnetic_field(bytes: &Vec<u8>) -> (sample: Sample)
    requires
        bytes@.len() >= 6,
    ensures
        sample == mag_sample(bytes@),
        sample.x == mag_axis(bytes@[0], bytes@[1]),
        sample.y == mag_axis(bytes@[2], bytes@[3]),
        sample.z == mag_axis(bytes@[4], bytes@[5]),
{
    Sample {
        x: decode_mag_axis(bytes[0], bytes[1]),
        y: decode_mag_axis(bytes[2], bytes[3]),
        z: decode_mag_axis(bytes[4], bytes[5]),
    }
}

} // verus!
