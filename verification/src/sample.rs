//! Acceleration samples and their decoding from register bytes.
//!
//! Each axis occupies three consecutive bytes. They hold a 20-bit value in
//! two's complement, left justified: the low four bits of the third byte are
//! not part of it.

use vstd::prelude::*;

verus! {

/// Raw acceleration on the three axes, in least significant bits of the
/// configured range.
#[derive(Copy, Clone, Debug, PartialEq, Eq, Structural)]
pub struct RawSample {
    pub x: i32,
    pub y: i32,
    pub z: i32,
}

/// Acceleration on the three axes, in billionths of a g.
#[derive(Copy, Clone, Debug, PartialEq, Eq, Structural)]
pub struct Sample {
    pub x: i64,
    pub y: i64,
    pub z: i64,
}

/// The 20-bit pattern that three axis bytes hold: the first byte in bits 19 to
/// 12, the second in bits 11 to 4, the high half of the third in bits 3 to 0.
pub open spec fn axis_pattern(b0: u8, b1: u8, b2: u8) -> int {
    b0 as int * 0x1000 + b1 as int * 0x10 + b2 as int / 0x10
}

/// The number that a 20-bit pattern stands for in two's complement.
pub open spec fn sign_extend_20(pattern: int) -> int {
    if pattern >= 0x8_0000 {
        pattern - 0x10_0000
    } else {
        pattern
    }
}

/// The raw value of one axis, given its three bytes.
pub open spec fn axis_value(b0: u8, b1: u8, b2: u8) -> int {
    sign_extend_20(axis_pattern(b0, b1, b2))
}

/// The raw sample that nine consecutive data bytes stand for.
pub open spec fn raw_sample_of(buf: Seq<u8>) -> RawSample
    recommends
        buf.len() == 9,
{
    RawSample {
        x: axis_value(buf[0], buf[1], buf[2]) as i32,
        y: axis_value(buf[3], buf[4], buf[5]) as i32,
        z: axis_value(buf[6], buf[7], buf[8]) as i32,
    }
}

/// A raw sample multiplied by a scale factor.
pub open spec fn scaled(raw: RawSample, scale_factor: u32) -> Sample {
    Sample {
        x: (raw.x as int * scale_factor as int) as i64,
        y: (raw.y as int * scale_factor as int) as i64,
        z: (raw.z as int * scale_factor as int) as i64,
    }
}

/// The sample that nine consecutive data bytes stand for under a scale factor.
pub open spec fn sample_of(buf: Seq<u8>, scale_factor: u32) -> Sample
    recommends
        buf.len() == 9,
{
    scaled(raw_sample_of(buf), scale_factor)
}

/// Decodes the three bytes of one axis: the bytes are put together into a
/// 32-bit word, without the four unused bits, and shifted right by 12 with
/// sign extension.
pub fn decode_axis(b0: u8, b1: u8, b2: u8) -> (v: i32)
    ensures
        v == axis_value(b0, b1, b2),
        -0x8_0000 <= v < 0x8_0000,
        axis_pattern(b0, b1, b2) >= 0x8_0000 ==> v == axis_pattern(b0, b1, b2) - 0x10_0000,
        axis_pattern(b0, b1, b2) < 0x8_0000 ==> v == axis_pattern(b0, b1, b2),
{
    let word: u32 = ((b0 as u32) << 24) | ((b1 as u32) << 16) | (((b2 & 0xF0) as u32) << 8);
    let v: i32 = (#[verifier::truncate] (word as i32)) >> 12;
    assert(v == axis_value(b0, b1, b2)) by (bit_vector)
        requires
            word == ((b0 as u32) << 24) | ((b1 as u32) << 16) | (((b2 & 0xF0) as u32) << 8),
            v == (#[verifier::truncate] (word as i32)) >> 12,
    ;
    v
}

/// The three bytes in which the device holds a 20-bit pattern.
pub open spec fn axis_bytes(pattern: u32) -> (u8, u8, u8) {
    (
        ((pattern >> 12) & 0xFF) as u8,
        ((pattern >> 4) & 0xFF) as u8,
        ((pattern & 0x0F) << 4) as u8,
    )
}

/// A 20-bit pattern with the sign bit set decodes to the pattern less 2^20;
/// one with the sign bit clear decodes to the pattern.
pub proof fn lemma_sign_extension(pattern: u32)
    requires
        pattern < 0x10_0000,
    ensures
        ({
            let (b0, b1, b2) = axis_bytes(pattern);
            &&& axis_pattern(b0, b1, b2) == pattern
            &&& pattern >= 0x8_0000 ==> axis_value(b0, b1, b2) == pattern - 0x10_0000
            &&& pattern < 0x8_0000 ==> axis_value(b0, b1, b2) == pattern
        }),
{
    let (b0, b1, b2) = axis_bytes(pattern);
    assert(b0 as u32 * 0x1000 + b1 as u32 * 0x10 + b2 as u32 / 0x10 == pattern) by (bit_vector)
        requires
            pattern < 0x10_0000,
            b0 == ((pattern >> 12) & 0xFF) as u8,
            b1 == ((pattern >> 4) & 0xFF) as u8,
            b2 == ((pattern & 0x0F) << 4) as u8,
    ;
}

/// The four low bits of the third byte of an axis take no part in its value.
pub proof fn lemma_padding_ignored(b0: u8, b1: u8, b2: u8, other: u8)
    requires
        b2 & 0xF0 == other & 0xF0,
    ensures
        axis_value(b0, b1, b2) == axis_value(b0, b1, other),
{
    assert(b2 as int / 0x10 == other as int / 0x10) by (bit_vector)
        requires
            b2 & 0xF0 == other & 0xF0,
    ;
}

/// Converts 9 bytes to raw acceleration sample.
pub fn acc_buf_to_raw_sample(buf: &[u8; 9], sample: &mut RawSample)
    ensures
        *final(sample) == raw_sample_of(buf@),
{
    sample.x = decode_axis(buf[0], buf[1], buf[2]);
    sample.y = decode_axis(buf[3], buf[4], buf[5]);
    sample.z = decode_axis(buf[6], buf[7], buf[8]);
}

/// Converts 9 bytes to acceleration sample in billionths of a g using the
/// scale factor provided, in billionths of a g per least significant bit.
pub fn acc_buf_to_sample(buf: &[u8; 9], sample: &mut Sample, scale_factor: u32)
    ensures
        *final(sample) == sample_of(buf@, scale_factor),
        final(sample).x == axis_value(buf@[0], buf@[1], buf@[2]) * scale_factor,
        final(sample).y == axis_value(buf@[3], buf@[4], buf@[5]) * scale_factor,
        final(sample).z == axis_value(buf@[6], buf@[7], buf@[8]) * scale_factor,
{
    let x = decode_axis(buf[0], buf[1], buf[2]);
    let y = decode_axis(buf[3], buf[4], buf[5]);
    let z = decode_axis(buf[6], buf[7], buf[8]);
    sample.x = scale(x, scale_factor);
    sample.y = scale(y, scale_factor);
    sample.z = scale(z, scale_factor);
}

/// Multiplies one raw axis value by a scale factor.
pub fn scale(raw: i32, scale_factor: u32) -> (v: i64)
    ensures
        v == raw * scale_factor,
        v == (raw as int * scale_factor as int) as i64,
{
    assert(-0x8000_0000 * 0xFFFF_FFFF <= raw * scale_factor <= 0x7FFF_FFFF * 0xFFFF_FFFF)
        by (nonlinear_arith)
        requires
            -0x8000_0000 <= raw <= 0x7FFF_FFFF,
            0 <= scale_factor <= 0xFFFF_FFFF,
    ;
    (raw as i64) * (scale_factor as i64)
}

/// Multiplies a raw sample by a scale factor.
pub fn scale_sample(raw: &RawSample, scale_factor: u32) -> (s: Sample)
    ensures
        s == scaled(*raw, scale_factor),
{
    Sample {
        x: scale(raw.x, scale_factor),
        y: scale(raw.y, scale_factor),
        z: scale(raw.z, scale_factor),
    }
}

} // verus!
