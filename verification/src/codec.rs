//! Encodings of the values that span several registers or share one.

use vstd::prelude::*;

verus! {

/// The signed number that two bytes hold in two's complement, high byte first.
pub open spec fn i16_of(hi: u8, lo: u8) -> int {
    let word = hi as int * 0x100 + lo as int;
    if word >= 0x8000 {
        word - 0x1_0000
    } else {
        word
    }
}

/// The 12-bit temperature that the two temperature registers hold: the low
/// four bits of the first in bits 11 to 8, the second in bits 7 to 0.
pub open spec fn temperature_of(hi: u8, lo: u8) -> int {
    (hi as int % 0x10) * 0x100 + lo as int
}

/// `true` when `t` is the temperature in thousandths of a degree Celsius,
/// rounded down, that the raw temperature `raw` stands for: 25 °C at 1885,
/// and one degree less for every 9.05 above.
pub open spec fn is_millicelsius_of(t: int, raw: int) -> bool {
    905 * (t - 25_000) <= -100_000 * (raw - 1885) < 905 * (t + 1 - 25_000)
}

/// The temperature in thousandths of a degree Celsius, rounded down, that a
/// raw temperature stands for.
pub open spec fn millicelsius_of(raw: int) -> int {
    (1000 * (42_225 - 20 * raw)) / 181
}

/// The number of entries that a FIFO entries register value reports: its low
/// seven bits.
pub open spec fn fifo_entries_of(register_value: u8) -> int {
    register_value as int % 0x80
}

/// The activity enable mask: bit 0 for the x-axis, bit 1 for the y-axis,
/// bit 2 for the z-axis.
pub open spec fn activity_mask_of(x: bool, y: bool, z: bool) -> int {
    (if x { 1int } else { 0 }) + (if y { 2int } else { 0 }) + (if z { 4int } else { 0 })
}

/// The six offset trim register values for three trims: for each axis the
/// high byte, then the low byte.
pub open spec fn offset_trim_bytes(x: i16, y: i16, z: i16) -> Seq<u8> {
    seq![
        high_byte(x), low_byte(x),
        high_byte(y), low_byte(y),
        high_byte(z), low_byte(z),
    ]
}

/// Bits 15 to 8 of a signed 16-bit number.
pub open spec fn high_byte(value: i16) -> u8 {
    ((value >> 8) & 0xFF) as u8
}

/// Bits 7 to 0 of a signed 16-bit number.
pub open spec fn low_byte(value: i16) -> u8 {
    (value & 0xFF) as u8
}

/// Splits a signed 16-bit number into its high and low byte.
pub fn split_i16(value: i16) -> (bytes: (u8, u8))
    ensures
        bytes.0 == high_byte(value),
        bytes.1 == low_byte(value),
        i16_of(bytes.0, bytes.1) == value,
{
    let hi = #[verifier::truncate] (((value >> 8) & 0xFF) as u8);
    let lo = #[verifier::truncate] ((value & 0xFF) as u8);
    proof {
        lemma_i16_round_trip(value);
    }
    (hi, lo)
}

/// Puts a high and a low byte together into a signed 16-bit number.
pub fn join_i16(hi: u8, lo: u8) -> (value: i16)
    ensures
        value == i16_of(hi, lo),
{
    let word: u16 = ((hi as u16) << 8) | (lo as u16);
    let value = #[verifier::truncate] (word as i16);
    assert(value == i16_of(hi, lo)) by (bit_vector)
        requires
            word == ((hi as u16) << 8) | (lo as u16),
            value == #[verifier::truncate] (word as i16),
    ;
    value
}

/// The two bytes of a signed 16-bit number stand for that number.
pub proof fn lemma_i16_round_trip(value: i16)
    ensures
        i16_of(high_byte(value), low_byte(value)) == value,
{
    let hi = high_byte(value);
    let lo = low_byte(value);
    assert(i16_of(hi, lo) == value) by (bit_vector)
        requires
            hi == ((value >> 8) & 0xFF) as u8,
            lo == (value & 0xFF) as u8,
    ;
}

/// The register values that hold three offset trims.
pub fn offset_trims_to_registers(offset_x: i16, offset_y: i16, offset_z: i16) -> (bytes: [u8; 6])
    ensures
        bytes@ == offset_trim_bytes(offset_x, offset_y, offset_z),
{
    let (xh, xl) = split_i16(offset_x);
    let (yh, yl) = split_i16(offset_y);
    let (zh, zl) = split_i16(offset_z);
    let bytes = [xh, xl, yh, yl, zh, zl];
    assert(bytes@ =~= offset_trim_bytes(offset_x, offset_y, offset_z));
    bytes
}

/// The three offset trims that six offset trim register values hold.
pub fn offset_trims_from_registers(bytes: &[u8; 6]) -> (trims: (i16, i16, i16))
    ensures
        trims.0 == i16_of(bytes@[0], bytes@[1]),
        trims.1 == i16_of(bytes@[2], bytes@[3]),
        trims.2 == i16_of(bytes@[4], bytes@[5]),
{
    (join_i16(bytes[0], bytes[1]), join_i16(bytes[2], bytes[3]), join_i16(bytes[4], bytes[5]))
}

/// Offset trims that are written to the registers and read back from them are
/// the same three values.
pub proof fn lemma_offset_trims_round_trip(x: i16, y: i16, z: i16)
    ensures
        ({
            let bytes = offset_trim_bytes(x, y, z);
            &&& bytes.len() == 6
            &&& i16_of(bytes[0], bytes[1]) == x
            &&& i16_of(bytes[2], bytes[3]) == y
            &&& i16_of(bytes[4], bytes[5]) == z
        }),
{
    lemma_i16_round_trip(x);
    lemma_i16_round_trip(y);
    lemma_i16_round_trip(z);
}

/// The raw temperature, given the values of the two temperature registers.
pub fn temperature_from_registers(hi: u8, lo: u8) -> (raw: u16)
    ensures
        raw == temperature_of(hi, lo),
        raw < 0x1000,
{
    let raw: u16 = (((hi & 0x0F) as u16) << 8) | ((lo as u16) & 0xFF);
    assert(raw == (hi as u16 % 0x10) * 0x100 + lo as u16 && raw < 0x1000) by (bit_vector)
        requires
            raw == (((hi & 0x0F) as u16) << 8) | ((lo as u16) & 0xFF),
    ;
    raw
}

/// The temperature in thousandths of a degree Celsius, rounded down, given
/// the raw temperature. The nominal intercept is 1885 at 25 °C and the
/// nominal slope is −9.05 per degree: the temperature is
/// `(42225 − 20 · raw) / 181` degrees.
pub fn temperature_millicelsius(raw_temp: u16) -> (t: i32)
    ensures
        t == millicelsius_of(raw_temp as int),
        is_millicelsius_of(t as int, raw_temp as int),
{
    let scaled: i64 = 1000 * (42_225 - 20 * (raw_temp as i64));
    let t: i64 = if scaled >= 0 {
        scaled / 181
    } else {
        -((180 - scaled) / 181)
    };
    proof {
        assert(181 * t <= scaled < 181 * (t + 1)) by (nonlinear_arith)
            requires
                (scaled >= 0 && t == scaled / 181) || (scaled < 0 && t == -((180 - scaled) / 181)),
        ;
        assert(t == scaled as int / 181) by (nonlinear_arith)
            requires
                181 * t <= scaled < 181 * (t + 1),
        ;
        lemma_millicelsius(raw_temp as int);
    }
    t as i32
}

/// The temperature rounded down to a thousandth of a degree meets the
/// intercept and the slope of the device: it is 25 °C at 1885, and falls by
/// one degree for every 9.05 above.
pub proof fn lemma_millicelsius(raw: int)
    ensures
        is_millicelsius_of(millicelsius_of(raw), raw),
        millicelsius_of(1885) == 25_000,
{
    let n = 1000 * (42_225 - 20 * raw);
    let t = n / 181;
    assert(181 * t <= n < 181 * (t + 1)) by (nonlinear_arith)
        requires
            t == n / 181,
    ;
}

/// The high and the low byte of an activity threshold.
pub fn activity_threshold_to_registers(threshold: u16) -> (bytes: (u8, u8))
    ensures
        bytes.0 as int * 0x100 + bytes.1 as int == threshold,
{
    let hi = #[verifier::truncate] (((threshold >> 8) & 0xFF) as u8);
    let lo = #[verifier::truncate] ((threshold & 0xFF) as u8);
    assert(hi as u16 * 0x100 + lo as u16 == threshold) by (bit_vector)
        requires
            hi == ((threshold >> 8) & 0xFF) as u8,
            lo == (threshold & 0xFF) as u8,
    ;
    (hi, lo)
}

/// The activity enable register value for the selected axes.
pub fn activity_mask(x: bool, y: bool, z: bool) -> (mask: u8)
    ensures
        mask == activity_mask_of(x, y, z),
{
    let mut act_en: u8 = 0;
    if x {
        act_en += 0x01;
    }
    if y {
        act_en += 0x02;
    }
    if z {
        act_en += 0x04;
    }
    act_en
}

/// The number of entries in the FIFO, given the value of the FIFO entries register.
pub fn fifo_entries(register_value: u8) -> (entries: u8)
    ensures
        entries == fifo_entries_of(register_value),
        entries < 0x80,
{
    let entries = register_value & 0x7F;
    assert(entries == register_value % 0x80) by (bit_vector)
        requires
            entries == register_value & 0x7F,
    ;
    entries
}

} // verus!
