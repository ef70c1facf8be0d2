use adi_adxl355::codec::{
    activity_mask, activity_threshold_to_registers, fifo_entries, join_i16,
    offset_trims_from_registers, offset_trims_to_registers, split_i16, temperature_from_registers,
    temperature_millicelsius,
};
use adi_adxl355::device::modify;
use adi_adxl355::sample::{acc_buf_to_raw_sample, acc_buf_to_sample, decode_axis, scale};
use adi_adxl355::{RawSample, Sample};

/// The three bytes in which the device holds a 20-bit pattern.
fn bytes(pattern: u32) -> (u8, u8, u8) {
    ((pattern >> 12) as u8, (pattern >> 4) as u8, ((pattern & 0x0F) << 4) as u8)
}

#[test]
fn sign_extension_of_twenty_bit_patterns() {
    for pattern in (0..0x10_0000u32).step_by(257).chain([0x7_FFFF, 0x8_0000, 0xF_FFFF]) {
        let (b0, b1, b2) = bytes(pattern);
        let value = decode_axis(b0, b1, b2);
        if pattern >= 0x8_0000 {
            assert_eq!(value, pattern as i32 - 0x10_0000);
            assert!(value < 0);
        } else {
            assert_eq!(value, pattern as i32);
        }
    }
}

#[test]
fn axis_values_at_the_edges() {
    assert_eq!(decode_axis(0x00, 0x00, 0x00), 0);
    assert_eq!(decode_axis(0x00, 0x00, 0x10), 1);
    assert_eq!(decode_axis(0x7F, 0xFF, 0xF0), 524_287);
    assert_eq!(decode_axis(0x80, 0x00, 0x00), -524_288);
    assert_eq!(decode_axis(0xFF, 0xFF, 0xF0), -1);
    assert_eq!(decode_axis(0x12, 0x34, 0x50), 0x12345);
}

#[test]
fn the_low_nibble_of_the_third_byte_is_ignored() {
    for low in 0..16u8 {
        assert_eq!(decode_axis(0x12, 0x34, 0x50 | low), 0x12345);
        assert_eq!(decode_axis(0xFF, 0xFF, 0xF0 | low), -1);
        assert_eq!(decode_axis(0x80, 0x00, low), -524_288);
    }
}

#[test]
fn nine_bytes_make_a_raw_sample() {
    let mut sample = RawSample { x: 7, y: 7, z: 7 };
    acc_buf_to_raw_sample(
        &[0x00, 0x00, 0x11, 0xFF, 0xFF, 0xE3, 0x40, 0x00, 0x0F],
        &mut sample,
    );
    assert_eq!(sample, RawSample { x: 1, y: -2, z: 0x40000 });
}

#[test]
fn nine_bytes_make_a_scaled_sample() {
    let mut sample = Sample { x: 7, y: 7, z: 7 };
    let buf = [0x00, 0x00, 0x11, 0xFF, 0xFF, 0xE3, 0x40, 0x00, 0x0F];
    acc_buf_to_sample(&buf, &mut sample, 3_900);
    assert_eq!(sample, Sample { x: 3_900, y: -7_800, z: 1_022_361_600 });
    acc_buf_to_sample(&buf, &mut sample, 15_600);
    assert_eq!(sample, Sample { x: 15_600, y: -31_200, z: 4_089_446_400 });
    acc_buf_to_sample(&buf, &mut sample, 0);
    assert_eq!(sample, Sample { x: 0, y: 0, z: 0 });
}

#[test]
fn scaling_never_overflows() {
    assert_eq!(scale(i32::MIN, u32::MAX), -2_147_483_648 * 4_294_967_295);
    assert_eq!(scale(i32::MAX, u32::MAX), 2_147_483_647 * 4_294_967_295);
    assert_eq!(scale(-524_288, 15_600), -8_178_892_800);
    assert_eq!(scale(524_287, 7_800), 4_089_438_600);
}

#[test]
fn offset_trim_bytes_round_trip() {
    for value in i16::MIN..=i16::MAX {
        let (hi, lo) = split_i16(value);
        assert_eq!(hi, (value as u16 >> 8) as u8);
        assert_eq!(lo, value as u8);
        assert_eq!(join_i16(hi, lo), value);
    }
    for (x, y, z) in [(0i16, 0i16, 0i16), (1, -1, 255), (i16::MIN, i16::MAX, -256)] {
        let registers = offset_trims_to_registers(x, y, z);
        assert_eq!(offset_trims_from_registers(&registers), (x, y, z));
    }
    assert_eq!(
        offset_trims_to_registers(0x0102, -1, i16::MIN),
        [0x01, 0x02, 0xFF, 0xFF, 0x80, 0x00]
    );
}

#[test]
fn temperature_is_twelve_bits_wide() {
    assert_eq!(temperature_from_registers(0x00, 0x00), 0);
    assert_eq!(temperature_from_registers(0x07, 0x5D), 1885);
    assert_eq!(temperature_from_registers(0xF7, 0x5D), 1885);
    assert_eq!(temperature_from_registers(0xFF, 0xFF), 4095);
    assert_eq!(temperature_from_registers(0x10, 0x01), 1);
}

#[test]
fn temperature_is_twenty_five_degrees_at_the_intercept() {
    assert_eq!(temperature_millicelsius(1885), 25_000);
    assert_eq!(temperature_millicelsius(1885 + 905), -75_000);
    assert_eq!(temperature_millicelsius(1885 - 905), 125_000);
    assert_eq!(temperature_millicelsius(1704), 45_000);
}

#[test]
fn temperature_is_rounded_down_to_a_thousandth_of_a_degree() {
    assert_eq!(temperature_millicelsius(0), 233_287);
    assert_eq!(temperature_millicelsius(1886), 24_889);
    assert_eq!(temperature_millicelsius(1884), 25_110);
    assert_eq!(temperature_millicelsius(4095), -219_199);
    assert_eq!(temperature_millicelsius(u16::MAX), -7_008_150);
    for raw in 0..=u16::MAX {
        let t = temperature_millicelsius(raw) as i64;
        let exact = 1000 * (42_225 - 20 * raw as i64);
        assert!(181 * t <= exact && exact < 181 * (t + 1));
        let celsius = (((raw as i32) - 1885i32) as f32 / -9.05f32) + 25.0f32;
        assert!((celsius - t as f32 / 1000.0).abs() < 0.01 + celsius.abs() * 1e-5);
    }
}

#[test]
fn activity_threshold_is_split_high_byte_first() {
    assert_eq!(activity_threshold_to_registers(0x0000), (0x00, 0x00));
    assert_eq!(activity_threshold_to_registers(0xBEEF), (0xBE, 0xEF));
    assert_eq!(activity_threshold_to_registers(0x00FF), (0x00, 0xFF));
    assert_eq!(activity_threshold_to_registers(0xFF00), (0xFF, 0x00));
}

#[test]
fn activity_mask_has_one_bit_for_each_axis() {
    assert_eq!(activity_mask(false, false, false), 0x00);
    assert_eq!(activity_mask(true, false, false), 0x01);
    assert_eq!(activity_mask(false, true, false), 0x02);
    assert_eq!(activity_mask(false, false, true), 0x04);
    assert_eq!(activity_mask(true, true, true), 0x07);
    assert_eq!(activity_mask(true, false, true), 0x05);
}

#[test]
fn fifo_entries_are_the_low_seven_bits() {
    assert_eq!(fifo_entries(0x00), 0);
    assert_eq!(fifo_entries(0x60), 96);
    assert_eq!(fifo_entries(0x7F), 127);
    assert_eq!(fifo_entries(0x83), 3);
    assert_eq!(fifo_entries(0xFF), 127);
}

#[test]
fn modifying_a_register_value_changes_the_selected_bits_alone() {
    assert_eq!(modify(0x07, 0x01, 0x00), 0x06);
    assert_eq!(modify(0x06, 0x00, 0x01), 0x07);
    assert_eq!(modify(0x81, 0x00, 0x40), 0xC1);
    assert_eq!(modify(0xC1, 0x40, 0x00), 0x81);
    assert_eq!(modify(0xFF, 0xF0, 0x0F), 0x0F);
    for value in 0..=255u8 {
        assert_eq!(modify(value, 0x00, 0x00), value);
        assert_eq!(modify(value, 0x80, 0x00), value & 0x7F);
        assert_eq!(modify(value, 0x00, 0x80), value | 0x80);
    }
}
