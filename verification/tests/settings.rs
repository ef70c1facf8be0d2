use adi_adxl355::{
    Config, DeviceI2cAddress, ExternalSyncMode, HpfCorner, I2cSpeedMode, InterruptConfig,
    InterruptPolarity, Mode, Odr, Range, Status,
};

const RATES: [Odr; 11] = [
    Odr::_4000Hz,
    Odr::_2000Hz,
    Odr::_1000Hz,
    Odr::_500Hz,
    Odr::_250Hz,
    Odr::_125Hz,
    Odr::_62_5Hz,
    Odr::_31_25Hz,
    Odr::_15_625Hz,
    Odr::_7_813Hz,
    Odr::_3_906Hz,
];

const CORNERS: [HpfCorner; 7] = [
    HpfCorner::Off,
    HpfCorner::_24_7,
    HpfCorner::_6_2084,
    HpfCorner::_1_5545,
    HpfCorner::_0_3862,
    HpfCorner::_0_0954,
    HpfCorner::_0_0238,
];

#[test]
fn scale_factor_is_the_documented_constant() {
    assert_eq!(Range::_2G.scale_factor(), 3_900);
    assert_eq!(Range::_4G.scale_factor(), 7_800);
    assert_eq!(Range::_8G.scale_factor(), 15_600);
}

#[test]
fn scale_factor_in_g_is_the_documented_constant() {
    assert_eq!(Range::_2G.scale_factor() as f32 / 1e9, 0.000_003_9_f32);
    assert_eq!(Range::_4G.scale_factor() as f32 / 1e9, 0.000_007_8_f32);
    assert_eq!(Range::_8G.scale_factor() as f32 / 1e9, 0.000_015_6_f32);
}

#[test]
fn range_bits_are_those_of_the_range_register() {
    assert_eq!(Range::_2G.val(), 0b01);
    assert_eq!(Range::_4G.val(), 0b10);
    assert_eq!(Range::_8G.val(), 0b11);
}

#[test]
fn range_is_decoded_from_the_two_low_bits() {
    assert_eq!(Range::from(0x01), Range::_2G);
    assert_eq!(Range::from(0x82), Range::_4G);
    assert_eq!(Range::from(0xFF), Range::_8G);
    assert_eq!(Range::checked_from(0xC1), Some(Range::_2G));
    assert_eq!(Range::checked_from(0x00), None);
    assert_eq!(Range::checked_from(0xFC), None);
    for value in 0..=255u8 {
        match value & 0x03 {
            1 => assert_eq!(Range::checked_from(value), Some(Range::_2G)),
            2 => assert_eq!(Range::checked_from(value), Some(Range::_4G)),
            3 => assert_eq!(Range::checked_from(value), Some(Range::_8G)),
            _ => assert_eq!(Range::checked_from(value), None),
        }
    }
}

#[test]
fn range_is_installed_without_touching_the_other_bits() {
    assert_eq!(Range::_4G.install(0x81), 0x82);
    assert_eq!(Range::_2G.install(0xC3), 0xC1);
    assert_eq!(Range::_8G.install(0x00), 0x03);
    for value in 0..=255u8 {
        for range in [Range::_2G, Range::_4G, Range::_8G] {
            let installed = range.install(value);
            assert_eq!(installed & 0xFC, value & 0xFC);
            assert_eq!(Range::checked_from(installed), Some(range));
        }
    }
}

#[test]
fn rate_bits_are_those_of_the_filter_register() {
    for (i, odr) in RATES.iter().enumerate() {
        assert_eq!(odr.val(), i as u8);
    }
    for (i, hpf) in CORNERS.iter().enumerate() {
        assert_eq!(hpf.val(), i as u8);
    }
}

#[test]
fn filter_byte_round_trip_recovers_rate_and_corner() {
    for odr in RATES {
        for hpf in CORNERS {
            let config = Config::new(Range::_2G, odr, hpf);
            let byte = config.filter_byte();
            assert_eq!(byte, (hpf.val() << 4) | odr.val());
            assert_eq!(Odr::from(byte), odr);
            assert_eq!(HpfCorner::from(byte), hpf);
            assert_eq!(Odr::checked_from(byte), Some(odr));
            assert_eq!(HpfCorner::checked_from(byte), Some(hpf));
        }
    }
}

#[test]
fn filter_byte_has_the_corner_in_the_high_nibble() {
    let config = Config::new(Range::_4G, Odr::_125Hz, HpfCorner::_1_5545);
    assert_eq!(config.filter_byte(), 0x35);
    assert_eq!(Config::default().filter_byte(), 0x0A);
}

#[test]
fn rate_and_corner_fields_that_select_nothing_are_not_decoded() {
    for bits in 11..=15u8 {
        assert_eq!(Odr::checked_from(bits), None);
        assert_eq!(Odr::checked_from(0x70 | bits), None);
    }
    assert_eq!(HpfCorner::checked_from(0x70), None);
    assert_eq!(HpfCorner::checked_from(0x7A), None);
    assert_eq!(HpfCorner::checked_from(0xF0), None);
    assert_eq!(HpfCorner::checked_from(0x80), Some(HpfCorner::Off));
    assert_eq!(Odr::checked_from(0xF3), Some(Odr::_500Hz));
}

#[test]
fn rates_are_given_in_thousandths_of_a_hertz() {
    let odr = [
        4_000_000, 2_000_000, 1_000_000, 500_000, 250_000, 125_000, 62_500, 31_250, 15_625, 7_813,
        3_906,
    ];
    let lpf = [
        1_000_000, 500_000, 250_000, 125_000, 62_500, 31_250, 15_625, 7_813, 3_906, 1_953, 977,
    ];
    for (i, rate) in RATES.iter().enumerate() {
        assert_eq!(rate.odr(), odr[i]);
        assert_eq!(rate.lpf(), lpf[i]);
    }
    assert_eq!(Odr::_62_5Hz.odr() as f32 / 1e3, 62.5_f32);
    assert_eq!(Odr::_7_813Hz.lpf() as f32 / 1e3, 1.953_f32);
}

#[test]
fn corner_coefficients_are_given_in_hundred_millionths() {
    let coefficients = [
        None,
        Some(247_000),
        Some(62_084),
        Some(15_545),
        Some(3_862),
        Some(954),
        Some(238),
    ];
    for (i, corner) in CORNERS.iter().enumerate() {
        assert_eq!(corner.hpf_coefficient(), coefficients[i]);
    }
    assert_eq!(HpfCorner::_24_7.hpf_coefficient().unwrap() as f32 / 1e8, 24.7e-4_f32);
    assert_eq!(HpfCorner::_0_0238.hpf_coefficient().unwrap() as f32 / 1e8, 0.0238e-4_f32);
}

#[test]
fn default_config_is_two_g_at_the_lowest_rate_without_high_pass() {
    let config = Config::default();
    assert_eq!(config.range, Range::_2G);
    assert_eq!(config.odr, Odr::_3_906Hz);
    assert_eq!(config.hpf, HpfCorner::Off);
    assert_eq!(Range::default(), Range::_2G);
    assert_eq!(Odr::default(), Odr::_3_906Hz);
    assert_eq!(HpfCorner::default(), HpfCorner::Off);
}

#[test]
fn config_setters_change_one_field_each() {
    let mut config = Config::new(Range::_2G, Odr::_4000Hz, HpfCorner::Off);
    config.range(Range::_8G);
    assert_eq!(config, Config::new(Range::_8G, Odr::_4000Hz, HpfCorner::Off));
    config.odr(Odr::_250Hz).hpf(HpfCorner::_0_3862);
    assert_eq!(config, Config::new(Range::_8G, Odr::_250Hz, HpfCorner::_0_3862));
    config.hpf(HpfCorner::Off).range(Range::_4G).odr(Odr::_1000Hz);
    assert_eq!(config, Config::new(Range::_4G, Odr::_1000Hz, HpfCorner::Off));
}

#[test]
fn mode_bits() {
    assert_eq!(Mode::STANDBY_BIT, 0x01);
    assert_eq!(Mode::TEMP_OFF_BIT, 0x02);
    assert_eq!(Mode::DRDY_OFF_BIT, 0x04);
    assert_eq!(Mode::standby(), Mode(0x01));
    assert_eq!(Mode::measure(), Mode(0x00));
    assert_eq!(Mode::default(), Mode(0x01));
    assert!(Mode::standby().is_in_standby());
    assert!(!Mode::measure().is_in_standby());
    assert!(!Mode::standby().is_temperature_off());
    assert!(!Mode::standby().is_data_ready_off());
    for value in 0..=255u8 {
        let mode = Mode(value);
        assert_eq!(mode.is_in_standby(), value & 0x01 != 0);
        assert_eq!(mode.is_temperature_off(), value & 0x02 != 0);
        assert_eq!(mode.is_data_ready_off(), value & 0x04 != 0);
    }
}

#[test]
fn mode_builders_set_one_bit_each() {
    let mut mode = Mode::measure();
    let with_temp_off = mode.with_temp_off();
    assert_eq!(with_temp_off, Mode(0x02));
    assert_eq!(mode, Mode(0x02));
    let with_both = mode.with_drdy_off();
    assert_eq!(with_both, Mode(0x06));
    assert!(with_both.is_temperature_off());
    assert!(with_both.is_data_ready_off());
    assert!(!with_both.is_in_standby());
    assert_eq!(Mode::standby().with_drdy_off(), Mode(0x05));
}

#[test]
fn status_bits() {
    assert_eq!(Status::NVM_BUSY_BIT, 0x10);
    assert_eq!(Status::ACTIVITY_BIT, 0x08);
    assert_eq!(Status::FIFO_OVERRUN_BIT, 0x04);
    assert_eq!(Status::FIFO_FULL_BIT, 0x02);
    assert_eq!(Status::DATA_READY_BIT, 0x01);
    for value in 0..=255u8 {
        let status = Status(value);
        assert_eq!(status.is_nvm_busy(), value & 0x10 != 0);
        assert_eq!(status.is_activity_detected(), value & 0x08 != 0);
        assert_eq!(status.is_fifo_overrun(), value & 0x04 != 0);
        assert_eq!(status.is_fifo_full(), value & 0x02 != 0);
        assert_eq!(status.is_data_ready(), value & 0x01 != 0);
    }
}

#[test]
fn interrupt_config_builders_set_one_bit_each() {
    assert_eq!(InterruptConfig::all_off(), InterruptConfig(0x00));
    assert_eq!(InterruptConfig::all_on(), InterruptConfig(0xFF));
    assert_eq!(InterruptConfig::default(), InterruptConfig(0x00));
    assert_eq!(InterruptConfig::all_off().with_activity_on_int2(), InterruptConfig(0x80));
    assert_eq!(InterruptConfig::all_off().with_fifo_overrun_on_int2(), InterruptConfig(0x40));
    assert_eq!(InterruptConfig::all_off().with_fifo_full_on_int2(), InterruptConfig(0x20));
    assert_eq!(InterruptConfig::all_off().with_data_ready_on_int2(), InterruptConfig(0x10));
    assert_eq!(InterruptConfig::all_off().with_activity_on_int1(), InterruptConfig(0x08));
    assert_eq!(InterruptConfig::all_off().with_fifo_overrun_on_int1(), InterruptConfig(0x04));
    assert_eq!(InterruptConfig::all_off().with_fifo_full_on_int1(), InterruptConfig(0x02));
    assert_eq!(InterruptConfig::all_off().with_data_ready_on_int1(), InterruptConfig(0x01));
    let mut config = InterruptConfig::all_off();
    config.with_activity_on_int1();
    let both = config.with_data_ready_on_int2();
    assert_eq!(both, InterruptConfig(0x18));
    assert_eq!(config, InterruptConfig(0x18));
    assert_eq!(InterruptConfig::all_on().with_fifo_full_on_int1(), InterruptConfig(0xFF));
}

#[test]
fn enumerated_register_values() {
    assert_eq!(InterruptPolarity::ActiveLow.val(), 0);
    assert_eq!(InterruptPolarity::ActiveHigh.val(), 1);
    assert_eq!(I2cSpeedMode::Fast.val(), 0);
    assert_eq!(I2cSpeedMode::HighSpeed.val(), 1);
    assert_eq!(ExternalSyncMode::NoExtSync.val(), 0x00);
    assert_eq!(ExternalSyncMode::ExtSyncWithInterpolation.val(), 0x02);
    assert_eq!(ExternalSyncMode::ExtSyncExtClockNoInterpolation.val(), 0x05);
    assert_eq!(ExternalSyncMode::ExtSyncExtClockWithInterpolation.val(), 0x06);
    assert_eq!(DeviceI2cAddress::AselPinLow.val(), 0x1D);
    assert_eq!(DeviceI2cAddress::AselPinHigh.val(), 0x53);
    assert_eq!(DeviceI2cAddress::default(), DeviceI2cAddress::AselPinLow);
}
