//! Measurement range, output data rate and filter settings.

use vstd::prelude::*;

verus! {

/// Accelerometer range. The ADXL355 supports the ±2 g, ±4 g, and ±8 g ranges.
#[allow(non_camel_case_types)]
#[derive(Copy, Clone, Debug, PartialEq, Eq, Structural)]
pub enum Range {
    _2G,
    _4G,
    _8G,
}

impl Range {
    /// The two range bits of the range register.
    pub open spec fn spec_val(self) -> u8 {
        match self {
            Range::_2G => 0b01,
            Range::_4G => 0b10,
            Range::_8G => 0b11,
        }
    }

    /// The range that the two low bits of a range register value select, if any.
    pub open spec fn decode(value: u8) -> Option<Range> {
        let bits = value & 0x03;
        if bits == 0b01 {
            Some(Range::_2G)
        } else if bits == 0b10 {
            Some(Range::_4G)
        } else if bits == 0b11 {
            Some(Range::_8G)
        } else {
            None
        }
    }

    /// A range register value with its range bits replaced by those of `self`.
    pub open spec fn spec_install(self, register_value: u8) -> u8 {
        (register_value & 0xFC) | self.spec_val()
    }

    /// Range configuration value as expected in the Range bits of the range register.
    #[verifier::when_used_as_spec(spec_val)]
    pub fn val(self) -> (v: u8)
        ensures
            v == self.spec_val(),
            1 <= v <= 3,
    {
        match self {
            Range::_2G => 0b01,
            Range::_4G => 0b10,
            Range::_8G => 0b11,
        }
    }

    /// Range scale factor to go from the raw integer value of the accelerometer
    /// to acceleration, in billionths of a g per least significant bit.
    pub open spec fn spec_scale_factor(self) -> u32 {
        match self {
            Range::_2G => 3_900,
            Range::_4G => 7_800,
            Range::_8G => 15_600,
        }
    }

    /// Range scale factor to go from the raw integer value of the accelerometer
    /// to acceleration, in billionths of a g per least significant bit:
    /// 3.9, 7.8 and 15.6 millionths of a g.
    #[verifier::when_used_as_spec(spec_scale_factor)]
    pub fn scale_factor(self) -> (f: u32)
        ensures
            f == self.spec_scale_factor(),
            self == Range::_2G ==> f == 3_900,
            self == Range::_4G ==> f == 7_800,
            self == Range::_8G ==> f == 15_600,
    {
        match self {
            Range::_2G => 3_900,
            Range::_4G => 7_800,
            Range::_8G => 15_600,
        }
    }

    /// The range selected by a range register value, where its range bits
    /// select one.
    pub fn checked_from(value: u8) -> (r: Option<Range>)
        ensures
            r == Range::decode(value),
    {
        let bits = value & 0x03;
        if bits == 0b01 {
            Some(Range::_2G)
        } else if bits == 0b10 {
            Some(Range::_4G)
        } else if bits == 0b11 {
            Some(Range::_8G)
        } else {
            None
        }
    }

    /// The range selected by a range register value whose range bits are not both clear.
    pub fn from(value: u8) -> (r: Range)
        requires
            Range::decode(value) is Some,
        ensures
            Some(r) == Range::decode(value),
    {
        let bits = value & 0x03;
        if bits == 0b01 {
            Range::_2G
        } else if bits == 0b10 {
            Range::_4G
        } else {
            Range::_8G
        }
    }

    /// Replaces the range bits of a range register value by those of `self`.
    /// The interrupt polarity and bus speed bits keep their value.
    pub fn install(self, register_value: u8) -> (v: u8)
        ensures
            v == self.spec_install(register_value),
            Range::decode(v) == Some(self),
            v & 0xFC == register_value & 0xFC,
    {
        proof {
            Self::lemma_install(self, register_value);
        }
        (register_value & 0xFC) | self.val()
    }

    /// Installing a range in a register value makes the value decode to that
    /// range and leaves the six other bits as they were.
    pub proof fn lemma_install(range: Range, register_value: u8)
        ensures
            Range::decode(range.spec_install(register_value)) == Some(range),
            range.spec_install(register_value) & 0xFC == register_value & 0xFC,
    {
        let v = range.spec_val();
        assert(1 <= v <= 3 ==> (((register_value & 0xFC) | v) & 0x03 == v && ((register_value
            & 0xFC) | v) & 0xFC == register_value & 0xFC)) by (bit_vector);
    }

    /// The range bits of a range decode to the range.
    pub proof fn lemma_val_decodes(range: Range)
        ensures
            Range::decode(range.spec_val()) == Some(range),
    {
        assert(0b01u8 & 0x03 == 0b01 && 0b10u8 & 0x03 == 0b10 && 0b11u8 & 0x03 == 0b11)
            by (bit_vector);
    }
}

impl Default for Range {
    /// The ±2 g range.
    fn default() -> (r: Self)
        ensures
            r == Range::_2G,
    {
        Range::_2G
    }
}

/// Accelerometer's output data rate (ODR).
/// The low pass filter corner frequency (LPF) is configured cojointly, the LPF is 1/4th the ODR.
#[allow(non_camel_case_types)]
#[derive(Copy, Clone, Debug, PartialEq, Eq, Structural)]
pub enum Odr {
    /// odr = 4000 Hz and lpf = 1000 Hz
    _4000Hz,
    /// odr = 2000 Hz and lpf = 500 Hz
    _2000Hz,
    /// odr = 1000 Hz and lpf = 250 Hz
    _1000Hz,
    /// odr = 500 Hz and lpf = 125 Hz
    _500Hz,
    /// odr = 250 Hz and lpf = 62.5 Hz
    _250Hz,
    /// odr = 125 Hz and lpf = 31.25 Hz
    _125Hz,
    /// odr = 62.5 Hz and lpf = 15.625 Hz
    _62_5Hz,
    /// odr = 31.25 Hz and lpf = 7.813 Hz
    _31_25Hz,
    /// odr = 15.625 Hz and lpf = 3.906
    _15_625Hz,
    /// odr = 7.813 Hz and lpf = 1.953 Hz
    _7_813Hz,
    /// odr = 3.906 Hz and lpf = 0.977 Hz
    _3_906Hz,
}

impl Odr {
    /// The four rate bits of the filter register.
    pub open spec fn spec_val(self) -> u8 {
        match self {
            Odr::_4000Hz => 0,
            Odr::_2000Hz => 1,
            Odr::_1000Hz => 2,
            Odr::_500Hz => 3,
            Odr::_250Hz => 4,
            Odr::_125Hz => 5,
            Odr::_62_5Hz => 6,
            Odr::_31_25Hz => 7,
            Odr::_15_625Hz => 8,
            Odr::_7_813Hz => 9,
            Odr::_3_906Hz => 10,
        }
    }

    /// The rate whose rate bits are `bits`, if there is one.
    pub open spec fn from_bits(bits: u8) -> Option<Odr> {
        if bits == 0 {
            Some(Odr::_4000Hz)
        } else if bits == 1 {
            Some(Odr::_2000Hz)
        } else if bits == 2 {
            Some(Odr::_1000Hz)
        } else if bits == 3 {
            Some(Odr::_500Hz)
        } else if bits == 4 {
            Some(Odr::_250Hz)
        } else if bits == 5 {
            Some(Odr::_125Hz)
        } else if bits == 6 {
            Some(Odr::_62_5Hz)
        } else if bits == 7 {
            Some(Odr::_31_25Hz)
        } else if bits == 8 {
            Some(Odr::_15_625Hz)
        } else if bits == 9 {
            Some(Odr::_7_813Hz)
        } else if bits == 10 {
            Some(Odr::_3_906Hz)
        } else {
            None
        }
    }

    /// The rate that the four low bits of a filter register value select, if any.
    pub open spec fn decode(value: u8) -> Option<Odr> {
        Odr::from_bits(value & 0x0F)
    }

    /// ODR_LPF configuration value as expected in the ODR_LPF bits of the filter register.
    #[verifier::when_used_as_spec(spec_val)]
    pub fn val(self) -> (v: u8)
        ensures
            v == self.spec_val(),
            v <= 10,
            Odr::from_bits(v) == Some(self),
    {
        match self {
            Odr::_4000Hz => 0,
            Odr::_2000Hz => 1,
            Odr::_1000Hz => 2,
            Odr::_500Hz => 3,
            Odr::_250Hz => 4,
            Odr::_125Hz => 5,
            Odr::_62_5Hz => 6,
            Odr::_31_25Hz => 7,
            Odr::_15_625Hz => 8,
            Odr::_7_813Hz => 9,
            Odr::_3_906Hz => 10,
        }
    }

    /// Output data rate in thousandths of a hertz.
    pub open spec fn spec_odr(self) -> u32 {
        match self {
            Odr::_4000Hz => 4_000_000,
            Odr::_2000Hz => 2_000_000,
            Odr::_1000Hz => 1_000_000,
            Odr::_500Hz => 500_000,
            Odr::_250Hz => 250_000,
            Odr::_125Hz => 125_000,
            Odr::_62_5Hz => 62_500,
            Odr::_31_25Hz => 31_250,
            Odr::_15_625Hz => 15_625,
            Odr::_7_813Hz => 7_813,
            Odr::_3_906Hz => 3_906,
        }
    }

    /// Low-pass filter corner in thousandths of a hertz.
    pub open spec fn spec_lpf(self) -> u32 {
        match self {
            Odr::_4000Hz => 1_000_000,
            Odr::_2000Hz => 500_000,
            Odr::_1000Hz => 250_000,
            Odr::_500Hz => 125_000,
            Odr::_250Hz => 62_500,
            Odr::_125Hz => 31_250,
            Odr::_62_5Hz => 15_625,
            Odr::_31_25Hz => 7_813,
            Odr::_15_625Hz => 3_906,
            Odr::_7_813Hz => 1_953,
            Odr::_3_906Hz => 977,
        }
    }

    /// Output data rate in thousandths of a hertz.
    #[verifier::when_used_as_spec(spec_odr)]
    pub fn odr(self) -> (f: u32)
        ensures
            f == self.spec_odr(),
    {
        match self {
            Odr::_4000Hz => 4_000_000,
            Odr::_2000Hz => 2_000_000,
            Odr::_1000Hz => 1_000_000,
            Odr::_500Hz => 500_000,
            Odr::_250Hz => 250_000,
            Odr::_125Hz => 125_000,
            Odr::_62_5Hz => 62_500,
            Odr::_31_25Hz => 31_250,
            Odr::_15_625Hz => 15_625,
            Odr::_7_813Hz => 7_813,
            Odr::_3_906Hz => 3_906,
        }
    }

    /// Low-pass filter corner in thousandths of a hertz.
    #[verifier::when_used_as_spec(spec_lpf)]
    pub fn lpf(self) -> (f: u32)
        ensures
            f == self.spec_lpf(),
    {
        match self {
            Odr::_4000Hz => 1_000_000,
            Odr::_2000Hz => 500_000,
            Odr::_1000Hz => 250_000,
            Odr::_500Hz => 125_000,
            Odr::_250Hz => 62_500,
            Odr::_125Hz => 31_250,
            Odr::_62_5Hz => 15_625,
            Odr::_31_25Hz => 7_813,
            Odr::_15_625Hz => 3_906,
            Odr::_7_813Hz => 1_953,
            Odr::_3_906Hz => 977,
        }
    }

    /// The rate selected by a filter register value, where its rate bits
    /// select one.
    pub fn checked_from(value: u8) -> (r: Option<Odr>)
        ensures
            r == Odr::decode(value),
    {
        let bits = value & 0x0F;
        if bits == 0 {
            Some(Odr::_4000Hz)
        } else if bits == 1 {
            Some(Odr::_2000Hz)
        } else if bits == 2 {
            Some(Odr::_1000Hz)
        } else if bits == 3 {
            Some(Odr::_500Hz)
        } else if bits == 4 {
            Some(Odr::_250Hz)
        } else if bits == 5 {
            Some(Odr::_125Hz)
        } else if bits == 6 {
            Some(Odr::_62_5Hz)
        } else if bits == 7 {
            Some(Odr::_31_25Hz)
        } else if bits == 8 {
            Some(Odr::_15_625Hz)
        } else if bits == 9 {
            Some(Odr::_7_813Hz)
        } else if bits == 10 {
            Some(Odr::_3_906Hz)
        } else {
            None
        }
    }

    /// The rate selected by a filter register value whose rate bits are at most 10.
    pub fn from(value: u8) -> (r: Odr)
        requires
            Odr::decode(value) is Some,
        ensures
            Some(r) == Odr::decode(value),
    {
        match Odr::checked_from(value) {
            Some(odr) => odr,
            None => Odr::_3_906Hz,
        }
    }
}

impl Default for Odr {
    /// The lowest rate, 3.906 Hz.
    fn default() -> (r: Self)
        ensures
            r == Odr::_3_906Hz,
    {
        Odr::_3_906Hz
    }
}

/// Accelerometer's −3 dB filter corner for the first-order high-pass filter.
/// The ADXL355 offers 7 different configurations, the high-pass filter frequency is relative to the ODR.
#[allow(non_camel_case_types)]
#[derive(Copy, Clone, Debug, PartialEq, Eq, Structural)]
pub enum HpfCorner {
    /// Not applicable, no high-pass filter enabled
    Off,
    /// 24.7 × 10^-4 × ODR
    _24_7,
    /// 6.2084 × 10^-4 × ODR
    _6_2084,
    /// 1.5545 × 10^-4 × ODR
    _1_5545,
    /// 0.3862 × 10^-4 × ODR
    _0_3862,
    /// 0.0954 × 10^-4 × ODR
    _0_0954,
    /// 0.0238 × 10^-4 × ODR
    _0_0238,
}

impl HpfCorner {
    /// The three corner bits of the filter register.
    pub open spec fn spec_val(self) -> u8 {
        match self {
            HpfCorner::Off => 0,
            HpfCorner::_24_7 => 1,
            HpfCorner::_6_2084 => 2,
            HpfCorner::_1_5545 => 3,
            HpfCorner::_0_3862 => 4,
            HpfCorner::_0_0954 => 5,
            HpfCorner::_0_0238 => 6,
        }
    }

    /// The corner whose corner bits are `bits`, if there is one.
    pub open spec fn from_bits(bits: u8) -> Option<HpfCorner> {
        if bits == 0 {
            Some(HpfCorner::Off)
        } else if bits == 1 {
            Some(HpfCorner::_24_7)
        } else if bits == 2 {
            Some(HpfCorner::_6_2084)
        } else if bits == 3 {
            Some(HpfCorner::_1_5545)
        } else if bits == 4 {
            Some(HpfCorner::_0_3862)
        } else if bits == 5 {
            Some(HpfCorner::_0_0954)
        } else if bits == 6 {
            Some(HpfCorner::_0_0238)
        } else {
            None
        }
    }

    /// The corner that bits 6 to 4 of a filter register value select, if any.
    pub open spec fn decode(value: u8) -> Option<HpfCorner> {
        HpfCorner::from_bits((value & 0x70) >> 4)
    }

    /// HPF_CORNER configuration value as expected in the HPF_CORNER bits of the filter register.
    #[verifier::when_used_as_spec(spec_val)]
    pub fn val(self) -> (v: u8)
        ensures
            v == self.spec_val(),
            v <= 6,
            HpfCorner::from_bits(v) == Some(self),
    {
        match self {
            HpfCorner::Off => 0,
            HpfCorner::_24_7 => 1,
            HpfCorner::_6_2084 => 2,
            HpfCorner::_1_5545 => 3,
            HpfCorner::_0_3862 => 4,
            HpfCorner::_0_0954 => 5,
            HpfCorner::_0_0238 => 6,
        }
    }

    /// Coefficient of the high-pass filter corner relative to the output data
    /// rate, in hundred-millionths; none where the filter is off.
    pub open spec fn spec_hpf_coefficient(self) -> Option<u32> {
        match self {
            HpfCorner::Off => None,
            HpfCorner::_24_7 => Some(247_000u32),
            HpfCorner::_6_2084 => Some(62_084u32),
            HpfCorner::_1_5545 => Some(15_545u32),
            HpfCorner::_0_3862 => Some(3_862u32),
            HpfCorner::_0_0954 => Some(954u32),
            HpfCorner::_0_0238 => Some(238u32),
        }
    }

    /// Coefficient of the high-pass filter corner relative to the output data
    /// rate, in hundred-millionths. To get the high-pass filter corner,
    /// multiply this coefficient by the output data rate.
    #[verifier::when_used_as_spec(spec_hpf_coefficient)]
    pub fn hpf_coefficient(self) -> (c: Option<u32>)
        ensures
            c == self.spec_hpf_coefficient(),
            (c is None) == (self == HpfCorner::Off),
    {
        match self {
            HpfCorner::Off => None,
            HpfCorner::_24_7 => Some(247_000),
            HpfCorner::_6_2084 => Some(62_084),
            HpfCorner::_1_5545 => Some(15_545),
            HpfCorner::_0_3862 => Some(3_862),
            HpfCorner::_0_0954 => Some(954),
            HpfCorner::_0_0238 => Some(238),
        }
    }

    /// The corner selected by a filter register value, where its corner bits
    /// select one.
    pub fn checked_from(value: u8) -> (r: Option<HpfCorner>)
        ensures
            r == HpfCorner::decode(value),
    {
        let bits = (value & 0x70) >> 4;
        if bits == 0 {
            Some(HpfCorner::Off)
        } else if bits == 1 {
            Some(HpfCorner::_24_7)
        } else if bits == 2 {
            Some(HpfCorner::_6_2084)
        } else if bits == 3 {
            Some(HpfCorner::_1_5545)
        } else if bits == 4 {
            Some(HpfCorner::_0_3862)
        } else if bits == 5 {
            Some(HpfCorner::_0_0954)
        } else if bits == 6 {
            Some(HpfCorner::_0_0238)
        } else {
            None
        }
    }

    /// The corner selected by a filter register value whose corner bits are at most 6.
    pub fn from(value: u8) -> (r: HpfCorner)
        requires
            HpfCorner::decode(value) is Some,
        ensures
            Some(r) == HpfCorner::decode(value),
    {
        match HpfCorner::checked_from(value) {
            Some(hpf) => hpf,
            None => HpfCorner::Off,
        }
    }
}

impl Default for HpfCorner {
    /// No high-pass filter.
    fn default() -> (r: Self)
        ensures
            r == HpfCorner::Off,
    {
        HpfCorner::Off
    }
}

/// Configuration for the ADXL355.
/// The default configuration uses:
///
/// - 2G for the range
/// - 3.906Hz for the output data rate
/// - No high pass filter
#[derive(Copy, Clone, Debug, PartialEq, Eq, Structural)]
pub struct Config {
    pub range: Range,
    pub odr: Odr,
    pub hpf: HpfCorner,
}

impl Config {
    /// The filter register value that selects `odr` and `hpf`: the corner in
    /// bits 6 to 4, the rate in bits 3 to 0.
    pub open spec fn spec_filter_byte(odr: Odr, hpf: HpfCorner) -> u8 {
        (hpf.spec_val() << 4) | odr.spec_val()
    }

    /// Creates a new configuration with provided values.
    pub fn new(range: Range, odr: Odr, hpf: HpfCorner) -> (c: Self)
        ensures
            c == (Config { range, odr, hpf }),
    {
        Config { range, odr, hpf }
    }

    /// Sets the range.
    pub fn range(&mut self, range: Range) -> (c: &mut Self)
        ensures
            *c == (Config { range, odr: old(self).odr, hpf: old(self).hpf }),
            *final(self) == *final(c),
    {
        self.range = range;
        self
    }

    /// Sets the output data rate and low pass filter frequency.
    pub fn odr(&mut self, odr: Odr) -> (c: &mut Self)
        ensures
            *c == (Config { range: old(self).range, odr, hpf: old(self).hpf }),
            *final(self) == *final(c),
    {
        self.odr = odr;
        self
    }

    /// Sets the -3dB corner frequency for the high pass filter
    pub fn hpf(&mut self, hpf: HpfCorner) -> (c: &mut Self)
        ensures
            *c == (Config { range: old(self).range, odr: old(self).odr, hpf }),
            *final(self) == *final(c),
    {
        self.hpf = hpf;
        self
    }

    /// The filter register value of this configuration.
    pub fn filter_byte(&self) -> (v: u8)
        ensures
            v == Config::spec_filter_byte(self.odr, self.hpf),
            Odr::decode(v) == Some(self.odr),
            HpfCorner::decode(v) == Some(self.hpf),
    {
        proof {
            Self::lemma_filter_byte_round_trip(self.odr, self.hpf);
        }
        (self.hpf.val() << 4) | self.odr.val()
    }

    /// Encoding a rate and a corner into a filter register value and decoding
    /// that value gives the same rate and the same corner.
    pub proof fn lemma_filter_byte_round_trip(odr: Odr, hpf: HpfCorner)
        ensures
            Odr::decode(Config::spec_filter_byte(odr, hpf)) == Some(odr),
            HpfCorner::decode(Config::spec_filter_byte(odr, hpf)) == Some(hpf),
    {
        let o = odr.spec_val();
        let h = hpf.spec_val();
        assert(o <= 10 && h <= 6 ==> (((h << 4) | o) & 0x0F == o && (((h << 4) | o) & 0x70) >> 4
            == h)) by (bit_vector);
    }
}

impl Default for Config {
    /// The ±2 g range at 3.906 Hz without high-pass filter.
    fn default() -> (c: Self)
        ensures
            c == (Config { range: Range::_2G, odr: Odr::_3_906Hz, hpf: HpfCorner::Off }),
    {
        Config { range: Range::_2G, odr: Odr::_3_906Hz, hpf: HpfCorner::Off }
    }
}

} // verus!
