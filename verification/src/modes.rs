//! Power control, bus speed and synchronization modes.

use vstd::prelude::*;
use crate::bits::{
    has_bits, lemma_set_has_bits, lemma_set_keeps_others, lemma_single_bits_disjoint,
};

verus! {

/// Content of the power control register.
#[derive(Copy, Clone, Debug, PartialEq, Eq, Structural)]
pub struct Mode(pub u8);

impl Mode {
    pub const DRDY_OFF_BIT: u8 = 0x04;

    pub const TEMP_OFF_BIT: u8 = 0x02;

    pub const STANDBY_BIT: u8 = 0x01;

    /// Bit 0 of the mode byte is set: the device is in standby.
    pub open spec fn in_standby(self) -> bool {
        has_bits(self.0, 0x01)
    }

    /// Bit 1 of the mode byte is set: temperature processing is disabled.
    pub open spec fn temperature_off(self) -> bool {
        has_bits(self.0, 0x02)
    }

    /// Bit 2 of the mode byte is set: the DRDY output is forced to 0.
    pub open spec fn data_ready_off(self) -> bool {
        has_bits(self.0, 0x04)
    }

    /// In standby mode, the device is in a low power state, and the
    /// temperature and acceleration datapaths are not operating. Changes to
    /// the configuration of the device must be made when in standby.
    pub fn standby() -> (m: Self)
        ensures
            m.0 == 0x01,
            m.in_standby(),
            !m.temperature_off(),
            !m.data_ready_off(),
    {
        assert(0x01u8 & 0x01 == 0x01 && 0x01u8 & 0x02 != 0x02 && 0x01u8 & 0x04 != 0x04)
            by (bit_vector);
        Mode(Self::STANDBY_BIT)
    }

    /// In measure mode, the temperature and acceleration datapaths are operating.
    /// No changes to the configuration can be made.
    pub fn measure() -> (m: Self)
        ensures
            m.0 == 0,
            !m.in_standby(),
            !m.temperature_off(),
            !m.data_ready_off(),
    {
        assert(0u8 & 0x01 != 0x01 && 0u8 & 0x02 != 0x02 && 0u8 & 0x04 != 0x04) by (bit_vector);
        Mode(0)
    }

    /// Disable temperature processing.
    pub fn with_temp_off(&mut self) -> (m: Self)
        ensures
            final(self).0 == old(self).0 | 0x02,
            m == *final(self),
            m.temperature_off(),
            m.in_standby() == old(self).in_standby(),
            m.data_ready_off() == old(self).data_ready_off(),
    {
        proof {
            lemma_single_bits_disjoint();
            lemma_set_has_bits(self.0, 0x02);
            lemma_set_keeps_others(self.0, 0x02, 0x01);
            lemma_set_keeps_others(self.0, 0x02, 0x04);
        }
        self.0 |= Self::TEMP_OFF_BIT;
        *self
    }

    /// Force DRDY output to 0.
    pub fn with_drdy_off(&mut self) -> (m: Self)
        ensures
            final(self).0 == old(self).0 | 0x04,
            m == *final(self),
            m.data_ready_off(),
            m.in_standby() == old(self).in_standby(),
            m.temperature_off() == old(self).temperature_off(),
    {
        proof {
            lemma_single_bits_disjoint();
            lemma_set_has_bits(self.0, 0x04);
            lemma_set_keeps_others(self.0, 0x04, 0x01);
            lemma_set_keeps_others(self.0, 0x04, 0x02);
        }
        self.0 |= Self::DRDY_OFF_BIT;
        *self
    }

    /// Check if device is in standby mode.
    pub fn is_in_standby(&self) -> (r: bool)
        ensures
            r == self.in_standby(),
    {
        self.0 & Self::STANDBY_BIT == Self::STANDBY_BIT
    }

    /// Check if temperature processing is disabled.
    pub fn is_temperature_off(&self) -> (r: bool)
        ensures
            r == self.temperature_off(),
    {
        self.0 & Self::TEMP_OFF_BIT == Self::TEMP_OFF_BIT
    }

    /// Check if the DRDY output is forced to 0 in modes where it normally signals data ready.
    pub fn is_data_ready_off(&self) -> (r: bool)
        ensures
            r == self.data_ready_off(),
    {
        self.0 & Self::DRDY_OFF_BIT == Self::DRDY_OFF_BIT
    }
}

impl Default for Mode {
    /// By default, the device is in standby mode.
    fn default() -> (m: Self)
        ensures
            m.0 == 0x01,
    {
        Mode(Self::STANDBY_BIT)
    }
}

/// Speed of the 2-wire bus.
#[derive(Copy, Clone, Debug, PartialEq, Eq, Structural)]
pub enum I2cSpeedMode {
    Fast,
    HighSpeed,
}

impl I2cSpeedMode {
    /// Value of the speed bit of the range register.
    pub open spec fn spec_val(self) -> u8 {
        match self {
            I2cSpeedMode::Fast => 0,
            I2cSpeedMode::HighSpeed => 1,
        }
    }

    /// Value of the speed bit of the range register.
    #[verifier::when_used_as_spec(spec_val)]
    pub fn val(self) -> (v: u8)
        ensures
            v == self.spec_val(),
    {
        match self {
            I2cSpeedMode::Fast => 0,
            I2cSpeedMode::HighSpeed => 1,
        }
    }
}

/// External synchronization and interpolation setting.
#[derive(Copy, Clone, Debug, PartialEq, Eq, Structural)]
pub enum ExternalSyncMode {
    NoExtSync,
    ExtSyncWithInterpolation,
    ExtSyncExtClockNoInterpolation,
    ExtSyncExtClockWithInterpolation,
}

impl ExternalSyncMode {
    /// Value written to the synchronization register.
    pub open spec fn spec_val(self) -> u8 {
        match self {
            ExternalSyncMode::NoExtSync => 0x00,
            ExternalSyncMode::ExtSyncWithInterpolation => 0x02,
            ExternalSyncMode::ExtSyncExtClockNoInterpolation => 0x05,
            ExternalSyncMode::ExtSyncExtClockWithInterpolation => 0x06,
        }
    }

    /// Value written to the synchronization register.
    #[verifier::when_used_as_spec(spec_val)]
    pub fn val(self) -> (v: u8)
        ensures
            v == self.spec_val(),
    {
        match self {
            ExternalSyncMode::NoExtSync => 0x00,
            ExternalSyncMode::ExtSyncWithInterpolation => 0x02,
            ExternalSyncMode::ExtSyncExtClockNoInterpolation => 0x05,
            ExternalSyncMode::ExtSyncExtClockWithInterpolation => 0x06,
        }
    }
}

} // verus!
