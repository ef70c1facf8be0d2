//! Status register.

use vstd::prelude::*;
use crate::bits::has_bits;

verus! {

/// Content of the status register, as read from the device.
#[derive(Copy, Clone, Debug, PartialEq, Eq, Structural)]
pub struct Status(pub u8);

impl Status {
    pub const NVM_BUSY_BIT: u8 = 0x10;

    pub const ACTIVITY_BIT: u8 = 0x08;

    pub const FIFO_OVERRUN_BIT: u8 = 0x04;

    pub const FIFO_FULL_BIT: u8 = 0x02;

    pub const DATA_READY_BIT: u8 = 0x01;

    /// Bit 4 of the status byte is set.
    pub open spec fn nvm_busy(self) -> bool {
        has_bits(self.0, 0x10)
    }

    /// NVM controller is busy with a refresh, programming, or a built in self test (BIST).
    pub fn is_nvm_busy(&self) -> (r: bool)
        ensures
            r == self.nvm_busy(),
    {
        self.0 & Self::NVM_BUSY_BIT == Self::NVM_BUSY_BIT
    }

    /// Activity, as defined in the ACT_THRESH_x and ACT_COUNT registers, is detected.
    pub fn is_activity_detected(&self) -> (r: bool)
        ensures
            r == has_bits(self.0, 0x08),
    {
        self.0 & Self::ACTIVITY_BIT == Self::ACTIVITY_BIT
    }

    /// FIFO has overrun, and the oldest data is lost.
    pub fn is_fifo_overrun(&self) -> (r: bool)
        ensures
            r == has_bits(self.0, 0x04),
    {
        self.0 & Self::FIFO_OVERRUN_BIT == Self::FIFO_OVERRUN_BIT
    }

    /// FIFO watermark is reached.
    pub fn is_fifo_full(&self) -> (r: bool)
        ensures
            r == has_bits(self.0, 0x02),
    {
        self.0 & Self::FIFO_FULL_BIT == Self::FIFO_FULL_BIT
    }

    /// A complete x-axis, y-axis, and z-axis measurement was made and results can be read.
    pub fn is_data_ready(&self) -> (r: bool)
        ensures
            r == has_bits(self.0, 0x01),
    {
        self.0 & Self::DATA_READY_BIT == Self::DATA_READY_BIT
    }
}

} // verus!
