//! Register map of the ADXL355.

use vstd::prelude::*;

verus! {

/// ADXL355 register map.
#[allow(non_camel_case_types)]
#[derive(Copy, Clone, Debug, PartialEq, Eq, Structural)]
pub enum Register {
    /// Analog Devices ID, `0xAD`.
    DEVID_AD,
    /// Analog Devices MEMS ID, `0x1D`.
    DEVID_MST,
    /// Device ID, `0xED`.
    PARTID,
    /// Product revision ID.
    REVID,
    /// Conditions of the device, see [`crate::status::Status`].
    STATUS,
    /// Number of valid data samples present in the FIFO buffer.
    FIFO_ENTRIES,
    /// Four most significant bits of the uncalibrated temperature.
    TEMP2,
    /// Eight least significant bits of the uncalibrated temperature.
    TEMP1,
    /// X-axis data, bits 19 to 12.
    XDATA3,
    /// X-axis data, bits 11 to 4.
    XDATA2,
    /// X-axis data, bits 3 to 0, left justified.
    XDATA1,
    /// Y-axis data, bits 19 to 12.
    YDATA3,
    /// Y-axis data, bits 11 to 4.
    YDATA2,
    /// Y-axis data, bits 3 to 0, left justified.
    YDATA1,
    /// Z-axis data, bits 19 to 12.
    ZDATA3,
    /// Z-axis data, bits 11 to 4.
    ZDATA2,
    /// Z-axis data, bits 3 to 0, left justified.
    ZDATA1,
    /// Access to the data stored in the FIFO.
    FIFO_DATA,
    /// X-axis offset trim, bits 15 to 8.
    OFFSET_X_H,
    /// X-axis offset trim, bits 7 to 0.
    OFFSET_X_L,
    /// Y-axis offset trim, bits 15 to 8.
    OFFSET_Y_H,
    /// Y-axis offset trim, bits 7 to 0.
    OFFSET_Y_L,
    /// Z-axis offset trim, bits 15 to 8.
    OFFSET_Z_H,
    /// Z-axis offset trim, bits 7 to 0.
    OFFSET_Z_L,
    /// Activity enable register.
    ACT_EN,
    /// Activity threshold, bits 15 to 8.
    ACT_THRESH_H,
    /// Activity threshold, bits 7 to 0.
    ACT_THRESH_L,
    /// Number of consecutive events above threshold required to detect activity.
    ACT_COUNT,
    /// Parameters of the internal high-pass and low-pass filters.
    FILTER,
    /// Number of samples to store in the FIFO.
    FIFO_SAMPLES,
    /// Interrupt pin configuration.
    INT_MAP,
    /// External timing triggers.
    SYNC,
    /// I2C speed, interrupt polarity, and range.
    RANGE,
    /// Power control.
    POWER_CTL,
    /// Self test feature.
    SELF_TEST,
    /// Writing `0x52` to this register resets the device.
    RESET,
    /// Shadow register 1.
    SHADOW_REG1,
    /// Shadow register 2.
    SHADOW_REG2,
    /// Shadow register 3.
    SHADOW_REG3,
    /// Shadow register 4.
    SHADOW_REG4,
    /// Shadow register 5.
    SHADOW_REG5,
}

impl Register {
    /// The one-byte address of the register on the chip.
    pub open spec fn spec_addr(self) -> u8 {
        match self {
            Register::DEVID_AD => 0x00,
            Register::DEVID_MST => 0x01,
            Register::PARTID => 0x02,
            Register::REVID => 0x03,
            Register::STATUS => 0x04,
            Register::FIFO_ENTRIES => 0x05,
            Register::TEMP2 => 0x06,
            Register::TEMP1 => 0x07,
            Register::XDATA3 => 0x08,
            Register::XDATA2 => 0x09,
            Register::XDATA1 => 0x0A,
            Register::YDATA3 => 0x0B,
            Register::YDATA2 => 0x0C,
            Register::YDATA1 => 0x0D,
            Register::ZDATA3 => 0x0E,
            Register::ZDATA2 => 0x0F,
            Register::ZDATA1 => 0x10,
            Register::FIFO_DATA => 0x11,
            Register::OFFSET_X_H => 0x1E,
            Register::OFFSET_X_L => 0x1F,
            Register::OFFSET_Y_H => 0x20,
            Register::OFFSET_Y_L => 0x21,
            Register::OFFSET_Z_H => 0x22,
            Register::OFFSET_Z_L => 0x23,
            Register::ACT_EN => 0x24,
            Register::ACT_THRESH_H => 0x25,
            Register::ACT_THRESH_L => 0x26,
            Register::ACT_COUNT => 0x27,
            Register::FILTER => 0x28,
            Register::FIFO_SAMPLES => 0x29,
            Register::INT_MAP => 0x2A,
            Register::SYNC => 0x2B,
            Register::RANGE => 0x2C,
            Register::POWER_CTL => 0x2D,
            Register::SELF_TEST => 0x2E,
            Register::RESET => 0x2F,
            Register::SHADOW_REG1 => 0x50,
            Register::SHADOW_REG2 => 0x51,
            Register::SHADOW_REG3 => 0x52,
            Register::SHADOW_REG4 => 0x53,
            Register::SHADOW_REG5 => 0x54,
        }
    }

    /// The read-only part of the address space: the identification, status and
    /// data registers up to the FIFO data register, and the shadow registers.
    pub open spec fn read_only_address(addr: u8) -> bool {
        addr <= 0x11 || (0x50 <= addr && addr <= 0x54)
    }

    /// Get register address
    #[verifier::when_used_as_spec(spec_addr)]
    pub fn addr(self) -> (a: u8)
        ensures
            a == self.spec_addr(),
            a <= 0x54,
    {
        match self {
            Register::DEVID_AD => 0x00,
            Register::DEVID_MST => 0x01,
            Register::PARTID => 0x02,
            Register::REVID => 0x03,
            Register::STATUS => 0x04,
            Register::FIFO_ENTRIES => 0x05,
            Register::TEMP2 => 0x06,
            Register::TEMP1 => 0x07,
            Register::XDATA3 => 0x08,
            Register::XDATA2 => 0x09,
            Register::XDATA1 => 0x0A,
            Register::YDATA3 => 0x0B,
            Register::YDATA2 => 0x0C,
            Register::YDATA1 => 0x0D,
            Register::ZDATA3 => 0x0E,
            Register::ZDATA2 => 0x0F,
            Register::ZDATA1 => 0x10,
            Register::FIFO_DATA => 0x11,
            Register::OFFSET_X_H => 0x1E,
            Register::OFFSET_X_L => 0x1F,
            Register::OFFSET_Y_H => 0x20,
            Register::OFFSET_Y_L => 0x21,
            Register::OFFSET_Z_H => 0x22,
            Register::OFFSET_Z_L => 0x23,
            Register::ACT_EN => 0x24,
            Register::ACT_THRESH_H => 0x25,
            Register::ACT_THRESH_L => 0x26,
            Register::ACT_COUNT => 0x27,
            Register::FILTER => 0x28,
            Register::FIFO_SAMPLES => 0x29,
            Register::INT_MAP => 0x2A,
            Register::SYNC => 0x2B,
            Register::RANGE => 0x2C,
            Register::POWER_CTL => 0x2D,
            Register::SELF_TEST => 0x2E,
            Register::RESET => 0x2F,
            Register::SHADOW_REG1 => 0x50,
            Register::SHADOW_REG2 => 0x51,
            Register::SHADOW_REG3 => 0x52,
            Register::SHADOW_REG4 => 0x53,
            Register::SHADOW_REG5 => 0x54,
        }
    }

    /// Check if the register address is read-only.
    pub fn read_only(self) -> (r: bool)
        ensures
            r == Self::read_only_address(self.spec_addr()),
    {
        matches!(
            self,
            Register::DEVID_AD
                | Register::DEVID_MST
                | Register::PARTID
                | Register::REVID
                | Register::STATUS
                | Register::FIFO_ENTRIES
                | Register::TEMP2
                | Register::TEMP1
                | Register::XDATA3
                | Register::XDATA2
                | Register::XDATA1
                | Register::YDATA3
                | Register::YDATA2
                | Register::YDATA1
                | Register::ZDATA3
                | Register::ZDATA2
                | Register::ZDATA1
                | Register::FIFO_DATA
                | Register::SHADOW_REG1
                | Register::SHADOW_REG2
                | Register::SHADOW_REG3
                | Register::SHADOW_REG4
                | Register::SHADOW_REG5
        )
    }

    /// No two registers share an address.
    pub proof fn lemma_addr_injective(a: Register, b: Register)
        requires
            a.spec_addr() == b.spec_addr(),
        ensures
            a == b,
    {
    }
}

} // verus!
