//! Driver errors.

use vstd::prelude::*;

verus! {

/// Driver errors
#[derive(Copy, Clone, Debug)]
pub enum Error<ProtocolError: core::fmt::Debug> {
    /// Protocol error.
    Protocol(ProtocolError),
    /// Device ID is not 0xED.
    BadDeviceId(u8),
    /// Device is in measure mode and cannot be configured.
    DeviceRunning,
    /// Software reset failed to reset device properly.
    SoftResetFailed,
    /// The max number of samples to store in the fifo is invalid. Must range from 1 to 96.
    InvalidMaxNbFifoSamples,
    /// The fifo does not contain enough data to get one sample with the 3-axis values.
    NotEnoughData,
    /// A register holds a value that selects no setting.
    UnexpectedRegisterValue(u8),
}

} // verus!
