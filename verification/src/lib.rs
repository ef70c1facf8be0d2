//! Driver core for the ADXL355 three-axis accelerometer.
//!
//! The core holds everything that the driver decides: which registers an
//! operation reads and writes, in which order, how they are framed on the
//! 4-wire and on the 2-wire bus, and what the bytes that come back mean. It
//! makes no transfer itself. An operation gives a [`Step`]: a [`Transfer`]
//! for the owner of the bus to make, or the result. The reply to a transfer
//! goes to [`Adxl355::resume`], which gives the next step.
//!
//! A driver is obtained from [`Adxl355::new_spi`] or [`Adxl355::new_i2c`]
//! through an [`Identification`], which reads the part ID, the shadow
//! registers and the range of the device in the same way.
//!
//! Accelerations are given raw, as signed 20-bit numbers, or in billionths of
//! a g; rates in thousandths of a hertz. All arithmetic is exact.
//!
//! An operation is run like this, where `make` stands for the bus:
//!
//! ```text
//! let mut step = driver.get_status();
//! let result = loop {
//!     match step {
//!         Step::Transfer(transfer) => step = driver.resume(make(&transfer)),
//!         Step::Done(result) => break result,
//!     }
//! };
//! ```

use vstd::prelude::*;

pub mod bits;
pub mod bus;
pub mod codec;
pub mod config;
pub mod device;
pub mod error;
pub mod fifo;
pub mod interrupt;
pub mod lifecycle;
pub mod modes;
pub mod outcome;
pub mod register;
pub mod request;
pub mod sample;
pub mod status;

pub use bus::{DeviceI2cAddress, I2cProtocol, Protocol, SpiProtocol, Transfer, TransferView};
pub use config::{Config, HpfCorner, Odr, Range};
pub use device::{Adxl355, Identification, Identified, Pending};
pub use error::Error;
pub use fifo::{FifoReader, FifoStage};
pub use interrupt::{InterruptConfig, InterruptPolarity};
pub use lifecycle::{
    Configure, ConfigureStage, Identify, IdentifyStage, Reset, ResetStage, DEVICE_ID, RESET_CODE,
    RESET_RETRIES,
};
pub use modes::{ExternalSyncMode, I2cSpeedMode, Mode};
pub use outcome::{Outcome, Query, Reply, Step};
pub use register::Register;
pub use request::{Progress, Request, RequestView};
pub use sample::{RawSample, Sample};
pub use status::Status;

