//! What the bus answers, what the driver reads from a register, and what an
//! operation gives back.

use vstd::prelude::*;
use crate::bus::Transfer;
use crate::codec::{
    fifo_entries, fifo_entries_of, i16_of, millicelsius_of, offset_trims_from_registers,
    temperature_from_registers, temperature_millicelsius, temperature_of,
};
use crate::config::{Config, HpfCorner, Odr, Range};
use crate::error::Error;
use crate::modes::Mode;
use crate::register::Register;
use crate::request::{Request, RequestView};
use crate::sample::{
    acc_buf_to_raw_sample, acc_buf_to_sample, raw_sample_of, sample_of, RawSample, Sample,
};
use crate::status::Status;

verus! {

/// What the bus answered to a transfer.
#[derive(Debug)]
pub enum Reply<E> {
    /// The bytes that were read.
    Data(Vec<u8>),
    /// The bytes were written.
    Written,
    /// The transfer failed.
    Failed(E),
}

/// What an operation gives back.
#[derive(Debug, PartialEq, Eq)]
pub enum Outcome {
    /// A register was written, the device was reset, or it was configured.
    Done,
    /// The device status.
    Status(Status),
    /// The device ID.
    DeviceId(u8),
    /// The product revision ID.
    RevisionId(u8),
    /// The mode of the device.
    Mode(Mode),
    /// The range of the device.
    Range(Range),
    /// The output data rate of the device.
    OdrLpf(Odr),
    /// The high-pass filter corner of the device.
    HpfCorner(HpfCorner),
    /// The configuration of the device.
    Config(Config),
    /// The raw temperature.
    TemperatureRaw(u16),
    /// The temperature in thousandths of a degree Celsius.
    Temperature(i32),
    /// The raw acceleration.
    RawAccelSample(RawSample),
    /// The acceleration in billionths of a g.
    AccelSample(Sample),
    /// The number of entries in the FIFO.
    NbSamplesInFifo(u8),
    /// The offset trims of the three axes.
    OffsetTrims(i16, i16, i16),
    /// The raw samples that were read from the FIFO.
    FifoRawData(Vec<RawSample>),
    /// The samples that were read from the FIFO, in billionths of a g.
    FifoData(Vec<Sample>),
}

/// What the driver wants next.
#[derive(Debug)]
pub enum Step<E: core::fmt::Debug> {
    /// This transfer is to be made, and its reply handed to the driver.
    Transfer(Transfer),
    /// The operation is over.
    Done(Result<Outcome, Error<E>>),
}

/// A value that is read from the device in one access.
#[derive(Copy, Clone, Debug, PartialEq, Eq, Structural)]
pub enum Query {
    Status,
    DeviceId,
    RevisionId,
    Mode,
    Range,
    OdrLpf,
    HpfCorner,
    TemperatureRaw,
    Temperature,
    RawAccelSample,
    AccelSample,
    NbSamplesInFifo,
    OffsetTrims,
}

impl Query {
    /// The registers that hold the value.
    pub open spec fn request(self) -> RequestView {
        match self {
            Query::Status => RequestView::read(Register::STATUS, 1),
            Query::DeviceId => RequestView::read(Register::PARTID, 1),
            Query::RevisionId => RequestView::read(Register::REVID, 1),
            Query::Mode => RequestView::read(Register::POWER_CTL, 1),
            Query::Range => RequestView::read(Register::RANGE, 1),
            Query::OdrLpf => RequestView::read(Register::FILTER, 1),
            Query::HpfCorner => RequestView::read(Register::FILTER, 1),
            Query::TemperatureRaw => RequestView::read(Register::TEMP2, 2),
            Query::Temperature => RequestView::read(Register::TEMP2, 2),
            Query::RawAccelSample => RequestView::read(Register::XDATA3, 9),
            Query::AccelSample => RequestView::read(Register::XDATA3, 9),
            Query::NbSamplesInFifo => RequestView::read(Register::FIFO_ENTRIES, 1),
            Query::OffsetTrims => RequestView::read(Register::OFFSET_X_H, 6),
        }
    }

    /// The value that the register bytes `data` stand for, for a device set to
    /// `range`. A range, rate or corner field that selects no setting is
    /// reported with the register value.
    pub open spec fn decode<E: core::fmt::Debug>(self, data: Seq<u8>, range: Range) -> Result<
        Outcome,
        Error<E>,
    > {
        match self {
            Query::Status => Ok(Outcome::Status(Status(data[0]))),
            Query::DeviceId => Ok(Outcome::DeviceId(data[0])),
            Query::RevisionId => Ok(Outcome::RevisionId(data[0])),
            Query::Mode => Ok(Outcome::Mode(Mode(data[0]))),
            Query::Range => match Range::decode(data[0]) {
                Some(r) => Ok(Outcome::Range(r)),
                None => Err(Error::UnexpectedRegisterValue(data[0])),
            },
            Query::OdrLpf => match Odr::decode(data[0]) {
                Some(odr) => Ok(Outcome::OdrLpf(odr)),
                None => Err(Error::UnexpectedRegisterValue(data[0])),
            },
            Query::HpfCorner => match HpfCorner::decode(data[0]) {
                Some(hpf) => Ok(Outcome::HpfCorner(hpf)),
                None => Err(Error::UnexpectedRegisterValue(data[0])),
            },
            Query::TemperatureRaw => Ok(
                Outcome::TemperatureRaw(temperature_of(data[0], data[1]) as u16),
            ),
            Query::Temperature => Ok(
                Outcome::Temperature(millicelsius_of(temperature_of(data[0], data[1])) as i32),
            ),
            Query::RawAccelSample => Ok(Outcome::RawAccelSample(raw_sample_of(data))),
            Query::AccelSample => Ok(
                Outcome::AccelSample(sample_of(data, range.spec_scale_factor())),
            ),
            Query::NbSamplesInFifo => Ok(Outcome::NbSamplesInFifo(fifo_entries_of(data[0]) as u8)),
            Query::OffsetTrims => Ok(
                Outcome::OffsetTrims(
                    i16_of(data[0], data[1]) as i16,
                    i16_of(data[2], data[3]) as i16,
                    i16_of(data[4], data[5]) as i16,
                ),
            ),
        }
    }

    /// The read of the registers that hold the value.
    pub fn to_request(self) -> (r: Request)
        ensures
            r@ == self.request(),
    {
        match self {
            Query::Status => Request::read(Register::STATUS, 1),
            Query::DeviceId => Request::read(Register::PARTID, 1),
            Query::RevisionId => Request::read(Register::REVID, 1),
            Query::Mode => Request::read(Register::POWER_CTL, 1),
            Query::Range => Request::read(Register::RANGE, 1),
            Query::OdrLpf => Request::read(Register::FILTER, 1),
            Query::HpfCorner => Request::read(Register::FILTER, 1),
            Query::TemperatureRaw => Request::read(Register::TEMP2, 2),
            Query::Temperature => Request::read(Register::TEMP2, 2),
            Query::RawAccelSample => Request::read(Register::XDATA3, 9),
            Query::AccelSample => Request::read(Register::XDATA3, 9),
            Query::NbSamplesInFifo => Request::read(Register::FIFO_ENTRIES, 1),
            Query::OffsetTrims => Request::read(Register::OFFSET_X_H, 6),
        }
    }

    /// Decodes the register bytes that were read.
    pub fn decoded<E: core::fmt::Debug>(self, data: &Vec<u8>, range: Range) -> (r: Result<
        Outcome,
        Error<E>,
    >)
        requires
            data.len() == self.request().reply_len(),
        ensures
            r == self.decode::<E>(data@, range),
    {
        match self {
            Query::Status => Ok(Outcome::Status(Status(data[0]))),
            Query::DeviceId => Ok(Outcome::DeviceId(data[0])),
            Query::RevisionId => Ok(Outcome::RevisionId(data[0])),
            Query::Mode => Ok(Outcome::Mode(Mode(data[0]))),
            Query::Range => match Range::checked_from(data[0]) {
                Some(r) => Ok(Outcome::Range(r)),
                None => Err(Error::UnexpectedRegisterValue(data[0])),
            },
            Query::OdrLpf => match Odr::checked_from(data[0]) {
                Some(odr) => Ok(Outcome::OdrLpf(odr)),
                None => Err(Error::UnexpectedRegisterValue(data[0])),
            },
            Query::HpfCorner => match HpfCorner::checked_from(data[0]) {
                Some(hpf) => Ok(Outcome::HpfCorner(hpf)),
                None => Err(Error::UnexpectedRegisterValue(data[0])),
            },
            Query::TemperatureRaw => Ok(
                Outcome::TemperatureRaw(temperature_from_registers(data[0], data[1])),
            ),
            Query::Temperature => Ok(
                Outcome::Temperature(
                    temperature_millicelsius(temperature_from_registers(data[0], data[1])),
                ),
            ),
            Query::RawAccelSample => {
                let buf = nine(data);
                let mut sample = RawSample { x: 0, y: 0, z: 0 };
                acc_buf_to_raw_sample(&buf, &mut sample);
                Ok(Outcome::RawAccelSample(sample))
            },
            Query::AccelSample => {
                let buf = nine(data);
                let mut sample = Sample { x: 0, y: 0, z: 0 };
                acc_buf_to_sample(&buf, &mut sample, range.scale_factor());
                Ok(Outcome::AccelSample(sample))
            },
            Query::NbSamplesInFifo => Ok(Outcome::NbSamplesInFifo(fifo_entries(data[0]))),
            Query::OffsetTrims => {
                let buf = [data[0], data[1], data[2], data[3], data[4], data[5]];
                let (x, y, z) = offset_trims_from_registers(&buf);
                Ok(Outcome::OffsetTrims(x, y, z))
            },
        }
    }
}

/// The nine bytes of a sample, as an array.
fn nine(data: &Vec<u8>) -> (buf: [u8; 9])
    requires
        data.len() == 9,
    ensures
        buf@ == data@,
{
    let buf = [
        data[0],
        data[1],
        data[2],
        data[3],
        data[4],
        data[5],
        data[6],
        data[7],
        data[8],
    ];
    assert(buf@ =~= data@);
    buf
}

} // verus!
