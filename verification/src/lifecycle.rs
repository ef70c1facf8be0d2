//! Identification, reset and configuration of the device.
//!
//! A device is identified by its part ID. Its five shadow registers are read
//! once, before any reset, and kept as a fingerprint. A reset writes the reset
//! code, waits for the NVM to be loaded, and is held to have worked only if
//! the shadow registers read as the fingerprint. A configuration always
//! begins with a reset, and writes nothing more unless the device then
//! reports standby.

use vstd::prelude::*;
use crate::config::{Config, Range};
use crate::error::Error;
use crate::modes::Mode;
use crate::register::Register;
use crate::request::{Progress, Request, RequestView};
use crate::status::Status;

verus! {

/// Device identification value for the ADXL355.
pub const DEVICE_ID: u8 = 0xED;

/// The code that resets the device when it is written to the reset register.
pub const RESET_CODE: u8 = 0x52;

/// How often the status is read again while the NVM is busy after a reset.
pub const RESET_RETRIES: u8 = 255;

/// `true` when `data` holds the five bytes of `fingerprint`.
pub fn same_fingerprint(fingerprint: &[u8; 5], data: &Vec<u8>) -> (same: bool)
    requires
        data.len() == 5,
    ensures
        same == (data@ == fingerprint@),
{
    let same = data[0] == fingerprint[0] && data[1] == fingerprint[1] && data[2] == fingerprint[2]
        && data[3] == fingerprint[3] && data[4] == fingerprint[4];
    proof {
        if same {
            assert(data@ =~= fingerprint@);
        }
    }
    same
}

/// Where a reset stands.
#[derive(Copy, Clone, Debug, PartialEq, Eq, Structural)]
pub enum ResetStage {
    /// The reset code is being written.
    Command,
    /// The status is being read.
    Poll,
    /// The shadow registers are being read.
    Fingerprint,
    /// The NVM was loaded and the shadow registers read as the fingerprint.
    Verified,
    /// The NVM stayed busy, or the shadow registers differ from the fingerprint.
    Failed,
}

/// The write that resets the device.
pub open spec fn reset_write() -> RequestView {
    RequestView::write(Register::RESET, seq![RESET_CODE])
}

/// A reset of the device, checked.
pub struct Reset {
    stage: ResetStage,
    retries: u8,
    polls: Ghost<nat>,
}

impl Reset {
    /// Where the reset stands.
    pub closed spec fn stage(&self) -> ResetStage {
        self.stage
    }

    /// How often the status may be read again.
    pub closed spec fn retries(&self) -> nat {
        self.retries as nat
    }

    /// How often the status was read.
    pub closed spec fn polls(&self) -> nat {
        self.polls@
    }

    /// The invariant of a reset: the status is read at most once more than
    /// there are retries.
    pub open spec fn wf(&self) -> bool {
        match self.stage() {
            ResetStage::Command => self.polls() == 0,
            ResetStage::Poll => self.polls() + self.retries() == RESET_RETRIES,
            _ => 1 <= self.polls() <= RESET_RETRIES + 1,
        }
    }

    /// The access that the reset waits for the reply of, if any.
    pub open spec fn awaited(&self) -> Option<RequestView> {
        match self.stage() {
            ResetStage::Command => Some(reset_write()),
            ResetStage::Poll => Some(RequestView::read(Register::STATUS, 1)),
            ResetStage::Fingerprint => Some(RequestView::read(Register::SHADOW_REG1, 5)),
            ResetStage::Verified => None,
            ResetStage::Failed => None,
        }
    }

    /// A bound on the number of replies that the reset still takes.
    pub open spec fn remaining(&self) -> nat {
        match self.stage() {
            ResetStage::Command => RESET_RETRIES as nat + 3,
            ResetStage::Poll => self.retries() + 2,
            ResetStage::Fingerprint => 1,
            ResetStage::Verified => 0,
            ResetStage::Failed => 0,
        }
    }

    /// The result of the reset, once it is over.
    pub open spec fn outcome<E: core::fmt::Debug>(&self) -> Option<Result<(), Error<E>>> {
        match self.stage() {
            ResetStage::Verified => Some(Ok(())),
            ResetStage::Failed => Some(Err(Error::SoftResetFailed)),
            _ => None,
        }
    }

    /// How a reset stands after `prev` took the reply `data`, for a device
    /// with the given fingerprint. This fixes every access and the result of
    /// the reset.
    ///
    /// - Once the reset code is written the status is read.
    /// - A status with the NVM busy bit clear leads to the reading of the
    ///   shadow registers. With the bit set the status is read again, unless
    ///   no retry is left: then the reset has failed.
    /// - Shadow registers that read as the fingerprint verify the reset; any
    ///   other value fails it.
    pub open spec fn follows(&self, prev: &Reset, fingerprint: Seq<u8>, data: Seq<u8>) -> bool {
        match prev.stage() {
            ResetStage::Command => {
                &&& self.stage() == ResetStage::Poll
                &&& self.retries() == RESET_RETRIES
                &&& self.polls() == 0
            },
            ResetStage::Poll => {
                &&& self.polls() == prev.polls() + 1
                &&& self.stage() == (if !Status(data[0]).nvm_busy() {
                    ResetStage::Fingerprint
                } else if prev.retries() > 0 {
                    ResetStage::Poll
                } else {
                    ResetStage::Failed
                })
                &&& self.stage() == ResetStage::Poll ==> self.retries() == prev.retries() - 1
            },
            ResetStage::Fingerprint => {
                &&& self.polls() == prev.polls()
                &&& self.stage() == (if data == fingerprint {
                    ResetStage::Verified
                } else {
                    ResetStage::Failed
                })
            },
            ResetStage::Verified | ResetStage::Failed => *self == *prev,
        }
    }

    /// A reset, and its first access: the write of the reset code.
    pub fn new() -> (r: (Reset, Request))
        ensures
            r.0.wf(),
            r.0.stage() == ResetStage::Command,
            Some(r.1@) == r.0.awaited(),
    {
        let reset = Reset { stage: ResetStage::Command, retries: RESET_RETRIES, polls: Ghost(0) };
        (reset, Request::write(Register::RESET, RESET_CODE))
    }

    /// Takes the reply to the access that the reset waits for, and gives the
    /// next access or, when the reset is over, its result.
    pub fn resume<E: core::fmt::Debug>(&mut self, fingerprint: &[u8; 5], data: &Vec<u8>) -> (p:
        Progress<Result<(), Error<E>>>)
        requires
            old(self).wf(),
            old(self).awaited() is Some,
            data.len() == old(self).awaited()->0.reply_len(),
        ensures
            final(self).wf(),
            final(self).follows(old(self), fingerprint@, data@),
            final(self).remaining() < old(self).remaining(),
            match p {
                Progress::Request(q) => Some(q@) == final(self).awaited(),
                Progress::Done(r) => Some(r) == final(self).outcome::<E>(),
            },
    {
        match self.stage {
            ResetStage::Command => {
                self.stage = ResetStage::Poll;
                self.retries = RESET_RETRIES;
                Progress::Request(Request::read(Register::STATUS, 1))
            },
            ResetStage::Poll => {
                self.polls = Ghost(self.polls@ + 1);
                if !Status(data[0]).is_nvm_busy() {
                    self.stage = ResetStage::Fingerprint;
                    Progress::Request(Request::read(Register::SHADOW_REG1, 5))
                } else if self.retries > 0 {
                    self.retries = self.retries - 1;
                    Progress::Request(Request::read(Register::STATUS, 1))
                } else {
                    self.stage = ResetStage::Failed;
                    Progress::Done(Err(Error::SoftResetFailed))
                }
            },
            ResetStage::Fingerprint => {
                if same_fingerprint(fingerprint, data) {
                    self.stage = ResetStage::Verified;
                    Progress::Done(Ok(()))
                } else {
                    self.stage = ResetStage::Failed;
                    Progress::Done(Err(Error::SoftResetFailed))
                }
            },
            ResetStage::Verified => Progress::Done(Ok(())),
            ResetStage::Failed => Progress::Done(Err(Error::SoftResetFailed)),
        }
    }

    /// Shadow registers that differ from the fingerprint fail the reset, also
    /// once the NVM is no longer busy.
    pub proof fn lemma_fingerprint_mismatch_fails<E: core::fmt::Debug>(
        &self,
        prev: &Reset,
        fingerprint: Seq<u8>,
        data: Seq<u8>,
    )
        requires
            prev.stage() == ResetStage::Fingerprint,
            self.follows(prev, fingerprint, data),
            data != fingerprint,
        ensures
            self.outcome::<E>() == Some(Err::<(), Error<E>>(Error::SoftResetFailed)),
    {
    }

    /// A reset whose NVM is still busy when the last retry is used up has failed.
    pub proof fn lemma_exhausted_retries_fail<E: core::fmt::Debug>(
        &self,
        prev: &Reset,
        fingerprint: Seq<u8>,
        data: Seq<u8>,
    )
        requires
            prev.wf(),
            prev.stage() == ResetStage::Poll,
            prev.polls() == RESET_RETRIES,
            self.follows(prev, fingerprint, data),
            Status(data[0]).nvm_busy(),
        ensures
            self.outcome::<E>() == Some(Err::<(), Error<E>>(Error::SoftResetFailed)),
    {
    }
}

/// Where a configuration stands.
#[derive(Copy, Clone, Debug, PartialEq, Eq, Structural)]
pub enum ConfigureStage {
    /// The device is being reset.
    Reset,
    /// The power control register is being read.
    Mode,
    /// The filter register is being written.
    Filter,
    /// The range register is being read.
    RangeRead,
    /// The range register is being written.
    RangeWrite,
    /// The configuration is applied.
    Applied,
    /// The device was not in standby after the reset.
    Running,
    /// The reset has failed.
    ResetFailed,
}

/// The application of a configuration to the device.
pub struct Configure {
    config: Config,
    reset: Reset,
    stage: ConfigureStage,
    range_value: u8,
    writes: Ghost<Seq<RequestView>>,
}

impl Configure {
    /// The configuration being applied.
    pub closed spec fn config(&self) -> Config {
        self.config
    }

    /// The reset that the configuration begins with.
    pub closed spec fn reset(&self) -> Reset {
        self.reset
    }

    /// Where the configuration stands.
    pub closed spec fn stage(&self) -> ConfigureStage {
        self.stage
    }

    /// The value that the range register is given.
    pub closed spec fn range_value(&self) -> u8 {
        self.range_value
    }

    /// The writes asked for so far, in order.
    pub closed spec fn writes(&self) -> Seq<RequestView> {
        self.writes@
    }

    /// The write of the filter register.
    pub open spec fn filter_write(&self) -> RequestView {
        RequestView::write(
            Register::FILTER,
            seq![Config::spec_filter_byte(self.config().odr, self.config().hpf)],
        )
    }

    /// The write of the range register.
    pub open spec fn range_write(&self) -> RequestView {
        RequestView::write(Register::RANGE, seq![self.range_value()])
    }

    /// The invariant of a configuration: which writes were asked for at each
    /// stage.
    pub open spec fn wf(&self) -> bool {
        &&& self.reset().wf()
        &&& match self.stage() {
            ConfigureStage::Reset => {
                &&& self.reset().awaited() is Some
                &&& self.writes() == seq![reset_write()]
            },
            ConfigureStage::Mode => {
                &&& self.reset().stage() == ResetStage::Verified
                &&& self.writes() == seq![reset_write()]
            },
            ConfigureStage::Filter | ConfigureStage::RangeRead => {
                &&& self.reset().stage() == ResetStage::Verified
                &&& self.writes() == seq![reset_write(), self.filter_write()]
            },
            ConfigureStage::RangeWrite | ConfigureStage::Applied => {
                &&& self.reset().stage() == ResetStage::Verified
                &&& self.writes() == seq![reset_write(), self.filter_write(), self.range_write()]
                &&& Range::decode(self.range_value()) == Some(self.config().range)
            },
            ConfigureStage::Running => {
                &&& self.reset().stage() == ResetStage::Verified
                &&& self.writes() == seq![reset_write()]
            },
            ConfigureStage::ResetFailed => {
                &&& self.reset().stage() == ResetStage::Failed
                &&& self.writes() == seq![reset_write()]
            },
        }
    }

    /// The access that the configuration waits for the reply of, if any.
    pub open spec fn awaited(&self) -> Option<RequestView> {
        match self.stage() {
            ConfigureStage::Reset => self.reset().awaited(),
            ConfigureStage::Mode => Some(RequestView::read(Register::POWER_CTL, 1)),
            ConfigureStage::Filter => Some(self.filter_write()),
            ConfigureStage::RangeRead => Some(RequestView::read(Register::RANGE, 1)),
            ConfigureStage::RangeWrite => Some(self.range_write()),
            ConfigureStage::Applied => None,
            ConfigureStage::Running => None,
            ConfigureStage::ResetFailed => None,
        }
    }

    /// A bound on the number of replies that the configuration still takes.
    pub open spec fn remaining(&self) -> nat {
        match self.stage() {
            ConfigureStage::Reset => self.reset().remaining() + 4,
            ConfigureStage::Mode => 4,
            ConfigureStage::Filter => 3,
            ConfigureStage::RangeRead => 2,
            ConfigureStage::RangeWrite => 1,
            ConfigureStage::Applied => 0,
            ConfigureStage::Running => 0,
            ConfigureStage::ResetFailed => 0,
        }
    }

    /// The result of the configuration, once it is over: the range that the
    /// device now has, or why it was not configured.
    pub open spec fn outcome<E: core::fmt::Debug>(&self) -> Option<Result<Range, Error<E>>> {
        match self.stage() {
            ConfigureStage::Applied => Some(Ok(self.config().range)),
            ConfigureStage::Running => Some(Err(Error::DeviceRunning)),
            ConfigureStage::ResetFailed => Some(Err(Error::SoftResetFailed)),
            _ => None,
        }
    }

    /// How a configuration stands after `prev` took the reply `data`, for a
    /// device with the given fingerprint. Together with the invariant this
    /// fixes every access and the result of the configuration.
    ///
    /// - The reset goes on until it is over. A failed reset fails the
    ///   configuration; after a verified one the power control register is
    ///   read.
    /// - Without the standby bit in it the device is running, and the
    ///   configuration is over. With it the filter register is written.
    /// - Then the range register is read, and written with the range bits
    ///   replaced and the other bits kept.
    /// - Every write that is asked for is added to the writes.
    pub open spec fn follows(&self, prev: &Configure, fingerprint: Seq<u8>, data: Seq<u8>) -> bool {
        &&& self.config() == prev.config()
        &&& self.writes() == (match self.awaited() {
            Some(RequestView::Write { start, payload }) => prev.writes().push(
                RequestView::write(start, payload),
            ),
            _ => prev.writes(),
        })
        &&& match prev.stage() {
            ConfigureStage::Reset => {
                &&& self.reset().follows(&prev.reset(), fingerprint, data)
                &&& self.stage() == match self.reset().stage() {
                    ResetStage::Verified => ConfigureStage::Mode,
                    ResetStage::Failed => ConfigureStage::ResetFailed,
                    _ => ConfigureStage::Reset,
                }
            },
            ConfigureStage::Mode => {
                &&& self.reset() == prev.reset()
                &&& self.stage() == (if Mode(data[0]).in_standby() {
                    ConfigureStage::Filter
                } else {
                    ConfigureStage::Running
                })
            },
            ConfigureStage::Filter => {
                &&& self.reset() == prev.reset()
                &&& self.stage() == ConfigureStage::RangeRead
            },
            ConfigureStage::RangeRead => {
                &&& self.reset() == prev.reset()
                &&& self.stage() == ConfigureStage::RangeWrite
                &&& self.range_value() == self.config().range.spec_install(data[0])
            },
            ConfigureStage::RangeWrite => {
                &&& self.reset() == prev.reset()
                &&& self.stage() == ConfigureStage::Applied
                &&& self.range_value() == prev.range_value()
            },
            _ => *self == *prev,
        }
    }

    /// The application of `config`, and its first access: the write of the
    /// reset code.
    pub fn new(config: Config) -> (r: (Configure, Request))
        ensures
            r.0.wf(),
            r.0.config() == config,
            r.0.stage() == ConfigureStage::Reset,
            r.0.reset().stage() == ResetStage::Command,
            r.0.writes() == seq![r.1@],
            Some(r.1@) == r.0.awaited(),
    {
        let (reset, request) = Reset::new();
        let ghost writes = seq![reset_write()];
        let configure = Configure {
            config,
            reset,
            stage: ConfigureStage::Reset,
            range_value: 0,
            writes: Ghost(writes),
        };
        (configure, request)
    }

    /// Takes the reply to the access that the configuration waits for, and
    /// gives the next access or, when the configuration is over, its result.
    pub fn resume<E: core::fmt::Debug>(&mut self, fingerprint: &[u8; 5], data: &Vec<u8>) -> (p:
        Progress<Result<Range, Error<E>>>)
        requires
            old(self).wf(),
            old(self).awaited() is Some,
            data.len() == old(self).awaited()->0.reply_len(),
        ensures
            final(self).wf(),
            final(self).follows(old(self), fingerprint@, data@),
            final(self).remaining() < old(self).remaining(),
            match p {
                Progress::Request(q) => Some(q@) == final(self).awaited(),
                Progress::Done(r) => Some(r) == final(self).outcome::<E>(),
            },
            p == Progress::<Result<Range, Error<E>>>::Done(Err(Error::DeviceRunning)) ==> final(self).writes() == seq![reset_write()],
    {
        match self.stage {
            ConfigureStage::Reset => {
                match self.reset.resume::<E>(fingerprint, data) {
                    Progress::Request(request) => Progress::Request(request),
                    Progress::Done(Ok(())) => {
                        self.stage = ConfigureStage::Mode;
                        Progress::Request(Request::read(Register::POWER_CTL, 1))
                    },
                    Progress::Done(Err(e)) => {
                        self.stage = ConfigureStage::ResetFailed;
                        Progress::Done(Err(Error::SoftResetFailed))
                    },
                }
            },
            ConfigureStage::Mode => {
                if !Mode(data[0]).is_in_standby() {
                    self.stage = ConfigureStage::Running;
                    return Progress::Done(Err(Error::DeviceRunning));
                }
                self.stage = ConfigureStage::Filter;
                self.writes = Ghost(self.writes@.push(self.filter_write()));
                assert(self.writes@ =~= seq![reset_write(), self.filter_write()]);
                Progress::Request(Request::write(Register::FILTER, self.config.filter_byte()))
            },
            ConfigureStage::Filter => {
                self.stage = ConfigureStage::RangeRead;
                Progress::Request(Request::read(Register::RANGE, 1))
            },
            ConfigureStage::RangeRead => {
                self.range_value = self.config.range.install(data[0]);
                self.stage = ConfigureStage::RangeWrite;
                self.writes = Ghost(self.writes@.push(self.range_write()));
                assert(self.writes@ =~= seq![
                    reset_write(),
                    self.filter_write(),
                    self.range_write(),
                ]);
                Progress::Request(Request::write(Register::RANGE, self.range_value))
            },
            ConfigureStage::RangeWrite => {
                self.stage = ConfigureStage::Applied;
                Progress::Done(Ok(self.config.range))
            },
            ConfigureStage::Applied => Progress::Done(Ok(self.config.range)),
            ConfigureStage::Running => Progress::Done(Err(Error::DeviceRunning)),
            ConfigureStage::ResetFailed => Progress::Done(Err(Error::SoftResetFailed)),
        }
    }

    /// A configuration that found the device running has asked for no write
    /// but that of the reset code.
    pub proof fn lemma_running_device_is_not_written(&self)
        requires
            self.wf(),
            self.stage() == ConfigureStage::Running,
        ensures
            self.writes() == seq![reset_write()],
    {
    }

    /// Every access that a configuration asks for spares the read-only registers.
    pub proof fn lemma_asks_spare_read_only(&self)
        requires
            self.wf(),
            self.awaited() is Some,
        ensures
            self.awaited()->0.spares_read_only(),
    {
    }

    /// Every write that a configuration asks for goes to a register that can
    /// be written.
    pub proof fn lemma_writes_spare_read_only(&self, i: int)
        requires
            self.wf(),
            0 <= i < self.writes().len(),
        ensures
            self.writes()[i].spares_read_only(),
    {
    }
}

/// Where an identification stands.
#[derive(Copy, Clone, Debug, PartialEq, Eq, Structural)]
pub enum IdentifyStage {
    /// The part ID is being read.
    PartId,
    /// The shadow registers are being read.
    Fingerprint,
    /// The range register is being read.
    Range,
    /// The device is an ADXL355, and its fingerprint and range are known.
    Identified,
    /// The part ID is not that of an ADXL355, or the range register selects no range.
    Rejected,
}

/// The identification of the device on the bus.
#[derive(Debug)]
pub struct Identify {
    stage: IdentifyStage,
    part_id: u8,
    fingerprint: [u8; 5],
    range_value: u8,
}

impl Identify {
    /// Where the identification stands.
    pub closed spec fn stage(&self) -> IdentifyStage {
        self.stage
    }

    /// The part ID that was read.
    pub closed spec fn part_id(&self) -> u8 {
        self.part_id
    }

    /// The shadow register values that were read.
    pub closed spec fn fingerprint(&self) -> Seq<u8> {
        self.fingerprint@
    }

    /// The range register value that was read.
    pub closed spec fn range_value(&self) -> u8 {
        self.range_value
    }

    /// The invariant of an identification: past the part ID the device is an
    /// ADXL355, and an identified device has a range.
    pub open spec fn wf(&self) -> bool {
        match self.stage() {
            IdentifyStage::PartId => true,
            IdentifyStage::Fingerprint | IdentifyStage::Range => self.part_id() == DEVICE_ID,
            IdentifyStage::Identified => self.part_id() == DEVICE_ID && Range::decode(
                self.range_value(),
            ) is Some,
            IdentifyStage::Rejected => self.part_id() != DEVICE_ID || Range::decode(
                self.range_value(),
            ) is None,
        }
    }

    /// The access that the identification waits for the reply of, if any.
    pub open spec fn awaited(&self) -> Option<RequestView> {
        match self.stage() {
            IdentifyStage::PartId => Some(RequestView::read(Register::PARTID, 1)),
            IdentifyStage::Fingerprint => Some(RequestView::read(Register::SHADOW_REG1, 5)),
            IdentifyStage::Range => Some(RequestView::read(Register::RANGE, 1)),
            IdentifyStage::Identified => None,
            IdentifyStage::Rejected => None,
        }
    }

    /// A bound on the number of replies that the identification still takes.
    pub open spec fn remaining(&self) -> nat {
        match self.stage() {
            IdentifyStage::PartId => 3,
            IdentifyStage::Fingerprint => 2,
            IdentifyStage::Range => 1,
            IdentifyStage::Identified => 0,
            IdentifyStage::Rejected => 0,
        }
    }

    /// The result of the identification, once it is over: the range of the
    /// device, or why the device was rejected.
    pub open spec fn outcome<E: core::fmt::Debug>(&self) -> Option<Result<Range, Error<E>>> {
        match self.stage() {
            IdentifyStage::Identified => Some(Ok(Range::decode(self.range_value())->0)),
            IdentifyStage::Rejected => Some(
                Err(
                    if self.part_id() != DEVICE_ID {
                        Error::BadDeviceId(self.part_id())
                    } else {
                        Error::UnexpectedRegisterValue(self.range_value())
                    },
                ),
            ),
            _ => None,
        }
    }

    /// How an identification stands after `prev` took the reply `data`. This
    /// fixes every access and the result of the identification.
    ///
    /// - A part ID other than that of the ADXL355 rejects the device, and
    ///   nothing more is read. Else the shadow registers are read.
    /// - Their values are kept as the fingerprint, and the range register is read.
    /// - A range register that selects a range identifies the device.
    pub open spec fn follows(&self, prev: &Identify, data: Seq<u8>) -> bool {
        match prev.stage() {
            IdentifyStage::PartId => {
                &&& self.part_id() == data[0]
                &&& self.stage() == (if data[0] == DEVICE_ID {
                    IdentifyStage::Fingerprint
                } else {
                    IdentifyStage::Rejected
                })
            },
            IdentifyStage::Fingerprint => {
                &&& self.part_id() == prev.part_id()
                &&& self.fingerprint() == data
                &&& self.stage() == IdentifyStage::Range
            },
            IdentifyStage::Range => {
                &&& self.part_id() == prev.part_id()
                &&& self.fingerprint() == prev.fingerprint()
                &&& self.range_value() == data[0]
                &&& self.stage() == (if Range::decode(data[0]) is Some {
                    IdentifyStage::Identified
                } else {
                    IdentifyStage::Rejected
                })
            },
            _ => *self == *prev,
        }
    }

    /// An identification, and its first access: the read of the part ID.
    pub fn new() -> (r: (Identify, Request))
        ensures
            r.0.wf(),
            r.0.stage() == IdentifyStage::PartId,
            Some(r.1@) == r.0.awaited(),
    {
        let identify = Identify {
            stage: IdentifyStage::PartId,
            part_id: 0,
            fingerprint: [0, 0, 0, 0, 0],
            range_value: 0,
        };
        (identify, Request::read(Register::PARTID, 1))
    }

    /// The number of bytes of the reply that the identification waits for,
    /// if it waits for one.
    pub fn awaited_len(&self) -> (n: Option<usize>)
        ensures
            n is Some == self.awaited() is Some,
            n is Some ==> n->0 == self.awaited()->0.reply_len(),
    {
        match self.stage {
            IdentifyStage::PartId => Some(1),
            IdentifyStage::Fingerprint => Some(5),
            IdentifyStage::Range => Some(1),
            IdentifyStage::Identified => None,
            IdentifyStage::Rejected => None,
        }
    }

    /// The shadow register values that were read.
    pub fn shadow_values(&self) -> (values: [u8; 5])
        ensures
            values@ == self.fingerprint(),
    {
        self.fingerprint
    }

    /// Takes the reply to the access that the identification waits for, and
    /// gives the next access or, when the identification is over, its result.
    pub fn resume<E: core::fmt::Debug>(&mut self, data: &Vec<u8>) -> (p: Progress<
        Result<Range, Error<E>>,
    >)
        requires
            old(self).wf(),
            old(self).awaited() is Some,
            data.len() == old(self).awaited()->0.reply_len(),
        ensures
            final(self).wf(),
            final(self).follows(old(self), data@),
            final(self).remaining() < old(self).remaining(),
            match p {
                Progress::Request(q) => Some(q@) == final(self).awaited(),
                Progress::Done(r) => Some(r) == final(self).outcome::<E>(),
            },
    {
        match self.stage {
            IdentifyStage::PartId => {
                self.part_id = data[0];
                if self.part_id != DEVICE_ID {
                    self.stage = IdentifyStage::Rejected;
                    return Progress::Done(Err(Error::BadDeviceId(self.part_id)));
                }
                self.stage = IdentifyStage::Fingerprint;
                Progress::Request(Request::read(Register::SHADOW_REG1, 5))
            },
            IdentifyStage::Fingerprint => {
                self.fingerprint = [data[0], data[1], data[2], data[3], data[4]];
                assert(self.fingerprint@ =~= data@);
                self.stage = IdentifyStage::Range;
                Progress::Request(Request::read(Register::RANGE, 1))
            },
            IdentifyStage::Range => {
                self.range_value = data[0];
                match Range::checked_from(self.range_value) {
                    Some(range) => {
                        self.stage = IdentifyStage::Identified;
                        Progress::Done(Ok(range))
                    },
                    None => {
                        self.stage = IdentifyStage::Rejected;
                        Progress::Done(Err(Error::UnexpectedRegisterValue(self.range_value)))
                    },
                }
            },
            IdentifyStage::Identified => Progress::Done(Ok(Range::from(self.range_value))),
            IdentifyStage::Rejected => Progress::Done(
                Err(
                    if self.part_id != DEVICE_ID {
                        Error::BadDeviceId(self.part_id)
                    } else {
                        Error::UnexpectedRegisterValue(self.range_value)
                    },
                ),
            ),
        }
    }

    /// An identification that read a part ID other than `0xED` rejects the
    /// device with that value, and one that read `0xED` goes on.
    pub proof fn lemma_part_id_decides<E: core::fmt::Debug>(&self, prev: &Identify, data: Seq<u8>)
        requires
            prev.stage() == IdentifyStage::PartId,
            self.follows(prev, data),
        ensures
            data[0] == 0xED ==> self.awaited() == Some(
                RequestView::read(Register::SHADOW_REG1, 5),
            ),
            data[0] != 0xED ==> self.outcome::<E>() == Some(
                Err::<Range, Error<E>>(Error::BadDeviceId(data[0])),
            ),
    {
    }
}

} // verus!
