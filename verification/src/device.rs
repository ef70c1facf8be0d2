//! The driver.
//!
//! The driver makes no transfer itself. An operation is begun by the method
//! that bears its name, which gives the first transfer. Whoever owns the bus
//! makes the transfer and hands the reply to [`Adxl355::resume`], which gives
//! the next transfer or the result of the operation. A transfer that fails
//! ends the operation with that failure at once.

use vstd::prelude::*;
use crate::bus::{DeviceI2cAddress, I2cProtocol, Protocol, SpiProtocol, Transfer};
use crate::codec::{
    activity_mask, activity_mask_of, activity_threshold_to_registers, offset_trim_bytes,
    offset_trims_to_registers,
};
use crate::config::{Config, HpfCorner, Odr, Range};
use crate::error::Error;
use crate::fifo::{FifoReader, FifoStage};
use crate::interrupt::{InterruptConfig, InterruptPolarity};
use crate::lifecycle::{
    reset_write, Configure, ConfigureStage, Identify, IdentifyStage, Reset, ResetStage, DEVICE_ID,
};
use crate::modes::{ExternalSyncMode, I2cSpeedMode, Mode};
use crate::outcome::{Outcome, Query, Reply, Step};
use crate::register::Register;
use crate::request::{Progress, Request, RequestView};
use crate::sample::scaled;

verus! {

/// A register value with the bits of `clear` cleared and then the bits of `set` set.
pub open spec fn modified(value: u8, clear: u8, set: u8) -> u8 {
    (value & !clear) | set
}

/// Clears the bits of `clear` in a register value, then sets the bits of `set`.
pub fn modify(value: u8, clear: u8, set: u8) -> (v: u8)
    ensures
        v == modified(value, clear, set),
{
    (value & !clear) | set
}

/// What changing some bits of a register value does: the bits of `set` are
/// set, the bits of `clear` that are not in `set` are clear, and every other
/// bit is as it was.
pub proof fn lemma_modified(value: u8, clear: u8, set: u8)
    by (bit_vector)
    ensures
        modified(value, clear, set) & set == set,
        modified(value, clear, set) & (clear & !set) == 0,
        modified(value, clear, set) & !(clear | set) == value & !(clear | set),
        clear == 0 ==> modified(value, clear, set) == value | set,
        set == 0 ==> modified(value, clear, set) == value & !clear,
{
}

/// What the driver waits for.
pub enum Pending {
    /// Nothing: no operation was begun, or the last one was ended by a failed transfer.
    Idle,
    /// The registers that hold a value.
    Query(Query),
    /// The completion of the last write of an operation.
    Write,
    /// The value of a register of which some bits are to be changed.
    Modify { register: Register, clear: u8, set: u8 },
    /// The range register, for the configuration of the device.
    ConfigRange,
    /// The filter register, for the configuration of the device.
    ConfigFilter(Range),
    /// A reply for a reset; or nothing, when the reset is over.
    Reset(Reset),
    /// A reply for a configuration; or nothing, when the configuration is over.
    Configure(Configure),
    /// A reply for a FIFO reader; or nothing, when the reader is over.
    Fifo { reader: FifoReader, scaled: bool },
}

/// ADXL355 driver.
pub struct Adxl355<PROTOCOL: Protocol> {
    pub protocol: PROTOCOL,
    shadow_values: [u8; 5],
    range: Range,
    pending: Pending,
    awaited_len: Option<usize>,
    asked: Ghost<Option<RequestView>>,
}

impl<PROTOCOL: Protocol> Adxl355<PROTOCOL> {
    /// The bus protocol of the driver.
    pub closed spec fn framing(&self) -> PROTOCOL {
        self.protocol
    }

    /// The fingerprint of the device: its shadow register values at construction.
    pub closed spec fn shadow_values(&self) -> Seq<u8> {
        self.shadow_values@
    }

    /// The range that the device is known to have.
    pub closed spec fn spec_range(&self) -> Range {
        self.range
    }

    /// What the driver waits for.
    pub closed spec fn pending(&self) -> Pending {
        self.pending
    }

    /// The access whose reply the driver waits for, if it waits for one.
    pub closed spec fn asked(&self) -> Option<RequestView> {
        self.asked@
    }

    /// The number of bytes of the reply that the driver waits for: none for a write.
    pub closed spec fn spec_awaited_len(&self) -> Option<usize> {
        self.awaited_len
    }

    /// The invariant of the driver: the access asked for is the one that
    /// what is pending waits for, and it writes no read-only register.
    pub open spec fn wf(&self) -> bool {
        &&& self.asked() is Some ==> self.asked()->0.spares_read_only()
        &&& match self.asked() {
            Some(q) => self.spec_awaited_len() is Some && self.spec_awaited_len()->0
                == q.reply_len(),
            None => self.spec_awaited_len() is None,
        }
        &&& match self.pending() {
            Pending::Idle => self.asked() is None,
            Pending::Query(q) => self.asked() == Some(q.request()),
            Pending::Write => self.asked() is Some && self.asked()->0 is Write,
            Pending::Modify { register, clear, set } => {
                &&& self.asked() == Some(RequestView::read(register, 1))
                &&& 0x1E <= register.spec_addr() <= 0x2F
            },
            Pending::ConfigRange => self.asked() == Some(RequestView::read(Register::RANGE, 1)),
            Pending::ConfigFilter(range) => self.asked() == Some(
                RequestView::read(Register::FILTER, 1),
            ),
            Pending::Reset(reset) => reset.wf() && self.asked() == reset.awaited(),
            Pending::Configure(configure) => configure.wf() && self.asked() == configure.awaited(),
            Pending::Fifo { reader, scaled } => reader.wf() && self.asked() == reader.awaited(),
        }
    }

    /// A bound on the number of replies that the operation under way still
    /// takes: every operation ends.
    pub open spec fn remaining(&self) -> nat {
        match self.pending() {
            Pending::Idle => 0,
            Pending::Query(q) => 1,
            Pending::Write => 1,
            Pending::Modify { register, clear, set } => 2,
            Pending::ConfigRange => 2,
            Pending::ConfigFilter(range) => 1,
            Pending::Reset(reset) => reset.remaining(),
            Pending::Configure(configure) => configure.remaining(),
            Pending::Fifo { reader, scaled } => reader.remaining(),
        }
    }

    /// `true` when `reply` answers the access that the driver asked for: a
    /// failure, the completion of a write, or as many bytes as were to be read.
    pub open spec fn spec_accepts<E>(&self, reply: Reply<E>) -> bool {
        match self.asked() {
            None => false,
            Some(q) => match reply {
                Reply::Failed(e) => true,
                Reply::Written => q is Write,
                Reply::Data(data) => q is Read && data@.len() == q.reply_len(),
            },
        }
    }

    /// How the driver stands once an operation is begun with the access
    /// `request`, and what it then wants: the transfer that carries the access
    /// out under the protocol of the driver.
    pub open spec fn began<E: core::fmt::Debug>(
        &self,
        prev: &Self,
        request: RequestView,
        step: Step<E>,
    ) -> bool {
        &&& self.framing() == prev.framing()
        &&& self.shadow_values() == prev.shadow_values()
        &&& self.spec_range() == prev.spec_range()
        &&& self.asked() == Some(request)
        &&& step matches Step::Transfer(t) && t@ == request.frame(&self.framing())
    }

    /// What a step is, given how the driver stands after it: a transfer is
    /// the access asked for, framed; at the end of an operation nothing is
    /// asked for.
    pub open spec fn wants<E: core::fmt::Debug>(&self, step: Step<E>) -> bool {
        match step {
            Step::Transfer(t) => self.asked() is Some && t@ == self.asked()->0.frame(
                &self.framing(),
            ),
            Step::Done(r) => self.asked() is None,
        }
    }

    /// How the driver stands after `prev` took `reply`, and what it then
    /// wants. A failed transfer ends the operation with the failure of the bus.
    pub open spec fn resumed<E: core::fmt::Debug>(
        &self,
        prev: &Self,
        reply: Reply<E>,
        step: Step<E>,
    ) -> bool {
        &&& self.framing() == prev.framing()
        &&& self.shadow_values() == prev.shadow_values()
        &&& self.wants(step)
        &&& match reply {
            Reply::Failed(e) => {
                &&& self.pending() == Pending::Idle
                &&& self.spec_range() == prev.spec_range()
                &&& step matches Step::Done(Err(Error::Protocol(x))) && x == e
            },
            Reply::Written => self.continued(prev, Seq::empty(), step),
            Reply::Data(data) => self.continued(prev, data@, step),
        }
    }

    /// How the driver stands after `prev` took the bytes `data`, and what it
    /// then wants.
    ///
    /// - A value that was read is decoded, and is the result.
    /// - The last write of an operation ends it.
    /// - A register of which bits are to be changed is written, with those
    ///   bits changed and the others as they were read.
    /// - For the configuration the range register is read, then the filter
    ///   register; a field that selects no setting is reported.
    /// - A reset, a configuration and a FIFO reader go on as they say
    ///   themselves; a configuration that is applied gives the driver its range.
    pub open spec fn continued<E: core::fmt::Debug>(
        &self,
        prev: &Self,
        data: Seq<u8>,
        step: Step<E>,
    ) -> bool {
        match prev.pending() {
            Pending::Idle => false,
            Pending::Query(q) => {
                &&& self.pending() == Pending::Idle
                &&& self.spec_range() == prev.spec_range()
                &&& step matches Step::Done(r) && r == q.decode::<E>(data, prev.spec_range())
            },
            Pending::Write => {
                &&& self.pending() == Pending::Idle
                &&& self.spec_range() == prev.spec_range()
                &&& step matches Step::Done(Ok(Outcome::Done))
            },
            Pending::Modify { register, clear, set } => {
                &&& self.pending() == Pending::Write
                &&& self.spec_range() == prev.spec_range()
                &&& self.asked() == Some(
                    RequestView::write(register, seq![modified(data[0], clear, set)]),
                )
            },
            Pending::ConfigRange => {
                &&& self.spec_range() == prev.spec_range()
                &&& match Range::decode(data[0]) {
                    Some(range) => {
                        &&& self.pending() == Pending::ConfigFilter(range)
                        &&& step is Transfer
                    },
                    None => {
                        &&& self.pending() == Pending::Idle
                        &&& step matches Step::Done(Err(Error::UnexpectedRegisterValue(v))) && v
                            == data[0]
                    },
                }
            },
            Pending::ConfigFilter(range) => {
                &&& self.pending() == Pending::Idle
                &&& self.spec_range() == prev.spec_range()
                &&& match (Odr::decode(data[0]), HpfCorner::decode(data[0])) {
                    (Some(odr), Some(hpf)) => step matches Step::Done(Ok(Outcome::Config(c))) && c
                        == (Config { range, odr, hpf }),
                    _ => step matches Step::Done(Err(Error::UnexpectedRegisterValue(v))) && v
                        == data[0],
                }
            },
            Pending::Reset(before) => {
                &&& self.spec_range() == prev.spec_range()
                &&& self.pending() matches Pending::Reset(reset) && {
                    &&& reset.follows(&before, prev.shadow_values(), data)
                    &&& match reset.stage() {
                        ResetStage::Verified => step matches Step::Done(Ok(Outcome::Done)),
                        ResetStage::Failed => step matches Step::Done(
                            Err(Error::SoftResetFailed),
                        ),
                        _ => step is Transfer,
                    }
                }
            },
            Pending::Configure(before) => {
                &&& self.pending() matches Pending::Configure(configure) && {
                    &&& configure.follows(&before, prev.shadow_values(), data)
                    &&& self.spec_range() == (if configure.stage() == ConfigureStage::Applied {
                        configure.config().range
                    } else {
                        prev.spec_range()
                    })
                    &&& match configure.stage() {
                        ConfigureStage::Applied => step matches Step::Done(Ok(Outcome::Done)),
                        ConfigureStage::Running => {
                            &&& step matches Step::Done(Err(Error::DeviceRunning))
                            &&& configure.writes() == seq![reset_write()]
                        },
                        ConfigureStage::ResetFailed => step matches Step::Done(
                            Err(Error::SoftResetFailed),
                        ),
                        _ => step is Transfer,
                    }
                }
            },
            Pending::Fifo { reader: before, scaled: in_g } => {
                &&& self.spec_range() == prev.spec_range()
                &&& self.pending() matches Pending::Fifo { reader, scaled: s } && {
                    &&& s == in_g
                    &&& reader.follows(&before, data)
                    &&& match reader.stage() {
                        FifoStage::Starved => step matches Step::Done(Err(Error::NotEnoughData)),
                        FifoStage::Finished => if in_g {
                            step matches Step::Done(Ok(Outcome::FifoData(samples))) && {
                                &&& samples@.len() == reader.samples().len()
                                &&& forall|i: int|
                                    0 <= i < samples@.len() ==> samples@[i] == scaled(
                                        #[trigger] reader.samples()[i],
                                        prev.spec_range().spec_scale_factor(),
                                    )
                            }
                        } else {
                            step matches Step::Done(Ok(Outcome::FifoRawData(samples))) && samples@
                                == reader.samples()
                        },
                        _ => step is Transfer,
                    }
                }
            },
        }
    }

    /// The range that the device is known to have: the one it had at
    /// construction, or the one of the last configuration that was applied.
    #[verifier::when_used_as_spec(spec_range)]
    pub fn range(&self) -> (r: Range)
        ensures
            r == self.spec_range(),
    {
        self.range
    }

    /// The scale factor of the range that the device is known to have, in
    /// billionths of a g per least significant bit.
    pub fn scale_factor(&self) -> (f: u32)
        ensures
            f == self.spec_range().spec_scale_factor(),
    {
        self.range.scale_factor()
    }

    /// The number of bytes of the reply that the driver waits for, none for a
    /// write; or nothing, when it waits for no reply.
    #[verifier::when_used_as_spec(spec_awaited_len)]
    pub fn awaited_len(&self) -> (n: Option<usize>)
        ensures
            n == self.spec_awaited_len(),
    {
        self.awaited_len
    }

    /// `true` when `reply` answers the access that the driver asked for.
    pub fn accepts<E>(&self, reply: &Reply<E>) -> (ok: bool)
        requires
            self.wf(),
        ensures
            ok == self.spec_accepts(*reply),
    {
        match self.awaited_len {
            None => false,
            Some(len) => match reply {
                Reply::Failed(_) => true,
                Reply::Written => len == 0,
                Reply::Data(data) => len != 0 && data.len() == len,
            },
        }
    }

    /// Asks for an access: frames it and records it.
    fn ask<E: core::fmt::Debug>(&mut self, request: Request) -> (step: Step<E>)
        ensures
            final(self).protocol == old(self).protocol,
            final(self).shadow_values == old(self).shadow_values,
            final(self).range == old(self).range,
            final(self).pending == old(self).pending,
            final(self).asked@ == Some(request@),
            final(self).awaited_len == Some(request@.reply_len() as usize),
            step matches Step::Transfer(t) && t@ == request@.frame(&final(self).protocol),
    {
        self.asked = Ghost(Some(request@));
        self.awaited_len = match &request {
            Request::Read { start, len } => Some(*len),
            Request::Write { start, payload } => Some(0),
        };
        Step::Transfer(request.frame(&self.protocol))
    }

    /// Ends an operation: nothing is asked for.
    fn rest(&mut self)
        ensures
            final(self).protocol == old(self).protocol,
            final(self).shadow_values == old(self).shadow_values,
            final(self).range == old(self).range,
            final(self).pending == old(self).pending,
            final(self).asked@ is None,
            final(self).awaited_len is None,
    {
        self.asked = Ghost(None);
        self.awaited_len = None;
    }

    /// Begins the reading of a value.
    fn query<E: core::fmt::Debug>(&mut self, query: Query) -> (step: Step<E>)
        ensures
            final(self).wf(),
            final(self).began(old(self), query.request(), step),
            final(self).pending() == Pending::Query(query),
    {
        self.pending = Pending::Query(query);
        self.ask(query.to_request())
    }

    /// Begins the writing of registers that can be written.
    fn write<E: core::fmt::Debug>(&mut self, request: Request) -> (step: Step<E>)
        requires
            request@ is Write,
            request@.spares_read_only(),
        ensures
            final(self).wf(),
            final(self).began(old(self), request@, step),
            final(self).pending() == Pending::Write,
    {
        self.pending = Pending::Write;
        self.ask(request)
    }

    /// Begins the changing of some bits of a register that can be written.
    fn change<E: core::fmt::Debug>(&mut self, register: Register, clear: u8, set: u8) -> (step:
        Step<E>)
        requires
            0x1E <= register.spec_addr() <= 0x2F,
        ensures
            final(self).wf(),
            final(self).began(old(self), RequestView::read(register, 1), step),
            final(self).pending() == (Pending::Modify { register, clear, set }),
    {
        self.pending = Pending::Modify { register, clear, set };
        self.ask(Request::read(register, 1))
    }

    /// Takes the reply to the transfer that the driver asked for, and gives
    /// the next transfer or, when the operation is over, its result.
    pub fn resume<E: core::fmt::Debug>(&mut self, reply: Reply<E>) -> (step: Step<E>)
        requires
            old(self).wf(),
            old(self).spec_accepts(reply),
        ensures
            final(self).wf(),
            final(self).resumed(old(self), reply, step),
            step is Transfer ==> final(self).remaining() < old(self).remaining(),
    {
        let data = match reply {
            Reply::Failed(e) => {
                self.pending = Pending::Idle;
                self.rest();
                return Step::Done(Err(Error::Protocol(e)));
            },
            Reply::Written => Vec::new(),
            Reply::Data(data) => data,
        };
        let mut pending = Pending::Idle;
        core::mem::swap(&mut self.pending, &mut pending);
        match pending {
            Pending::Idle => {
                self.rest();
                Step::Done(Ok(Outcome::Done))
            },
            Pending::Query(query) => {
                self.rest();
                Step::Done(query.decoded(&data, self.range))
            },
            Pending::Write => {
                self.rest();
                Step::Done(Ok(Outcome::Done))
            },
            Pending::Modify { register, clear, set } => {
                self.pending = Pending::Write;
                self.ask(Request::write(register, modify(data[0], clear, set)))
            },
            Pending::ConfigRange => match Range::checked_from(data[0]) {
                Some(range) => {
                    self.pending = Pending::ConfigFilter(range);
                    self.ask(Request::read(Register::FILTER, 1))
                },
                None => {
                    self.rest();
                    Step::Done(Err(Error::UnexpectedRegisterValue(data[0])))
                },
            },
            Pending::ConfigFilter(range) => {
                self.rest();
                match (Odr::checked_from(data[0]), HpfCorner::checked_from(data[0])) {
                    (Some(odr), Some(hpf)) => Step::Done(
                        Ok(Outcome::Config(Config { range, odr, hpf })),
                    ),
                    _ => Step::Done(Err(Error::UnexpectedRegisterValue(data[0]))),
                }
            },
            Pending::Reset(mut reset) => {
                let progress = reset.resume::<E>(&self.shadow_values, &data);
                self.pending = Pending::Reset(reset);
                match progress {
                    Progress::Request(request) => self.ask(request),
                    Progress::Done(Ok(())) => {
                        self.rest();
                        Step::Done(Ok(Outcome::Done))
                    },
                    Progress::Done(Err(e)) => {
                        self.rest();
                        Step::Done(Err(Error::SoftResetFailed))
                    },
                }
            },
            Pending::Configure(mut configure) => {
                let progress = configure.resume::<E>(&self.shadow_values, &data);
                self.pending = Pending::Configure(configure);
                match progress {
                    Progress::Request(request) => {
                        proof {
                            configure.lemma_asks_spare_read_only();
                        }
                        self.ask(request)
                    },
                    Progress::Done(Ok(range)) => {
                        self.range = range;
                        self.rest();
                        Step::Done(Ok(Outcome::Done))
                    },
                    Progress::Done(Err(e)) => {
                        self.rest();
                        Step::Done(Err(e))
                    },
                }
            },
            Pending::Fifo { mut reader, scaled } => {
                let progress = reader.resume::<E>(&data);
                let step = match progress {
                    Progress::Request(request) => self.ask(request),
                    Progress::Done(Ok(count)) => {
                        self.rest();
                        if scaled {
                            Step::Done(
                                Ok(Outcome::FifoData(reader.scaled_samples(self.range.scale_factor()))),
                            )
                        } else {
                            Step::Done(Ok(Outcome::FifoRawData(reader.raw_samples())))
                        }
                    },
                    Progress::Done(Err(e)) => {
                        self.rest();
                        Step::Done(Err(Error::NotEnoughData))
                    },
                };
                self.pending = Pending::Fifo { reader, scaled };
                step
            },
        }
    }

    /// Begins a reset of the device, which makes sure that the NVM is loaded
    /// correctly: the reset code is written first.
    pub fn reset<E: core::fmt::Debug>(&mut self) -> (step: Step<E>)
        ensures
            final(self).wf(),
            final(self).began(old(self), reset_write(), step),
            final(self).pending() matches Pending::Reset(reset) && reset.stage()
                == ResetStage::Command,
    {
        let (reset, request) = Reset::new();
        self.pending = Pending::Reset(reset);
        self.ask(request)
    }

    /// Begins the configuration of the device. The device is reset before the
    /// config is applied to make sure it is in standby mode: the reset code
    /// is written first.
    pub fn configure<E: core::fmt::Debug>(&mut self, config: Config) -> (step: Step<E>)
        ensures
            final(self).wf(),
            final(self).began(old(self), reset_write(), step),
            final(self).pending() matches Pending::Configure(configure) && {
                &&& configure.config() == config
                &&& configure.stage() == ConfigureStage::Reset
                &&& configure.reset().stage() == ResetStage::Command
            },
    {
        let (configure, request) = Configure::new(config);
        self.pending = Pending::Configure(configure);
        self.ask(request)
    }

    /// Begins the reading of the device [`Status`].
    pub fn get_status<E: core::fmt::Debug>(&mut self) -> (step: Step<E>)
        ensures
            final(self).wf(),
            final(self).began(old(self), RequestView::read(Register::STATUS, 1), step),
            final(self).pending() == Pending::Query(Query::Status),
    {
        self.query(Query::Status)
    }

    /// Begins the reading of the device ID; `0xED` is expected.
    pub fn get_device_id<E: core::fmt::Debug>(&mut self) -> (step: Step<E>)
        ensures
            final(self).wf(),
            final(self).began(old(self), RequestView::read(Register::PARTID, 1), step),
            final(self).pending() == Pending::Query(Query::DeviceId),
    {
        self.query(Query::DeviceId)
    }

    /// Begins the reading of the product revision ID.
    pub fn get_revision_id<E: core::fmt::Debug>(&mut self) -> (step: Step<E>)
        ensures
            final(self).wf(),
            final(self).began(old(self), RequestView::read(Register::REVID, 1), step),
            final(self).pending() == Pending::Query(Query::RevisionId),
    {
        self.query(Query::RevisionId)
    }

    /// Begins the reading of the current [`Mode`] of the device.
    pub fn get_mode<E: core::fmt::Debug>(&mut self) -> (step: Step<E>)
        ensures
            final(self).wf(),
            final(self).began(old(self), RequestView::read(Register::POWER_CTL, 1), step),
            final(self).pending() == Pending::Query(Query::Mode),
    {
        self.query(Query::Mode)
    }

    /// Begins the setting of the [`Mode`] of the device.
    pub fn set_mode<E: core::fmt::Debug>(&mut self, mode: Mode) -> (step: Step<E>)
        ensures
            final(self).wf(),
            final(self).began(
                old(self),
                RequestView::write(Register::POWER_CTL, seq![mode.0]),
                step,
            ),
            final(self).pending() == Pending::Write,
    {
        self.write(Request::write(Register::POWER_CTL, mode.0))
    }

    /// Begins the reading of the current [`Range`] of the device.
    pub fn get_range<E: core::fmt::Debug>(&mut self) -> (step: Step<E>)
        ensures
            final(self).wf(),
            final(self).began(old(self), RequestView::read(Register::RANGE, 1), step),
            final(self).pending() == Pending::Query(Query::Range),
    {
        self.query(Query::Range)
    }

    /// Begins the reading of the current [`Odr`] of the device.
    pub fn get_odr_lpf<E: core::fmt::Debug>(&mut self) -> (step: Step<E>)
        ensures
            final(self).wf(),
            final(self).began(old(self), RequestView::read(Register::FILTER, 1), step),
            final(self).pending() == Pending::Query(Query::OdrLpf),
    {
        self.query(Query::OdrLpf)
    }

    /// Begins the reading of the current [`HpfCorner`] of the device.
    pub fn get_hpf_corner<E: core::fmt::Debug>(&mut self) -> (step: Step<E>)
        ensures
            final(self).wf(),
            final(self).began(old(self), RequestView::read(Register::FILTER, 1), step),
            final(self).pending() == Pending::Query(Query::HpfCorner),
    {
        self.query(Query::HpfCorner)
    }

    /// Begins the reading of the current [`Config`] of the device: the range
    /// register is read first, then the filter register.
    pub fn get_config<E: core::fmt::Debug>(&mut self) -> (step: Step<E>)
        ensures
            final(self).wf(),
            final(self).began(old(self), RequestView::read(Register::RANGE, 1), step),
            final(self).pending() == Pending::ConfigRange,
    {
        self.pending = Pending::ConfigRange;
        self.ask(Request::read(Register::RANGE, 1))
    }

    /// Begins the setting of the device in measurement mode: the standby bit of the power control
    /// register is cleared, the other bits are kept.
    pub fn set_measurement_mode<E: core::fmt::Debug>(&mut self) -> (step: Step<E>)
        ensures
            final(self).wf(),
            final(self).began(old(self), RequestView::read(Register::POWER_CTL, 1), step),
            final(self).pending() == (Pending::Modify {
                register: Register::POWER_CTL,
                clear: 0x01,
                set: 0x00,
            }),
    {
        self.change(Register::POWER_CTL, Mode::STANDBY_BIT, 0x00)
    }

    /// Begins the setting of the device in standby mode: the standby bit of the power control
    /// register is set, the other bits are kept.
    pub fn set_standby_mode<E: core::fmt::Debug>(&mut self) -> (step: Step<E>)
        ensures
            final(self).wf(),
            final(self).began(old(self), RequestView::read(Register::POWER_CTL, 1), step),
            final(self).pending() == (Pending::Modify {
                register: Register::POWER_CTL,
                clear: 0x00,
                set: 0x01,
            }),
    {
        self.change(Register::POWER_CTL, 0x00, Mode::STANDBY_BIT)
    }

    /// Begins the reading of the raw temperature value.
    pub fn get_temperature_raw<E: core::fmt::Debug>(&mut self) -> (step: Step<E>)
        ensures
            final(self).wf(),
            final(self).began(old(self), RequestView::read(Register::TEMP2, 2), step),
            final(self).pending() == Pending::Query(Query::TemperatureRaw),
    {
        self.query(Query::TemperatureRaw)
    }

    /// Begins the reading of the temperature in thousandths of a degree Celsius.
    pub fn get_temparature<E: core::fmt::Debug>(&mut self) -> (step: Step<E>)
        ensures
            final(self).wf(),
            final(self).began(old(self), RequestView::read(Register::TEMP2, 2), step),
            final(self).pending() == Pending::Query(Query::Temperature),
    {
        self.query(Query::Temperature)
    }

    /// Begins the reading of the raw acceleration values.
    pub fn get_raw_accel_sample<E: core::fmt::Debug>(&mut self) -> (step: Step<E>)
        ensures
            final(self).wf(),
            final(self).began(old(self), RequestView::read(Register::XDATA3, 9), step),
            final(self).pending() == Pending::Query(Query::RawAccelSample),
    {
        self.query(Query::RawAccelSample)
    }

    /// Begins the reading of the acceleration values in billionths of a g.
    pub fn get_accel_sample<E: core::fmt::Debug>(&mut self) -> (step: Step<E>)
        ensures
            final(self).wf(),
            final(self).began(old(self), RequestView::read(Register::XDATA3, 9), step),
            final(self).pending() == Pending::Query(Query::AccelSample),
    {
        self.query(Query::AccelSample)
    }

    /// Begins the enabling of the device self test feature.
    pub fn start_self_test<E: core::fmt::Debug>(&mut self) -> (step: Step<E>)
        ensures
            final(self).wf(),
            final(self).began(
                old(self),
                RequestView::write(Register::SELF_TEST, seq![0x03u8]),
                step,
            ),
            final(self).pending() == Pending::Write,
    {
        self.write(Request::write(Register::SELF_TEST, 0x03))
    }

    /// Begins the disabling of the device self test feature.
    pub fn stop_self_test<E: core::fmt::Debug>(&mut self) -> (step: Step<E>)
        ensures
            final(self).wf(),
            final(self).began(
                old(self),
                RequestView::write(Register::SELF_TEST, seq![0x00u8]),
                step,
            ),
            final(self).pending() == Pending::Write,
    {
        self.write(Request::write(Register::SELF_TEST, 0x00))
    }

    /// Begins the writing of the offset trims, which the device applies to
    /// the raw axis data after all other signal processing.
    /// The offset trim value is removed from the axis data bits\[19:4\].
    pub fn set_offset_trims<E: core::fmt::Debug>(
        &mut self,
        offset_x: i16,
        offset_y: i16,
        offset_z: i16,
    ) -> (step: Step<E>)
        ensures
            final(self).wf(),
            final(self).began(
                old(self),
                RequestView::write(
                    Register::OFFSET_X_H,
                    offset_trim_bytes(offset_x, offset_y, offset_z),
                ),
                step,
            ),
            final(self).pending() == Pending::Write,
    {
        let bytes = offset_trims_to_registers(offset_x, offset_y, offset_z);
        let payload = vec![bytes[0], bytes[1], bytes[2], bytes[3], bytes[4], bytes[5]];
        assert(payload@ =~= bytes@);
        self.write(Request::write_many(Register::OFFSET_X_H, payload))
    }

    /// Begins the reading of the offset trims of the three axes.
    pub fn get_offset_trims<E: core::fmt::Debug>(&mut self) -> (step: Step<E>)
        ensures
            final(self).wf(),
            final(self).began(old(self), RequestView::read(Register::OFFSET_X_H, 6), step),
            final(self).pending() == Pending::Query(Query::OffsetTrims),
    {
        self.query(Query::OffsetTrims)
    }

    /// Begins the reading of the number of data samples stored in the FIFO.
    pub fn get_nb_samples_in_fifo<E: core::fmt::Debug>(&mut self) -> (step: Step<E>)
        ensures
            final(self).wf(),
            final(self).began(old(self), RequestView::read(Register::FIFO_ENTRIES, 1), step),
            final(self).pending() == Pending::Query(Query::NbSamplesInFifo),
    {
        self.query(Query::NbSamplesInFifo)
    }

    /// Begins the setting of the maximum number of samples the fifo will store.
    /// Value must range from 1 to 96: with any other value nothing is written.
    pub fn set_nb_max_samples_in_fifo<E: core::fmt::Debug>(&mut self, fifo_samples: u8) -> (step:
        Step<E>)
        ensures
            final(self).wf(),
            1 <= fifo_samples <= 96 ==> {
                &&& final(self).began(
                    old(self),
                    RequestView::write(Register::FIFO_SAMPLES, seq![fifo_samples]),
                    step,
                )
                &&& final(self).pending() == Pending::Write
            },
            !(1 <= fifo_samples <= 96) ==> {
                &&& step matches Step::Done(Err(Error::InvalidMaxNbFifoSamples))
                &&& final(self).framing() == old(self).framing()
                &&& final(self).shadow_values() == old(self).shadow_values()
                &&& final(self).spec_range() == old(self).spec_range()
                &&& final(self).pending() == Pending::Idle
                &&& final(self).asked() is None
            },
    {
        if fifo_samples < 1 || fifo_samples > 96 {
            self.pending = Pending::Idle;
            self.rest();
            return Step::Done(Err(Error::InvalidMaxNbFifoSamples));
        }
        self.write(Request::write(Register::FIFO_SAMPLES, fifo_samples))
    }

    /// Begins the reading of the fifo into at most `capacity` raw
    /// accelerometer samples: the number of entries is read first.
    pub fn get_fifo_raw_data<E: core::fmt::Debug>(&mut self, capacity: usize) -> (step: Step<E>)
        requires
            capacity >= 1,
        ensures
            final(self).wf(),
            final(self).began(old(self), RequestView::read(Register::FIFO_ENTRIES, 1), step),
            final(self).pending() matches Pending::Fifo { reader, scaled } && {
                &&& !scaled
                &&& reader.capacity() == capacity
                &&& reader.stage() == FifoStage::Entries
            },
    {
        let (reader, request) = FifoReader::new(capacity);
        self.pending = Pending::Fifo { reader, scaled: false };
        self.ask(request)
    }

    /// Begins the reading of the fifo into at most `capacity` accelerometer
    /// samples in billionths of a g: the number of entries is read first.
    pub fn get_fifo_data<E: core::fmt::Debug>(&mut self, capacity: usize) -> (step: Step<E>)
        requires
            capacity >= 1,
        ensures
            final(self).wf(),
            final(self).began(old(self), RequestView::read(Register::FIFO_ENTRIES, 1), step),
            final(self).pending() matches Pending::Fifo { reader, scaled } && {
                &&& scaled
                &&& reader.capacity() == capacity
                &&& reader.stage() == FifoStage::Entries
            },
    {
        let (reader, request) = FifoReader::new(capacity);
        self.pending = Pending::Fifo { reader, scaled: true };
        self.ask(request)
    }

    /// Begins the enabling of activity detection for the selected axes.
    pub fn enable_activity_detection<E: core::fmt::Debug>(&mut self, x: bool, y: bool, z: bool) -> (step: Step<E>)
        ensures
            final(self).wf(),
            final(self).began(
                old(self),
                RequestView::write(Register::ACT_EN, seq![activity_mask_of(x, y, z) as u8]),
                step,
            ),
            final(self).pending() == Pending::Write,
    {
        self.write(Request::write(Register::ACT_EN, activity_mask(x, y, z)))
    }

    /// Begins the setting of the threshold for activity detection. The
    /// acceleration magnitude must be greater than the value in ACT_THRESH to
    /// trigger the activity counter. The significance of the threshold matches
    /// the significance of Bits\[18:3\] of the accelerometer's axes data.
    pub fn set_activity_threshold<E: core::fmt::Debug>(&mut self, threshold: u16) -> (step: Step<E>)
        ensures
            final(self).wf(),
            final(self).began(
                old(self),
                RequestView::write(
                    Register::ACT_THRESH_H,
                    seq![(threshold / 0x100) as u8, (threshold % 0x100) as u8],
                ),
                step,
            ),
            final(self).pending() == Pending::Write,
    {
        let (hi, lo) = activity_threshold_to_registers(threshold);
        let payload = vec![hi, lo];
        assert(payload@ =~= seq![(threshold / 0x100) as u8, (threshold % 0x100) as u8]);
        self.write(Request::write_many(Register::ACT_THRESH_H, payload))
    }

    /// Begins the setting of the number of consecutive events above threshold
    /// required to detect activity.
    pub fn set_activity_count<E: core::fmt::Debug>(&mut self, count: u8) -> (step: Step<E>)
        ensures
            final(self).wf(),
            final(self).began(
                old(self),
                RequestView::write(Register::ACT_COUNT, seq![count]),
                step,
            ),
            final(self).pending() == Pending::Write,
    {
        self.write(Request::write(Register::ACT_COUNT, count))
    }

    /// Begins the configuration of the interrupt pins INT1 and INT2.
    pub fn configure_interrupt_pins<E: core::fmt::Debug>(&mut self, conf: InterruptConfig) -> (step: Step<E>)
        ensures
            final(self).wf(),
            final(self).began(
                old(self),
                RequestView::write(Register::INT_MAP, seq![conf.0]),
                step,
            ),
            final(self).pending() == Pending::Write,
    {
        self.write(Request::write(Register::INT_MAP, conf.0))
    }

    /// Begins the setting of the polarity of the interrupt pins: bit 6 of the range register is set for
    /// active high and cleared for active low, the other bits are kept.
    pub fn set_interrupt_polarity<E: core::fmt::Debug>(
        &mut self,
        polarity: InterruptPolarity,
    ) -> (step: Step<E>)
        ensures
            final(self).wf(),
            final(self).began(old(self), RequestView::read(Register::RANGE, 1), step),
            final(self).pending() == (match polarity {
                InterruptPolarity::ActiveHigh => Pending::Modify {
                    register: Register::RANGE,
                    clear: 0x00,
                    set: 0x40,
                },
                InterruptPolarity::ActiveLow => Pending::Modify {
                    register: Register::RANGE,
                    clear: 0x40,
                    set: 0x00,
                },
            }),
    {
        match polarity {
            InterruptPolarity::ActiveHigh => self.change(Register::RANGE, 0x00, 0x40),
            InterruptPolarity::ActiveLow => self.change(Register::RANGE, 0x40, 0x00),
        }
    }

    /// Begins the setting of the I2C speed mode: bit 7 of the range register is set for high speed
    /// and cleared for fast, the other bits are kept.
    pub fn set_i2c_speed<E: core::fmt::Debug>(&mut self, mode: I2cSpeedMode) -> (step: Step<E>)
        ensures
            final(self).wf(),
            final(self).began(old(self), RequestView::read(Register::RANGE, 1), step),
            final(self).pending() == (match mode {
                I2cSpeedMode::HighSpeed => Pending::Modify {
                    register: Register::RANGE,
                    clear: 0x00,
                    set: 0x80,
                },
                I2cSpeedMode::Fast => Pending::Modify {
                    register: Register::RANGE,
                    clear: 0x80,
                    set: 0x00,
                },
            }),
    {
        match mode {
            I2cSpeedMode::HighSpeed => self.change(Register::RANGE, 0x00, 0x80),
            I2cSpeedMode::Fast => self.change(Register::RANGE, 0x80, 0x00),
        }
    }

    /// Begins the setting of the synchronization mode the device will operate
    /// in. See options in [`ExternalSyncMode`].
    pub fn set_synchronization_mode<E: core::fmt::Debug>(&mut self, mode: ExternalSyncMode) -> (step: Step<E>)
        ensures
            final(self).wf(),
            final(self).began(
                old(self),
                RequestView::write(Register::SYNC, seq![mode.spec_val()]),
                step,
            ),
            final(self).pending() == Pending::Write,
    {
        self.write(Request::write(Register::SYNC, mode.val()))
    }
}

/// A device on the bus that is not yet known to be an ADXL355.
pub struct Identification<PROTOCOL: Protocol> {
    pub protocol: PROTOCOL,
    identify: Identify,
    config: Option<Config>,
}

/// How an identification goes on.
pub enum Identified<PROTOCOL: Protocol, E: core::fmt::Debug> {
    /// This transfer is to be made, and its reply handed to the identification.
    Transfer(Identification<PROTOCOL>, Transfer),
    /// The device is an ADXL355: this is its driver. Where a configuration
    /// was asked for, the driver has begun it and wants this step.
    Ready(Adxl355<PROTOCOL>, Option<Step<E>>),
    /// The device is none, or a transfer failed.
    Failed(Error<E>),
}

impl Adxl355<SpiProtocol> {
    /// Begins the creation of a driver for a device on the 4-wire bus, in
    /// unknown state: the part ID is read first.
    pub fn new_spi() -> (r: (Identification<SpiProtocol>, Transfer))
        ensures
            r.0.wf(),
            r.0.identify().stage() == IdentifyStage::PartId,
            r.0.config() is None,
            r.1@ == RequestView::read(Register::PARTID, 1).frame(&r.0.framing()),
    {
        let (identify, request) = Identify::new();
        let protocol = SpiProtocol;
        let transfer = request.frame(&protocol);
        (Identification { protocol, identify, config: None }, transfer)
    }

    /// Begins the creation of a driver for a device on the 4-wire bus, to be
    /// put in the given config: the part ID is read first. The device is
    /// reset before the config is applied.
    pub fn new_spi_with_config(config: Config) -> (r: (Identification<SpiProtocol>, Transfer))
        ensures
            r.0.wf(),
            r.0.identify().stage() == IdentifyStage::PartId,
            r.0.config() == Some(config),
            r.1@ == RequestView::read(Register::PARTID, 1).frame(&r.0.framing()),
    {
        let (identify, request) = Identify::new();
        let protocol = SpiProtocol;
        let transfer = request.frame(&protocol);
        (Identification { protocol, identify, config: Some(config) }, transfer)
    }
}

impl Adxl355<I2cProtocol> {
    /// Begins the creation of a driver for a device on the 2-wire bus at the
    /// given address, in unknown state: the part ID is read first.
    pub fn new_i2c(address: DeviceI2cAddress) -> (r: (Identification<I2cProtocol>, Transfer))
        ensures
            r.0.wf(),
            r.0.identify().stage() == IdentifyStage::PartId,
            r.0.config() is None,
            r.0.framing().spec_address() == address.spec_val(),
            r.1@ == RequestView::read(Register::PARTID, 1).frame(&r.0.framing()),
    {
        let (identify, request) = Identify::new();
        let protocol = I2cProtocol::new(address);
        let transfer = request.frame(&protocol);
        (Identification { protocol, identify, config: None }, transfer)
    }

    /// Begins the creation of a driver for a device on the 2-wire bus at the
    /// given address, to be put in the given config: the part ID is read
    /// first. The device is reset before the config is applied.
    pub fn new_i2c_with_config(address: DeviceI2cAddress, config: Config) -> (r: (
        Identification<I2cProtocol>,
        Transfer,
    ))
        ensures
            r.0.wf(),
            r.0.identify().stage() == IdentifyStage::PartId,
            r.0.config() == Some(config),
            r.0.framing().spec_address() == address.spec_val(),
            r.1@ == RequestView::read(Register::PARTID, 1).frame(&r.0.framing()),
    {
        let (identify, request) = Identify::new();
        let protocol = I2cProtocol::new(address);
        let transfer = request.frame(&protocol);
        (Identification { protocol, identify, config: Some(config) }, transfer)
    }
}

impl<PROTOCOL: Protocol> Identification<PROTOCOL> {
    /// The bus protocol of the device.
    pub closed spec fn framing(&self) -> PROTOCOL {
        self.protocol
    }

    /// Where the identification stands.
    pub closed spec fn identify(&self) -> Identify {
        self.identify
    }

    /// The config that the device is to be put in, if any.
    pub closed spec fn config(&self) -> Option<Config> {
        self.config
    }

    /// The invariant of an identification that goes on: it waits for a reply.
    pub open spec fn wf(&self) -> bool {
        self.identify().wf() && self.identify().awaited() is Some
    }

    /// `true` when `reply` answers the read that the identification asked
    /// for: a failure, or as many bytes as were to be read.
    pub open spec fn spec_accepts<E>(&self, reply: Reply<E>) -> bool {
        match reply {
            Reply::Failed(e) => true,
            Reply::Written => false,
            Reply::Data(data) => self.identify().awaited() is Some && data@.len()
                == self.identify().awaited()->0.reply_len(),
        }
    }

    /// How an identification stands after `prev` took the bytes `data`, and
    /// the transfer that it then wants.
    pub open spec fn goes_on(&self, prev: &Self, data: Seq<u8>, transfer: Transfer) -> bool {
        &&& self.wf()
        &&& self.framing() == prev.framing()
        &&& self.config() == prev.config()
        &&& self.identify().follows(&prev.identify(), data)
        &&& transfer@ == self.identify().awaited()->0.frame(&self.framing())
    }

    /// `true` when `device` is the driver that the identification `prev`
    /// makes once the range register was found to select `range`, and `step`
    /// is what the driver then wants: nothing, or the first transfer of the
    /// configuration that was asked for.
    pub open spec fn makes<E: core::fmt::Debug>(
        prev: &Self,
        range: Range,
        device: Adxl355<PROTOCOL>,
        step: Option<Step<E>>,
    ) -> bool {
        &&& device.wf()
        &&& device.framing() == prev.framing()
        &&& device.spec_range() == range
        &&& device.shadow_values() == prev.identify().fingerprint()
        &&& match prev.config() {
            None => step is None && device.pending() == Pending::Idle,
            Some(config) => {
                &&& step matches Some(Step::Transfer(t)) && t@ == reset_write().frame(
                    &device.framing(),
                )
                &&& device.asked() == Some(reset_write())
                &&& device.pending() matches Pending::Configure(configure) && {
                    &&& configure.config() == config
                    &&& configure.stage() == ConfigureStage::Reset
                    &&& configure.reset().stage() == ResetStage::Command
                }
            },
        }
    }

    /// `true` when `reply` answers the read that the identification asked for.
    pub fn accepts<E>(&self, reply: &Reply<E>) -> (ok: bool)
        requires
            self.wf(),
        ensures
            ok == self.spec_accepts(*reply),
    {
        match reply {
            Reply::Failed(_) => true,
            Reply::Written => false,
            Reply::Data(data) => match self.identify.awaited_len() {
                Some(len) => data.len() == len,
                None => false,
            },
        }
    }

    /// Takes the reply to the transfer that the identification asked for.
    ///
    /// - A transfer that failed ends the identification with that failure.
    /// - A part ID other than `0xED` ends it with that value, and nothing
    ///   more is read. After `0xED` the shadow registers are read.
    /// - The shadow register values become the fingerprint of the device,
    ///   and the range register is read.
    /// - The range that the register selects is that of the driver, which is
    ///   ready. A register that selects none is reported.
    pub fn resume<E: core::fmt::Debug>(self, reply: Reply<E>) -> (r: Identified<PROTOCOL, E>)
        requires
            self.wf(),
            self.spec_accepts(reply),
        ensures
            match reply {
                Reply::Failed(e) => r matches Identified::Failed(Error::Protocol(x)) && x == e,
                Reply::Written => false,
                Reply::Data(data) => match self.identify().stage() {
                    IdentifyStage::PartId => if data@[0] == DEVICE_ID {
                        &&& r matches Identified::Transfer(next, t) && next.goes_on(&self, data@, t)
                        &&& r matches Identified::Transfer(next, t) && next.identify().stage()
                            == IdentifyStage::Fingerprint
                    } else {
                        r matches Identified::Failed(Error::BadDeviceId(v)) && v == data@[0]
                    },
                    IdentifyStage::Fingerprint => {
                        &&& r matches Identified::Transfer(next, t) && next.goes_on(&self, data@, t)
                        &&& r matches Identified::Transfer(next, t) && next.identify().stage()
                            == IdentifyStage::Range
                    },
                    IdentifyStage::Range => match Range::decode(data@[0]) {
                        Some(range) => r matches Identified::Ready(device, step)
                            && Self::makes(&self, range, device, step),
                        None => r matches Identified::Failed(Error::UnexpectedRegisterValue(v))
                            && v == data@[0],
                    },
                    _ => true,
                },
            },
    {
        let data = match reply {
            Reply::Failed(e) => {
                return Identified::Failed(Error::Protocol(e));
            },
            Reply::Written => Vec::new(),
            Reply::Data(data) => data,
        };
        let mut identify = self.identify;
        match identify.resume::<E>(&data) {
            Progress::Request(request) => {
                let transfer = request.frame(&self.protocol);
                Identified::Transfer(
                    Identification { protocol: self.protocol, identify, config: self.config },
                    transfer,
                )
            },
            Progress::Done(Ok(range)) => {
                let mut device = Adxl355 {
                    protocol: self.protocol,
                    shadow_values: identify.shadow_values(),
                    range,
                    pending: Pending::Idle,
                    awaited_len: None,
                    asked: Ghost(None),
                };
                match self.config {
                    None => Identified::Ready(device, None),
                    Some(config) => {
                        let step = device.configure::<E>(config);
                        Identified::Ready(device, Some(step))
                    },
                }
            },
            Progress::Done(Err(e)) => Identified::Failed(e),
        }
    }
}

} // verus!
