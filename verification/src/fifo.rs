//! Reassembly of the FIFO into samples.
//!
//! The FIFO holds one entry per axis value, three bytes each, in the order
//! x, y, z. A read may start in the middle of a sample: bit 0 of the third
//! byte of an entry is set on an x-axis entry alone. The reader drops entries
//! until it meets an x-axis entry, then takes whole samples while there are at
//! least three entries left and room for one more sample.

use vstd::prelude::*;
use crate::codec::{fifo_entries, fifo_entries_of};
use crate::error::Error;
use crate::register::Register;
use crate::request::{Progress, Request, RequestView};
use crate::sample::{
    acc_buf_to_raw_sample, raw_sample_of, scale_sample, scaled, RawSample, Sample,
};

verus! {

/// Where a reader stands.
#[derive(Copy, Clone, Debug, PartialEq, Eq, Structural)]
pub enum FifoStage {
    /// The number of entries is being read.
    Entries,
    /// One entry is being read, to be tested for the x-axis marker.
    Align,
    /// The two entries that follow the first x-axis entry are being read.
    Rest,
    /// A further sample of three entries is being read.
    Stream,
    /// At least one sample was assembled, and no more will be.
    Finished,
    /// The FIFO held too few entries for one sample.
    Starved,
}

/// `true` when the third byte of an entry carries the x-axis marker.
pub open spec fn x_marker(third: u8) -> bool {
    third & 0x01 == 0x01
}

/// The number of samples that a FIFO reporting `reported` entries yields into
/// room for `capacity` samples, once `discarded` entries were dropped to reach
/// an x-axis entry.
pub open spec fn sample_count(reported: nat, discarded: nat, capacity: nat) -> int {
    let whole = (reported - discarded) / 3;
    if whole < capacity {
        whole
    } else {
        capacity as int
    }
}

/// Reads the FIFO into raw samples.
pub struct FifoReader {
    capacity: usize,
    stage: FifoStage,
    available: u8,
    head: [u8; 3],
    samples: Vec<RawSample>,
    reported: Ghost<nat>,
    discarded: Ghost<nat>,
    groups: Ghost<Seq<Seq<u8>>>,
}

impl FifoReader {
    /// The number of samples that there is room for.
    pub closed spec fn capacity(&self) -> nat {
        self.capacity as nat
    }

    /// Where the reader stands.
    pub closed spec fn stage(&self) -> FifoStage {
        self.stage
    }

    /// The number of entries that the device reported.
    pub closed spec fn reported(&self) -> nat {
        self.reported@
    }

    /// The number of entries that are left in the FIFO once the read that is
    /// under way is made.
    pub closed spec fn available(&self) -> nat {
        self.available as nat
    }

    /// The number of entries dropped because they lacked the x-axis marker.
    pub closed spec fn discarded(&self) -> nat {
        self.discarded@
    }

    /// The bytes that came from the FIFO data register, one element for each read.
    pub closed spec fn groups(&self) -> Seq<Seq<u8>> {
        self.groups@
    }

    /// The samples assembled so far.
    pub closed spec fn samples(&self) -> Seq<RawSample> {
        self.samples@
    }

    /// The x-axis entry that the first sample begins with, once it was met.
    pub closed spec fn head(&self) -> Seq<u8> {
        self.head@
    }

    /// The first `discarded` reads each gave one entry without the x-axis marker.
    pub open spec fn leading_unaligned(&self) -> bool {
        forall|j: int|
            0 <= j < self.discarded() ==> (#[trigger] self.groups()[j]).len() == 3 && !x_marker(
                self.groups()[j][2],
            )
    }

    /// The read after the dropped entries gave an x-axis entry, the next one
    /// the two entries that complete the first sample, and each later one a
    /// whole sample: the samples are those reads, decoded, in order.
    pub open spec fn assembled(&self) -> bool {
        let d = self.discarded() as int;
        &&& self.leading_unaligned()
        &&& self.samples().len() >= 1
        &&& self.groups().len() == d + 1 + self.samples().len()
        &&& self.groups()[d].len() == 3
        &&& x_marker(self.groups()[d][2])
        &&& self.groups()[d + 1].len() == 6
        &&& self.samples()[0] == raw_sample_of(self.groups()[d] + self.groups()[d + 1])
        &&& forall|i: int|
            1 <= i < self.samples().len() ==> (#[trigger] self.groups()[d + 1 + i]).len() == 9
                && self.samples()[i] == raw_sample_of(self.groups()[d + 1 + i])
    }

    /// The invariant of a reader: the entries reported are those dropped,
    /// those in the samples, those being read and those left.
    pub open spec fn wf(&self) -> bool {
        &&& self.capacity() >= 1
        &&& self.samples().len() <= self.capacity()
        &&& self.reported() < 0x80
        &&& match self.stage() {
            FifoStage::Entries => {
                &&& self.groups().len() == 0
                &&& self.samples().len() == 0
                &&& self.discarded() == 0
            },
            FifoStage::Align => {
                &&& self.samples().len() == 0
                &&& self.groups().len() == self.discarded()
                &&& self.leading_unaligned()
                &&& self.discarded() + 1 + self.available() == self.reported()
                &&& self.available() >= 2
            },
            FifoStage::Rest => {
                &&& self.samples().len() == 0
                &&& self.groups().len() == self.discarded() + 1
                &&& self.leading_unaligned()
                &&& self.groups()[self.discarded() as int].len() == 3
                &&& x_marker(self.groups()[self.discarded() as int][2])
                &&& self.head() == self.groups()[self.discarded() as int]
                &&& self.discarded() + 3 + self.available() == self.reported()
            },
            FifoStage::Stream => {
                &&& self.assembled()
                &&& self.samples().len() < self.capacity()
                &&& self.discarded() + 3 * (self.samples().len() + 1) + self.available()
                    == self.reported()
            },
            FifoStage::Finished => {
                &&& self.assembled()
                &&& self.discarded() + 3 * self.samples().len() + self.available()
                    == self.reported()
                &&& (self.available() < 3 || self.samples().len() == self.capacity())
            },
            FifoStage::Starved => {
                &&& self.samples().len() == 0
                &&& self.groups().len() == self.discarded()
                &&& self.leading_unaligned()
                &&& self.groups().len() == 0 ==> self.reported() < 3
                &&& self.groups().len() > 0 ==> self.discarded() + self.available()
                    == self.reported() && self.available() < 3
            },
        }
    }

    /// The access that the reader waits for the reply of, if any.
    pub open spec fn awaited(&self) -> Option<RequestView> {
        match self.stage() {
            FifoStage::Entries => Some(RequestView::read(Register::FIFO_ENTRIES, 1)),
            FifoStage::Align => Some(RequestView::read(Register::FIFO_DATA, 3)),
            FifoStage::Rest => Some(RequestView::read(Register::FIFO_DATA, 6)),
            FifoStage::Stream => Some(RequestView::read(Register::FIFO_DATA, 9)),
            FifoStage::Finished => None,
            FifoStage::Starved => None,
        }
    }

    /// A bound on the number of replies that the reader still takes: each
    /// read of the FIFO data register uses up at least one of the entries left.
    pub open spec fn remaining(&self) -> nat {
        match self.stage() {
            FifoStage::Entries => 0x82,
            FifoStage::Align => self.available() + 2,
            FifoStage::Rest => self.available() + 1,
            FifoStage::Stream => self.available() + 1,
            FifoStage::Finished => 0,
            FifoStage::Starved => 0,
        }
    }

    /// The result of the reader, once it is over: the number of samples, or
    /// that there was not enough data for one.
    pub open spec fn outcome<E: core::fmt::Debug>(&self) -> Option<Result<usize, Error<E>>> {
        match self.stage() {
            FifoStage::Finished => Some(Ok(self.samples().len() as usize)),
            FifoStage::Starved => Some(Err(Error::NotEnoughData)),
            _ => None,
        }
    }

    /// How a reader stands after `prev` took the reply `data`. Together with
    /// the invariant this fixes every access and the result of the reader.
    ///
    /// - The number of entries: with fewer than three the reader is starved;
    ///   else one entry is read.
    /// - An entry without the x-axis marker is dropped: with fewer than three
    ///   entries left the reader is starved, else one more entry is read.
    /// - An entry with the marker is kept, and the two entries that complete
    ///   the sample are read.
    /// - A completed sample is kept. With three entries left and room for a
    ///   sample three more entries are read; else the reader is finished.
    pub open spec fn follows(&self, prev: &FifoReader, data: Seq<u8>) -> bool {
        &&& self.capacity() == prev.capacity()
        &&& match prev.stage() {
            FifoStage::Entries => {
                &&& self.reported() == fifo_entries_of(data[0])
                &&& self.groups() == prev.groups()
                &&& self.discarded() == 0
                &&& self.samples().len() == 0
                &&& self.stage() == (if fifo_entries_of(data[0]) < 3 {
                    FifoStage::Starved
                } else {
                    FifoStage::Align
                })
            },
            FifoStage::Align => {
                &&& self.reported() == prev.reported()
                &&& self.groups() == prev.groups().push(data)
                &&& self.samples().len() == 0
                &&& self.discarded() == (if x_marker(data[2]) {
                    prev.discarded()
                } else {
                    prev.discarded() + 1
                })
                &&& self.stage() == (if x_marker(data[2]) {
                    FifoStage::Rest
                } else if prev.available() < 3 {
                    FifoStage::Starved
                } else {
                    FifoStage::Align
                })
                &&& self.stage() == FifoStage::Align ==> self.available() < prev.available()
            },
            FifoStage::Rest | FifoStage::Stream => {
                &&& self.reported() == prev.reported()
                &&& self.groups() == prev.groups().push(data)
                &&& self.discarded() == prev.discarded()
                &&& self.samples().len() == prev.samples().len() + 1
                &&& self.stage() == (if prev.available() >= 3 && self.samples().len()
                    < prev.capacity() {
                    FifoStage::Stream
                } else {
                    FifoStage::Finished
                })
                &&& self.stage() == FifoStage::Stream ==> self.available() < prev.available()
            },
            FifoStage::Finished | FifoStage::Starved => *self == *prev,
        }
    }

    /// A reader with room for `capacity` samples, and its first access: a read
    /// of the number of entries.
    pub fn new(capacity: usize) -> (r: (FifoReader, Request))
        requires
            capacity >= 1,
        ensures
            r.0.wf(),
            r.0.capacity() == capacity,
            r.0.stage() == FifoStage::Entries,
            r.0.reported() == 0,
            r.0.available() == 0,
            r.0.remaining() == 0x82,
            Some(r.1@) == r.0.awaited(),
    {
        let reader = FifoReader {
            capacity,
            stage: FifoStage::Entries,
            available: 0,
            head: [0, 0, 0],
            samples: Vec::new(),
            reported: Ghost(0),
            discarded: Ghost(0),
            groups: Ghost(Seq::empty()),
        };
        (reader, Request::read(Register::FIFO_ENTRIES, 1))
    }

    /// The number of bytes of the reply that the reader waits for, if it waits for one.
    pub fn awaited_len(&self) -> (n: Option<usize>)
        ensures
            n is Some == self.awaited() is Some,
            n is Some ==> n->0 == self.awaited()->0.reply_len(),
    {
        match self.stage {
            FifoStage::Entries => Some(1),
            FifoStage::Align => Some(3),
            FifoStage::Rest => Some(6),
            FifoStage::Stream => Some(9),
            FifoStage::Finished => None,
            FifoStage::Starved => None,
        }
    }

    /// The samples assembled so far.
    pub fn raw_samples(&self) -> (samples: Vec<RawSample>)
        ensures
            samples@ == self.samples(),
    {
        let mut samples: Vec<RawSample> = Vec::new();
        let mut i: usize = 0;
        while i < self.samples.len()
            invariant
                i <= self.samples.len(),
                samples@ == self.samples@.take(i as int),
            decreases self.samples.len() - i,
        {
            samples.push(self.samples[i]);
            assert(self.samples@.take(i as int + 1) =~= self.samples@.take(i as int).push(
                self.samples@[i as int],
            ));
            i += 1;
        }
        assert(self.samples@.take(self.samples.len() as int) =~= self.samples@);
        samples
    }

    /// The samples assembled so far, each multiplied by a scale factor.
    pub fn scaled_samples(&self, scale_factor: u32) -> (samples: Vec<Sample>)
        ensures
            samples@.len() == self.samples().len(),
            forall|i: int|
                0 <= i < samples@.len() ==> samples@[i] == scaled(
                    #[trigger] self.samples()[i],
                    scale_factor,
                ),
    {
        let mut samples: Vec<Sample> = Vec::new();
        let mut i: usize = 0;
        while i < self.samples.len()
            invariant
                i <= self.samples.len(),
                samples@.len() == i,
                forall|j: int|
                    0 <= j < i ==> samples@[j] == scaled(#[trigger] self.samples@[j], scale_factor),
            decreases self.samples.len() - i,
        {
            samples.push(scale_sample(&self.samples[i], scale_factor));
            i += 1;
        }
        samples
    }

    /// Takes the reply to the access that the reader waits for, and gives the
    /// next access or, when the reader is over, its result.
    pub fn resume<E: core::fmt::Debug>(&mut self, data: &Vec<u8>) -> (p: Progress<
        Result<usize, Error<E>>,
    >)
        requires
            old(self).wf(),
            old(self).awaited() is Some,
            data.len() == old(self).awaited()->0.reply_len(),
        ensures
            final(self).wf(),
            final(self).follows(old(self), data@),
            final(self).remaining() < old(self).remaining(),
            match p {
                Progress::Request(q) => Some(q@) == final(self).awaited(),
                Progress::Done(r) => Some(r) == final(self).outcome::<E>(),
            },
    {
        match self.stage {
            FifoStage::Entries => {
                let count = fifo_entries(data[0]);
                self.reported = Ghost(count as nat);
                if count < 3 {
                    self.stage = FifoStage::Starved;
                    return Progress::Done(Err(Error::NotEnoughData));
                }
                self.available = count - 1;
                self.stage = FifoStage::Align;
                Progress::Request(Request::read(Register::FIFO_DATA, 3))
            },
            FifoStage::Align => {
                self.groups = Ghost(self.groups@.push(data@));
                if data[2] & 0x01 == 0 {
                    assert(!x_marker(data@[2])) by {
                        let b = data@[2];
                        assert(b & 0x01 == 0 ==> !(b & 0x01 == 0x01)) by (bit_vector);
                    }
                    self.discarded = Ghost(self.discarded@ + 1);
                    if self.available < 3 {
                        self.stage = FifoStage::Starved;
                        return Progress::Done(Err(Error::NotEnoughData));
                    }
                    self.available = self.available - 1;
                    Progress::Request(Request::read(Register::FIFO_DATA, 3))
                } else {
                    assert(x_marker(data@[2])) by {
                        let b = data@[2];
                        assert(b & 0x01 != 0 ==> b & 0x01 == 0x01) by (bit_vector);
                    }
                    self.head = [data[0], data[1], data[2]];
                    assert(self.head@ =~= data@);
                    self.available = self.available - 2;
                    self.stage = FifoStage::Rest;
                    Progress::Request(Request::read(Register::FIFO_DATA, 6))
                }
            },
            FifoStage::Rest => {
                let buf: [u8; 9] = [
                    self.head[0],
                    self.head[1],
                    self.head[2],
                    data[0],
                    data[1],
                    data[2],
                    data[3],
                    data[4],
                    data[5],
                ];
                proof {
                    assert(buf@ =~= self.groups@[self.discarded@ as int] + data@);
                }
                self.groups = Ghost(self.groups@.push(data@));
                self.keep(&buf)
            },
            FifoStage::Stream => {
                let buf: [u8; 9] = [
                    data[0],
                    data[1],
                    data[2],
                    data[3],
                    data[4],
                    data[5],
                    data[6],
                    data[7],
                    data[8],
                ];
                assert(buf@ =~= data@);
                self.groups = Ghost(self.groups@.push(data@));
                self.keep(&buf)
            },
            FifoStage::Finished => Progress::Done(Ok(self.samples.len())),
            FifoStage::Starved => Progress::Done(Err(Error::NotEnoughData)),
        }
    }

    /// Decodes a completed sample, keeps it, and decides whether to go on.
    fn keep<E: core::fmt::Debug>(&mut self, buf: &[u8; 9]) -> (p: Progress<
        Result<usize, Error<E>>,
    >)
        requires
            old(self).stage == FifoStage::Rest || old(self).stage == FifoStage::Stream,
            old(self).samples@.len() < old(self).capacity,
        ensures
            final(self).samples@ == old(self).samples@.push(raw_sample_of(buf@)),
            final(self).capacity == old(self).capacity,
            final(self).reported == old(self).reported,
            final(self).discarded == old(self).discarded,
            final(self).groups == old(self).groups,
            final(self).head == old(self).head,
            old(self).available >= 3 && final(self).samples@.len() < old(self).capacity ==> {
                &&& final(self).stage == FifoStage::Stream
                &&& final(self).available == old(self).available - 3
                &&& p matches Progress::Request(q) && q@ == RequestView::read(
                    Register::FIFO_DATA,
                    9,
                )
            },
            !(old(self).available >= 3 && final(self).samples@.len() < old(self).capacity) ==> {
                &&& final(self).stage == FifoStage::Finished
                &&& final(self).available == old(self).available
                &&& p == Progress::<Result<usize, Error<E>>>::Done(
                    Ok(final(self).samples@.len() as usize),
                )
            },
    {
        let mut sample = RawSample { x: 0, y: 0, z: 0 };
        acc_buf_to_raw_sample(buf, &mut sample);
        self.samples.push(sample);
        if self.available >= 3 && self.samples.len() < self.capacity {
            self.available = self.available - 3;
            self.stage = FifoStage::Stream;
            Progress::Request(Request::read(Register::FIFO_DATA, 9))
        } else {
            self.stage = FifoStage::Finished;
            Progress::Done(Ok(self.samples.len()))
        }
    }

    /// A finished reader holds as many samples as the entries left after the
    /// dropped ones make up, or as there was room for, whichever is fewer; and
    /// at least one.
    pub proof fn lemma_sample_count(&self)
        requires
            self.wf(),
            self.stage() == FifoStage::Finished,
        ensures
            self.samples().len() == sample_count(
                self.reported(),
                self.discarded(),
                self.capacity(),
            ),
            self.samples().len() >= 1,
    {
    }

    /// No dropped entry is part of a sample: the first sample begins with the
    /// first entry that carries the x-axis marker.
    pub proof fn lemma_discarded_entries_are_left_out(&self, j: int)
        requires
            self.wf(),
            self.stage() == FifoStage::Finished,
            0 <= j < self.discarded(),
        ensures
            !x_marker(self.groups()[j][2]),
            x_marker(self.groups()[self.discarded() as int][2]),
            self.samples()[0] == raw_sample_of(
                self.groups()[self.discarded() as int] + self.groups()[self.discarded() as int + 1],
            ),
    {
    }

    /// A FIFO that reports exactly three entries and begins with an x-axis
    /// entry gives exactly one sample, made of the nine bytes that were read.
    pub proof fn lemma_three_aligned_entries(
        begun: &FifoReader,
        counted: &FifoReader,
        aligned: &FifoReader,
        completed: &FifoReader,
        entries: Seq<u8>,
        first: Seq<u8>,
        rest: Seq<u8>,
    )
        requires
            begun.wf(),
            begun.stage() == FifoStage::Entries,
            counted.wf(),
            counted.follows(begun, entries),
            fifo_entries_of(entries[0]) == 3,
            aligned.wf(),
            aligned.follows(counted, first),
            x_marker(first[2]),
            completed.wf(),
            completed.follows(aligned, rest),
        ensures
            completed.stage() == FifoStage::Finished,
            completed.samples() == seq![raw_sample_of(first + rest)],
            completed.available() == 0,
    {
        assert(completed.groups()[0] == first);
        assert(completed.groups()[1] == rest);
        assert(completed.samples() =~= seq![raw_sample_of(first + rest)]);
    }

    /// A FIFO that reports fewer than three entries starves the reader at
    /// once: nothing is read from the FIFO data register.
    pub proof fn lemma_too_few_entries_starve<E: core::fmt::Debug>(
        begun: &FifoReader,
        counted: &FifoReader,
        entries: Seq<u8>,
    )
        requires
            begun.wf(),
            begun.stage() == FifoStage::Entries,
            counted.follows(begun, entries),
            fifo_entries_of(entries[0]) < 3,
        ensures
            counted.outcome::<E>() == Some(Err::<usize, Error<E>>(Error::NotEnoughData)),
            counted.awaited() is None,
            counted.groups().len() == 0,
    {
    }

    /// A finished reader that reported exactly three entries holds exactly
    /// one sample, has dropped nothing, and has left no entry.
    pub proof fn lemma_three_entries_make_one_sample(&self)
        requires
            self.wf(),
            self.stage() == FifoStage::Finished,
            self.reported() == 3,
        ensures
            self.samples().len() == 1,
            self.discarded() == 0,
            self.available() == 0,
    {
    }
}

} // verus!
