//! Register accesses that the driver asks for, before they are framed for a bus.

use vstd::prelude::*;
use crate::bus::{Protocol, Transfer, TransferView};
use crate::register::Register;

verus! {

/// One access to consecutive registers.
#[derive(Debug, PartialEq, Eq)]
pub enum Request {
    /// Read `len` registers from `start` on.
    Read { start: Register, len: usize },
    /// Write `payload` to the registers from `start` on.
    Write { start: Register, payload: Vec<u8> },
}

/// One access to consecutive registers, as a mathematical value.
pub enum RequestView {
    Read { start: Register, len: nat },
    Write { start: Register, payload: Seq<u8> },
}

impl View for Request {
    type V = RequestView;

    open spec fn view(&self) -> RequestView {
        match self {
            Request::Read { start, len } => RequestView::Read { start: *start, len: *len as nat },
            Request::Write { start, payload } => RequestView::Write {
                start: *start,
                payload: payload@,
            },
        }
    }
}

impl Clone for Request {
    fn clone(&self) -> (r: Self)
        ensures
            r@ == self@,
    {
        match self {
            Request::Read { start, len } => Request::Read { start: *start, len: *len },
            Request::Write { start, payload } => Request::Write {
                start: *start,
                payload: payload.clone(),
            },
        }
    }
}

impl RequestView {
    /// A read of `len` registers from `start` on.
    pub open spec fn read(start: Register, len: nat) -> RequestView {
        RequestView::Read { start, len }
    }

    /// A write of `payload` to the registers from `start` on.
    pub open spec fn write(start: Register, payload: Seq<u8>) -> RequestView {
        RequestView::Write { start, payload }
    }

    /// The number of bytes that the device answers with.
    pub open spec fn reply_len(self) -> nat {
        match self {
            RequestView::Read { start, len } => len,
            RequestView::Write { start, payload } => 0,
        }
    }

    /// A write that stays within the registers that can be written, from the
    /// offset trims to the reset register. A read touches no register.
    pub open spec fn spares_read_only(self) -> bool {
        match self {
            RequestView::Read { start, len } => true,
            RequestView::Write { start, payload } => 0x1E <= start.spec_addr() && start.spec_addr()
                + payload.len() <= 0x30,
        }
    }

    /// The bus transaction that carries the access out under a protocol.
    pub open spec fn frame<P: Protocol>(self, protocol: &P) -> TransferView {
        match self {
            RequestView::Read { start, len } => protocol.read_frame(start.spec_addr(), len),
            RequestView::Write { start, payload } => protocol.write_frame(
                start.spec_addr(),
                payload,
            ),
        }
    }
}

/// Every register in the span of a write that spares the read-only registers
/// can be written.
pub proof fn lemma_spared_registers_are_writable(request: RequestView, register: Register)
    requires
        request.spares_read_only(),
        request is Write,
        request->Write_start.spec_addr() <= register.spec_addr(),
        register.spec_addr() < request->Write_start.spec_addr() + request->payload.len(),
    ensures
        !Register::read_only_address(register.spec_addr()),
{
}

impl Request {
    /// A read of `len` registers from `start` on.
    pub fn read(start: Register, len: usize) -> (r: Request)
        ensures
            r@ == RequestView::read(start, len as nat),
    {
        Request::Read { start, len }
    }

    /// A write of one value to a register.
    pub fn write(register: Register, value: u8) -> (r: Request)
        ensures
            r@ == RequestView::write(register, seq![value]),
    {
        let payload = vec![value];
        assert(payload@ =~= seq![value]);
        Request::Write { start: register, payload }
    }

    /// A write of `payload` to the registers from `start` on.
    pub fn write_many(start: Register, payload: Vec<u8>) -> (r: Request)
        ensures
            r@ == RequestView::write(start, payload@),
    {
        Request::Write { start, payload }
    }

    /// Frames the access for a bus: a single register goes through the
    /// protocol's single-register operation, several through its
    /// multiple-register operation, and a write of no register is a write of
    /// the address alone.
    pub fn frame<P: Protocol>(self, protocol: &P) -> (t: Transfer)
        ensures
            t@ == self@.frame(protocol),
    {
        match self {
            Request::Read { start, len } => {
                if len == 1 {
                    protocol.read_register(start)
                } else {
                    protocol.read_multiple_registers(start, len)
                }
            },
            Request::Write { start, payload } => {
                if payload.len() == 1 {
                    assert(payload@ =~= seq![payload@[0]]);
                    protocol.write_register(start, payload[0])
                } else {
                    let mut buf: Vec<u8> = Vec::new();
                    buf.push(start.addr());
                    let mut i: usize = 0;
                    while i < payload.len()
                        invariant
                            i <= payload.len(),
                            buf@ == seq![start.spec_addr()] + payload@.take(i as int),
                        decreases payload.len() - i,
                    {
                        buf.push(payload[i]);
                        assert(payload@.take(i as int + 1) =~= payload@.take(i as int).push(
                            payload@[i as int],
                        ));
                        assert(buf@ =~= seq![start.spec_addr()] + payload@.take(i as int + 1));
                        i += 1;
                    }
                    assert(payload@.take(payload.len() as int) =~= payload@);
                    assert(buf@.skip(1) =~= payload@);
                    protocol.write_multiple_registers(&mut buf)
                }
            },
        }
    }
}

/// What a sequence of register accesses needs next: one more access, or
/// nothing, with its result.
#[derive(Debug)]
pub enum Progress<T> {
    /// This access is to be made, and its reply handed back.
    Request(Request),
    /// The sequence is over.
    Done(T),
}

} // verus!
