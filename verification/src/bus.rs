//! Bus protocols: how register reads and writes become bus transactions.
//!
//! On the 4-wire bus the first byte of a transaction holds the register
//! address in bits 7 to 1 and the read flag in bit 0. On the 2-wire bus the
//! first byte is the register address, and the transaction is addressed to the
//! device, which has one of two addresses.

use vstd::prelude::*;
use crate::register::Register;

verus! {

/// Device address when using I2C protocol depending on the state of the ASEL pin.
#[derive(Copy, Clone, Debug, PartialEq, Eq, Structural)]
pub enum DeviceI2cAddress {
    /// Device address with ASEL pin low
    AselPinLow,
    /// Device address with ASEL pin high
    AselPinHigh,
}

impl DeviceI2cAddress {
    /// The 7-bit bus address of the device.
    pub open spec fn spec_val(self) -> u8 {
        match self {
            DeviceI2cAddress::AselPinLow => 0x1D,
            DeviceI2cAddress::AselPinHigh => 0x53,
        }
    }

    /// The 7-bit bus address of the device.
    #[verifier::when_used_as_spec(spec_val)]
    pub fn val(self) -> (a: u8)
        ensures
            a == self.spec_val(),
    {
        match self {
            DeviceI2cAddress::AselPinLow => 0x1D,
            DeviceI2cAddress::AselPinHigh => 0x53,
        }
    }
}

impl Default for DeviceI2cAddress {
    /// The address with ASEL pin low.
    fn default() -> (a: Self)
        ensures
            a == DeviceI2cAddress::AselPinLow,
    {
        DeviceI2cAddress::AselPinLow
    }
}

/// One bus transaction. On the 2-wire bus it is addressed to the device at
/// `address`; on the 4-wire bus, where the device is selected by its own
/// line, there is no address.
#[derive(Debug, PartialEq, Eq)]
pub enum Transfer {
    /// Write `command`, then read `len` bytes, as a single transaction.
    WriteRead { address: Option<u8>, command: Vec<u8>, len: usize },
    /// Write `bytes`.
    Write { address: Option<u8>, bytes: Vec<u8> },
}

/// One bus transaction, as a mathematical value.
pub enum TransferView {
    WriteRead { address: Option<u8>, command: Seq<u8>, len: nat },
    Write { address: Option<u8>, bytes: Seq<u8> },
}

impl View for Transfer {
    type V = TransferView;

    open spec fn view(&self) -> TransferView {
        match self {
            Transfer::WriteRead { address, command, len } => TransferView::WriteRead {
                address: *address,
                command: command@,
                len: *len as nat,
            },
            Transfer::Write { address, bytes } => TransferView::Write {
                address: *address,
                bytes: bytes@,
            },
        }
    }
}

impl Clone for Transfer {
    fn clone(&self) -> (t: Self)
        ensures
            t@ == self@,
    {
        match self {
            Transfer::WriteRead { address, command, len } => Transfer::WriteRead {
                address: *address,
                command: command.clone(),
                len: *len,
            },
            Transfer::Write { address, bytes } => Transfer::Write {
                address: *address,
                bytes: bytes.clone(),
            },
        }
    }
}

/// The framing of register accesses on a bus.
pub trait Protocol {
    /// The transaction that reads `len` registers from the address `start` on.
    spec fn read_frame(&self, start: u8, len: nat) -> TransferView;

    /// The transaction that writes `payload` to the registers from the address `start` on.
    spec fn write_frame(&self, start: u8, payload: Seq<u8>) -> TransferView;

    /// A read is a write of a command followed by a read of as many bytes as
    /// registers are read; a write is a single write of one byte and the
    /// payload; and both are addressed alike.
    proof fn lemma_frames(&self, start: u8, len: nat, payload: Seq<u8>)
        ensures
            self.read_frame(start, len) is WriteRead,
            self.read_frame(start, len)->len == len,
            self.write_frame(start, payload) is Write,
            self.write_frame(start, payload)->bytes.len() == payload.len() + 1,
            self.write_frame(start, payload)->bytes.skip(1) == payload,
            self.read_frame(start, len)->WriteRead_address == self.write_frame(
                start,
                payload,
            )->Write_address,
    ;

    /// Read a single register.
    fn read_register(&self, register: Register) -> (t: Transfer)
        ensures
            t@ == self.read_frame(register.spec_addr(), 1),
    ;

    /// Read `len` registers from the `start_register` address included.
    fn read_multiple_registers(&self, start_register: Register, len: usize) -> (t: Transfer)
        ensures
            t@ == self.read_frame(start_register.spec_addr(), len as nat),
    ;

    /// Write a single register.
    fn write_register(&self, register: Register, value: u8) -> (t: Transfer)
        ensures
            t@ == self.write_frame(register.spec_addr(), seq![value]),
    ;

    /// Write `buf.len() - 1` registers, the first byte must be the address of the start register.
    /// The buffer is left as it is transmitted.
    fn write_multiple_registers(&self, buf: &mut Vec<u8>) -> (t: Transfer)
        requires
            old(buf).len() >= 1,
        ensures
            t@ == self.write_frame(old(buf)@[0], old(buf)@.skip(1)),
            t@ is Write && t@->bytes == final(buf)@,
    ;
}

/// Framing on the synchronous 4-wire bus.
#[derive(Copy, Clone, Debug)]
pub struct SpiProtocol;

impl SpiProtocol {
    /// Bit 0 of the first byte of a transaction: set for a read.
    pub const READ_BIT: u8 = 0x01;

    /// The first byte of a read transaction: the address in bits 7 to 1, bit 0 set.
    pub open spec fn read_command(addr: u8) -> u8 {
        (addr << 1) | 0x01
    }

    /// The first byte of a write transaction: the address in bits 7 to 1, bit 0 clear.
    pub open spec fn write_command(addr: u8) -> u8 {
        addr << 1
    }

    /// The command bytes hold the address of a register in bits 7 to 1, and
    /// they differ in the read flag alone.
    pub proof fn lemma_commands(addr: u8)
        requires
            addr < 0x80,
        ensures
            SpiProtocol::read_command(addr) >> 1 == addr,
            SpiProtocol::write_command(addr) >> 1 == addr,
            SpiProtocol::read_command(addr) & 0x01 == 0x01,
            SpiProtocol::write_command(addr) & 0x01 == 0x00,
    {
        assert(addr < 0x80 ==> (((addr << 1) | 0x01) >> 1 == addr && (addr << 1) >> 1 == addr
            && ((addr << 1) | 0x01) & 0x01 == 0x01 && (addr << 1) & 0x01 == 0x00))
            by (bit_vector);
    }
}

impl Protocol for SpiProtocol {
    open spec fn read_frame(&self, start: u8, len: nat) -> TransferView {
        TransferView::WriteRead {
            address: None,
            command: seq![SpiProtocol::read_command(start)],
            len,
        }
    }

    open spec fn write_frame(&self, start: u8, payload: Seq<u8>) -> TransferView {
        TransferView::Write {
            address: None,
            bytes: seq![SpiProtocol::write_command(start)] + payload,
        }
    }

    proof fn lemma_frames(&self, start: u8, len: nat, payload: Seq<u8>) {
        assert((seq![SpiProtocol::write_command(start)] + payload).skip(1) =~= payload);
    }

    fn read_register(&self, register: Register) -> (t: Transfer) {
        let command = vec![(register.addr() << 1) | Self::READ_BIT];
        assert(command@ =~= seq![SpiProtocol::read_command(register.spec_addr())]);
        Transfer::WriteRead { address: None, command, len: 1 }
    }

    fn read_multiple_registers(&self, start_register: Register, len: usize) -> (t: Transfer) {
        let command = vec![(start_register.addr() << 1) | Self::READ_BIT];
        assert(command@ =~= seq![SpiProtocol::read_command(start_register.spec_addr())]);
        Transfer::WriteRead { address: None, command, len }
    }

    fn write_register(&self, register: Register, value: u8) -> (t: Transfer) {
        let bytes = vec![register.addr() << 1, value];
        assert(bytes@ =~= seq![SpiProtocol::write_command(register.spec_addr())] + seq![value]);
        Transfer::Write { address: None, bytes }
    }

    fn write_multiple_registers(&self, buf: &mut Vec<u8>) -> (t: Transfer) {
        let first = buf[0] << 1;
        buf.set(0, first);
        assert(buf@ =~= seq![SpiProtocol::write_command(old(buf)@[0])] + old(buf)@.skip(1));
        Transfer::Write { address: None, bytes: buf.clone() }
    }
}

/// Framing on the addressed 2-wire bus.
#[derive(Copy, Clone, Debug)]
pub struct I2cProtocol {
    address: u8,
}

impl I2cProtocol {
    /// The framing for the device at the given bus address.
    pub fn new(address: DeviceI2cAddress) -> (p: Self)
        ensures
            p.spec_address() == address.spec_val(),
    {
        I2cProtocol { address: address.val() }
    }

    /// The bus address that every transaction is addressed to.
    pub closed spec fn spec_address(&self) -> u8 {
        self.address
    }

    /// The bus address that every transaction is addressed to.
    #[verifier::when_used_as_spec(spec_address)]
    pub fn address(&self) -> (a: u8)
        ensures
            a == self.spec_address(),
    {
        self.address
    }
}

impl Protocol for I2cProtocol {
    open spec fn read_frame(&self, start: u8, len: nat) -> TransferView {
        TransferView::WriteRead { address: Some(self.spec_address()), command: seq![start], len }
    }

    open spec fn write_frame(&self, start: u8, payload: Seq<u8>) -> TransferView {
        TransferView::Write { address: Some(self.spec_address()), bytes: seq![start] + payload }
    }

    proof fn lemma_frames(&self, start: u8, len: nat, payload: Seq<u8>) {
        assert((seq![start] + payload).skip(1) =~= payload);
    }

    fn read_register(&self, register: Register) -> (t: Transfer) {
        let command = vec![register.addr()];
        assert(command@ =~= seq![register.spec_addr()]);
        Transfer::WriteRead { address: Some(self.address), command, len: 1 }
    }

    fn read_multiple_registers(&self, start_register: Register, len: usize) -> (t: Transfer) {
        let command = vec![start_register.addr()];
        assert(command@ =~= seq![start_register.spec_addr()]);
        Transfer::WriteRead { address: Some(self.address), command, len }
    }

    fn write_register(&self, register: Register, value: u8) -> (t: Transfer) {
        let bytes = vec![register.addr(), value];
        assert(bytes@ =~= seq![register.spec_addr()] + seq![value]);
        Transfer::Write { address: Some(self.address), bytes }
    }

    fn write_multiple_registers(&self, buf: &mut Vec<u8>) -> (t: Transfer) {
        assert(buf@ =~= seq![buf@[0]] + buf@.skip(1));
        Transfer::Write { address: Some(self.address), bytes: buf.clone() }
    }
}

} // verus!
