//! A register file that answers the codec's wire protocol: a stand-in for
//! the device that remembers the last value written to each address.

use vstd::prelude::*;
use crate::driver::{modifies, modify_log, read_transaction, write_transaction};
use crate::register::Register;
use crate::transport::{lemma_runs_one, lemma_runs_two, runs, Transaction, Transport};
use crate::wire::{
    assemble, decode_value, frame_bytes, lemma_merge_keeps_unmasked_bits,
    lemma_value_survives_framing, merge, reply_len, value_bytes,
};

verus! {

/// Why a [`RegisterFile`] refused a transaction.
#[derive(Copy, Clone, Debug, PartialEq, Eq, Structural)]
pub enum Fault {
    /// The transaction was aimed at an address the device does not answer.
    NoAcknowledge,
    /// The transaction has a shape the register protocol does not define.
    Malformed,
}

/// A device that holds one 16-bit value at each of the 256 addresses and
/// answers full register writes and register reads at one bus address.
#[derive(Debug)]
pub struct RegisterFile {
    address: u8,
    cells: [u16; 256],
}

impl View for RegisterFile {
    type V = Seq<u16>;

    /// The value held at each of the 256 register addresses.
    closed spec fn view(&self) -> Seq<u16> {
        self.cells@
    }
}

impl RegisterFile {
    /// The bus address the device answers at.
    pub closed spec fn bus_address(&self) -> u8 {
        self.address
    }

    /// A register file answering at `address`, every register zero.
    pub fn new(address: u8) -> (device: Self)
        ensures
            device.bus_address() == address,
            device@ == Seq::new(256, |a: int| 0u16),
    {
        let device = RegisterFile { address, cells: [0u16; 256] };
        assert(device@ =~= Seq::new(256, |a: int| 0u16));
        device
    }

    /// The value currently held by `register`.
    pub fn get(&self, register: Register) -> (value: u16)
        ensures
            value == self@[register.address() as int],
    {
        self.cells[register.address() as usize]
    }

    /// Puts `value` into `register` without going over the bus.
    pub fn set(&mut self, register: Register, value: u16)
        ensures
            final(self).bus_address() == old(self).bus_address(),
            final(self)@ == old(self)@.update(register.address() as int, value),
    {
        self.cells[register.address() as usize] = value;
    }
}

impl Transport for RegisterFile {
    type Error = Fault;

    /// A write of three bytes to the device's address stores the value of
    /// the last two at the address named by the first. A read preceded by
    /// one address byte returns, in two bytes, the value stored there.
    /// Everything else is refused and changes nothing.
    open spec fn performs(&self, transaction: Transaction<Fault>, after: &Self) -> bool {
        &&& after.bus_address() == self.bus_address()
        &&& match transaction {
            Transaction::Write { address, bytes, outcome } => {
                if address != self.bus_address() {
                    outcome == Err::<(), Fault>(Fault::NoAcknowledge) && after@ == self@
                } else if bytes.len() != 3 {
                    outcome == Err::<(), Fault>(Fault::Malformed) && after@ == self@
                } else {
                    &&& outcome == Ok::<(), Fault>(())
                    &&& after@ == self@.update(bytes[0] as int, assemble(bytes[1], bytes[2]))
                }
            },
            Transaction::WriteRead { address, bytes, want, reply } => {
                &&& after@ == self@
                &&& reply == if address != self.bus_address() {
                    Err::<Seq<u8>, Fault>(Fault::NoAcknowledge)
                } else if bytes.len() != 1 || want != reply_len() {
                    Err::<Seq<u8>, Fault>(Fault::Malformed)
                } else {
                    Ok::<Seq<u8>, Fault>(value_bytes(self@[bytes[0] as int]))
                }
            },
            Transaction::Read { address, want, reply } => {
                &&& after@ == self@
                &&& reply == if address != self.bus_address() {
                    Err::<Seq<u8>, Fault>(Fault::NoAcknowledge)
                } else {
                    Err::<Seq<u8>, Fault>(Fault::Malformed)
                }
            },
        }
    }

    fn write(&mut self, address: u8, bytes: &[u8]) -> (outcome: Result<(), Fault>) {
        if address != self.address {
            return Err(Fault::NoAcknowledge);
        }
        if bytes.len() != 3 {
            return Err(Fault::Malformed);
        }
        let value = decode_value([bytes[1], bytes[2]]);
        self.cells[bytes[0] as usize] = value;
        Ok(())
    }

    fn write_read(&mut self, address: u8, bytes: &[u8], buffer: &mut [u8]) -> (outcome: Result<
        (),
        Fault,
    >) {
        if address != self.address {
            return Err(Fault::NoAcknowledge);
        }
        if bytes.len() != 1 || buffer.len() != 2 {
            return Err(Fault::Malformed);
        }
        let value = self.cells[bytes[0] as usize];
        buffer[0] = ((value >> 8) & 0xff) as u8;
        buffer[1] = (value & 0xff) as u8;
        assert(buffer@ =~= value_bytes(value));
        Ok(())
    }

    fn read(&mut self, address: u8, buffer: &mut [u8]) -> (outcome: Result<(), Fault>) {
        if address != self.address {
            return Err(Fault::NoAcknowledge);
        }
        Err(Fault::Malformed)
    }
}

/// On a register file, a register written and then read at the device's
/// address gives back the value written: both transactions succeed, and
/// the register holds the value.
pub proof fn lemma_read_returns_value_written(
    before: RegisterFile,
    between: RegisterFile,
    after: RegisterFile,
    register: Register,
    value: u16,
    written: Result<(), Fault>,
    read: Result<u16, Fault>,
)
    requires
        before.performs(
            write_transaction(before.bus_address(), register, value, written),
            &between,
        ),
        between.performs(read_transaction(before.bus_address(), register, read), &after),
    ensures
        written == Ok::<(), Fault>(()),
        read == Ok::<u16, Fault>(value),
        after@ == before@.update(register.address() as int, value),
{
    let frame = frame_bytes(register, value);
    lemma_value_survives_framing(value);
    assert(frame.len() == 3 && frame[0] == register.address());
    assert(frame[1] == value_bytes(value)[0] && frame[2] == value_bytes(value)[1]);
    assert(between@[register.address() as int] == value);
    match read {
        Ok(got) => {
            lemma_value_survives_framing(got);
        },
        Err(_) => {},
    }
}

/// On a register file, a masked update at the device's address succeeds
/// and leaves in the register the old contents with the masked positions
/// replaced; every other register keeps its value.
pub proof fn lemma_modify_replaces_masked_bits(
    before: RegisterFile,
    after: RegisterFile,
    register: Register,
    mask: u16,
    value: u16,
    outcome: Result<(), Fault>,
)
    requires
        modifies(before, before.bus_address(), register, mask, value, outcome, after),
    ensures
        outcome == Ok::<(), Fault>(()),
        after@ == before@.update(
            register.address() as int,
            merge(before@[register.address() as int], mask, value),
        ),
        value & !mask == 0 ==> after@[register.address() as int] == (before@[register.address() as int]
            & !mask) | value,
{
    let address = before.bus_address();
    let held = before@[register.address() as int];
    let read = choose|read: Result<u16, Fault>|
        {
            &&& runs(before, #[trigger] modify_log(address, register, mask, value, read, outcome), after)
            &&& read matches Err(e) ==> outcome == Err::<(), Fault>(e)
        };
    match read {
        Ok(current) => {
            let first = read_transaction(address, register, read);
            let second = write_transaction(address, register, merge(current, mask, value), outcome);
            lemma_runs_two(before, first, second, after);
            let between = choose|between: RegisterFile|
                before.performs(first, &between) && #[trigger] between.performs(second, &after);
            lemma_value_survives_framing(current);
            lemma_value_survives_framing(held);
            assert(current == held);
            let merged = merge(current, mask, value);
            let frame = frame_bytes(register, merged);
            lemma_value_survives_framing(merged);
            assert(frame.len() == 3 && frame[0] == register.address());
            assert(frame[1] == value_bytes(merged)[0] && frame[2] == value_bytes(merged)[1]);
            lemma_merge_keeps_unmasked_bits(held, mask, value);
        },
        Err(e) => {
            let only = read_transaction(address, register, read);
            lemma_runs_one(before, only, after);
            assert(false);
        },
    }
}

} // verus!
