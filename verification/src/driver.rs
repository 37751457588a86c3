//! The register access engine: typed reads, writes and masked updates of
//! the codec's registers, and the wait for its write sequencer.

use vstd::prelude::*;
use crate::register::Register;
use crate::transport::{lemma_runs_one, lemma_runs_then, runs, Transaction, Transport};
use crate::wire::{
    decode_value, frame_bytes, merge, merge_bits, read_request, reply_len, request_bytes,
    value_bytes, write_frame,
};

verus! {

/// The bus address at which the codec answers unless strapped otherwise.
pub const DEVICE_ADDRESS: u8 = 0x1A;

/// What the write sequencer reported when a wait ended.
#[derive(Copy, Clone, Debug, PartialEq, Eq, Structural)]
pub enum SequencerState {
    /// The sequencer has finished; the device can be configured further.
    Idle,
    /// The sequencer was still running at the last poll.
    Busy,
}

/// The single transaction of a register write that ended in `outcome`.
pub open spec fn write_transaction<E>(
    address: u8,
    register: Register,
    value: u16,
    outcome: Result<(), E>,
) -> Transaction<E> {
    Transaction::Write { address, bytes: frame_bytes(register, value), outcome }
}

/// The single transaction of a register read that ended in `outcome`.
pub open spec fn read_transaction<E>(
    address: u8,
    register: Register,
    outcome: Result<u16, E>,
) -> Transaction<E> {
    Transaction::WriteRead {
        address,
        bytes: request_bytes(register),
        want: reply_len(),
        reply: match outcome {
            Ok(value) => Ok(value_bytes(value)),
            Err(e) => Err(e),
        },
    }
}

/// The transactions of a masked update whose read ended in `read` and
/// which itself ended in `outcome`: the read, and after a successful read
/// the write of the merged contents.
pub open spec fn modify_log<E>(
    address: u8,
    register: Register,
    mask: u16,
    value: u16,
    read: Result<u16, E>,
    outcome: Result<(), E>,
) -> Seq<Transaction<E>> {
    match read {
        Ok(current) => seq![
            read_transaction(address, register, read),
            write_transaction(address, register, merge(current, mask, value), outcome),
        ],
        Err(_) => seq![read_transaction(address, register, read)],
    }
}

/// Whether a masked update that ended in `outcome` can have taken the
/// transport from `before` to `after`.
pub open spec fn modifies<T: Transport>(
    before: T,
    address: u8,
    register: Register,
    mask: u16,
    value: u16,
    outcome: Result<(), T::Error>,
    after: T,
) -> bool {
    exists|read: Result<u16, T::Error>|
        {
            &&& runs(before, #[trigger] modify_log(address, register, mask, value, read, outcome), after)
            &&& read matches Err(e) ==> outcome == Err::<(), T::Error>(e)
        }
}

/// Whether a poll of the sequencer's status found it running.
pub open spec fn busy<E>(status: Result<u16, E>) -> bool {
    status matches Ok(value) && value != 0
}

/// The transactions of a wait whose polls ended in `statuses`, in order.
pub open spec fn poll_log<E>(address: u8, statuses: Seq<Result<u16, E>>) -> Seq<Transaction<E>> {
    Seq::new(
        statuses.len(),
        |i: int| read_transaction(address, Register::WRT_SEQUENCER_4, statuses[i]),
    )
}

/// Whether a wait allowed `max_polls` polls polled with the results
/// `statuses` and ended in `outcome`.
///
/// Every poll but the last found the sequencer running. The wait ended
/// idle on a status of zero, with the transport's error on a failed
/// poll, and busy only when its polls were used up.
pub open spec fn polled<E>(
    statuses: Seq<Result<u16, E>>,
    max_polls: u32,
    outcome: Result<SequencerState, E>,
) -> bool {
    &&& statuses.len() <= max_polls
    &&& forall|i: int| 0 <= i < statuses.len() - 1 ==> busy(#[trigger] statuses[i])
    &&& match outcome {
        Ok(SequencerState::Idle) => statuses.len() > 0 && statuses.last() == Ok::<u16, E>(0),
        Ok(SequencerState::Busy) => {
            &&& statuses.len() == max_polls
            &&& statuses.len() > 0 ==> busy(statuses.last())
        },
        Err(e) => statuses.len() > 0 && statuses.last() == Err::<u16, E>(e),
    }
}

/// Whether a wait allowed `max_polls` polls that ended in `outcome` can
/// have taken the transport from `before` to `after`.
pub open spec fn waits<T: Transport>(
    before: T,
    address: u8,
    max_polls: u32,
    outcome: Result<SequencerState, T::Error>,
    after: T,
) -> bool {
    exists|statuses: Seq<Result<u16, T::Error>>|
        {
            &&& runs(before, #[trigger] poll_log(address, statuses), after)
            &&& polled(statuses, max_polls, outcome)
        }
}

/// Driver for one WM8904 on a bus.
///
/// It owns the transport and remembers which device address to talk to.
/// It keeps no copy of any register: every operation goes to the device.
#[derive(Debug)]
pub struct WM8904<I2C> {
    i2c: I2C,
    address: u8,
}

impl<I2C: Transport> WM8904<I2C> {
    /// The device address every transaction is aimed at.
    pub closed spec fn address(&self) -> u8 {
        self.address
    }

    /// The transport in its current state.
    pub closed spec fn transport(&self) -> I2C {
        self.i2c
    }

    /// Creates a driver for the device at `address` on the bus `i2c`.
    pub fn new(i2c: I2C, address: u8) -> (driver: Self)
        ensures
            driver.address() == address,
            driver.transport() == i2c,
    {
        WM8904 { i2c, address }
    }

    /// Writes `data` to `register` in one transaction of three bytes.
    ///
    /// The result is the transport's. After a failure the register may
    /// hold anything.
    pub fn write_register(&mut self, register: Register, data: u16) -> (outcome: Result<
        (),
        I2C::Error,
    >)
        ensures
            final(self).address() == old(self).address(),
            old(self).transport().performs(
                write_transaction(old(self).address(), register, data, outcome),
                &final(self).transport(),
            ),
    {
        let frame = write_frame(register, data);
        self.i2c.write(self.address, &frame)
    }

    /// Reads `register` in one transaction: its address goes out, two
    /// bytes come back, the first being the most significant.
    pub fn read_register(&mut self, register: Register) -> (outcome: Result<u16, I2C::Error>)
        ensures
            final(self).address() == old(self).address(),
            old(self).transport().performs(
                read_transaction(old(self).address(), register, outcome),
                &final(self).transport(),
            ),
    {
        let request = read_request(register);
        let mut reply: [u8; 2] = [0u8; 2];
        match self.i2c.write_read(self.address, &request, &mut reply) {
            Ok(_) => Ok(decode_value(reply)),
            Err(e) => Err(e),
        }
    }

    /// Replaces the bits of `register` selected by `mask` with those of
    /// `value`, leaving the others as the device reported them.
    ///
    /// The register is read, then written back. When the read fails
    /// nothing is written and the read's error is returned.
    pub fn modify_register(&mut self, register: Register, mask: u16, value: u16) -> (outcome:
        Result<(), I2C::Error>)
        ensures
            final(self).address() == old(self).address(),
            modifies(
                old(self).transport(),
                old(self).address(),
                register,
                mask,
                value,
                outcome,
                final(self).transport(),
            ),
    {
        let read = self.read_register(register);
        let ghost mid = self.i2c;
        match read {
            Ok(current) => {
                let outcome = self.write_register(register, merge_bits(current, mask, value));
                proof {
                    let first = read_transaction(self.address, register, Ok::<u16, I2C::Error>(current));
                    let second = write_transaction(
                        self.address,
                        register,
                        merge(current, mask, value),
                        outcome,
                    );
                    lemma_runs_one(old(self).i2c, first, mid);
                    lemma_runs_then(old(self).i2c, seq![first], mid, second, self.i2c);
                    assert(seq![first].push(second) =~= modify_log(
                        self.address,
                        register,
                        mask,
                        value,
                        Ok::<u16, I2C::Error>(current),
                        outcome,
                    ));
                }
                outcome
            },
            Err(e) => {
                proof {
                    let only = read_transaction(self.address, register, Err::<u16, I2C::Error>(e));
                    lemma_runs_one(old(self).i2c, only, mid);
                    assert(seq![only] =~= modify_log(
                        self.address,
                        register,
                        mask,
                        value,
                        Err::<u16, I2C::Error>(e),
                        Err::<(), I2C::Error>(e),
                    ));
                }
                Err(e)
            },
        }
    }

    /// Polls the write sequencer until it reports idle, at most
    /// `max_polls` times and without pausing between polls.
    ///
    /// A status of exactly zero is idle. A failed poll ends the wait with
    /// the transport's error. A sequencer that is still running when the
    /// polls are used up is reported as busy; the caller decides whether
    /// to wait again.
    pub fn wait_on_write_sequencer(&mut self, max_polls: u32) -> (outcome: Result<
        SequencerState,
        I2C::Error,
    >)
        ensures
            final(self).address() == old(self).address(),
            waits(
                old(self).transport(),
                old(self).address(),
                max_polls,
                outcome,
                final(self).transport(),
            ),
    {
        let ghost mut statuses: Seq<Result<u16, I2C::Error>> = Seq::empty();
        let mut polls: u32 = 0;
        proof {
            assert(poll_log(self.address, statuses) =~= Seq::empty());
        }
        while polls < max_polls
            invariant
                self.address == old(self).address,
                polls <= max_polls,
                statuses.len() == polls,
                forall|i: int| 0 <= i < statuses.len() ==> busy(#[trigger] statuses[i]),
                runs(old(self).i2c, poll_log(self.address, statuses), self.i2c),
            decreases max_polls - polls,
        {
            let ghost mid = self.i2c;
            let status = self.read_register(Register::WRT_SEQUENCER_4);
            proof {
                let longer = statuses.push(status);
                lemma_runs_then(
                    old(self).i2c,
                    poll_log(self.address, statuses),
                    mid,
                    read_transaction(self.address, Register::WRT_SEQUENCER_4, status),
                    self.i2c,
                );
                assert(poll_log(self.address, statuses).push(
                    read_transaction(self.address, Register::WRT_SEQUENCER_4, status),
                ) =~= poll_log(self.address, longer));
                statuses = longer;
            }
            polls = polls + 1;
            match status {
                Ok(value) => {
                    if value == 0 {
                        return Ok(SequencerState::Idle);
                    }
                },
                Err(e) => {
                    return Err(e);
                },
            }
        }
        Ok(SequencerState::Busy)
    }

    /// Gives the transport back and ends the driver. The device is not
    /// touched.
    pub fn destroy(self) -> (i2c: I2C)
        ensures
            i2c == self.transport(),
    {
        self.i2c
    }
}

/// A wait on a sequencer that reports busy for `busy_polls` polls and idle
/// on the next, allowed more polls than that, polls exactly
/// `busy_polls + 1` times and ends idle.
pub proof fn lemma_wait_ends_at_first_idle<E>(
    statuses: Seq<Result<u16, E>>,
    max_polls: u32,
    outcome: Result<SequencerState, E>,
    busy_polls: nat,
)
    requires
        polled(statuses, max_polls, outcome),
        busy_polls < max_polls,
        forall|i: int| 0 <= i < statuses.len() && i < busy_polls ==> busy(#[trigger] statuses[i]),
        busy_polls < statuses.len() ==> statuses[busy_polls as int] == Ok::<u16, E>(0),
    ensures
        statuses.len() == busy_polls + 1,
        outcome == Ok::<SequencerState, E>(SequencerState::Idle),
{
    if statuses.len() > busy_polls + 1 {
        assert(busy(statuses[busy_polls as int]));
    }
    if 0 < statuses.len() <= busy_polls {
        assert(busy(statuses[statuses.len() - 1]));
    }
}

/// A poll that fails is the last poll of its wait, and the wait ends with
/// that poll's error.
pub proof fn lemma_wait_ends_at_failed_poll<E>(
    statuses: Seq<Result<u16, E>>,
    max_polls: u32,
    outcome: Result<SequencerState, E>,
    poll: int,
)
    requires
        polled(statuses, max_polls, outcome),
        0 <= poll < statuses.len(),
        statuses[poll] is Err,
    ensures
        poll == statuses.len() - 1,
        outcome == Err::<SequencerState, E>(statuses[poll]->Err_0),
{
    if poll < statuses.len() - 1 {
        assert(busy(statuses[poll]));
    }
}

/// A masked update whose read fails consists of that read alone: nothing
/// is written.
pub proof fn lemma_modify_ends_at_failed_read<E>(
    address: u8,
    register: Register,
    mask: u16,
    value: u16,
    read: Result<u16, E>,
    outcome: Result<(), E>,
)
    requires
        read is Err,
    ensures
        modify_log(address, register, mask, value, read, outcome) == seq![
            read_transaction(address, register, read),
        ],
        !(modify_log(address, register, mask, value, read, outcome)[0] is Write),
{
}

/// Every transaction of every operation is aimed at the address the
/// operation was given, whichever register it concerns.
pub proof fn lemma_operations_target_address<E>(
    address: u8,
    register: Register,
    mask: u16,
    value: u16,
    read: Result<u16, E>,
    outcome: Result<(), E>,
    statuses: Seq<Result<u16, E>>,
)
    ensures
        write_transaction(address, register, value, outcome).target() == address,
        read_transaction(address, register, read).target() == address,
        forall|i: int|
            0 <= i < modify_log(address, register, mask, value, read, outcome).len()
                ==> (#[trigger] modify_log(address, register, mask, value, read, outcome)[i]).target()
                == address,
        forall|i: int|
            0 <= i < poll_log(address, statuses).len() ==> (#[trigger] poll_log(
                address,
                statuses,
            )[i]).target() == address,
{
}

} // verus!
