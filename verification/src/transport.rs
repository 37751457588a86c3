//! The bus transport the driver talks through, and the vocabulary in which
//! the driver states what it asked of the transport.

use vstd::prelude::*;

verus! {

/// One completed bus transaction: what was addressed, what was sent or
/// asked for, and how it ended.
pub enum Transaction<E> {
    /// `bytes` were sent to the device at `address`.
    Write { address: u8, bytes: Seq<u8>, outcome: Result<(), E> },
    /// `bytes` were sent to the device at `address` and, without releasing
    /// the bus, `want` bytes were asked back.
    WriteRead { address: u8, bytes: Seq<u8>, want: nat, reply: Result<Seq<u8>, E> },
    /// `want` bytes were asked from the device at `address`.
    Read { address: u8, want: nat, reply: Result<Seq<u8>, E> },
}

impl<E> Transaction<E> {
    /// The device address the transaction was aimed at.
    pub open spec fn target(self) -> u8 {
        match self {
            Transaction::Write { address, .. } => address,
            Transaction::WriteRead { address, .. } => address,
            Transaction::Read { address, .. } => address,
        }
    }
}

/// The reply of a reading transaction: the bytes left in the buffer when
/// it succeeded, the transport's error when it did not.
pub open spec fn received<E>(outcome: Result<(), E>, buffer: Seq<u8>) -> Result<Seq<u8>, E> {
    match outcome {
        Ok(_) => Ok(buffer),
        Err(e) => Err(e),
    }
}

/// A blocking two-wire bus master.
///
/// Each call is one complete transaction with the device at `address`.
/// The driver built on it never retries and never looks inside `Error`.
pub trait Transport: Sized {
    /// What the transport reports when a transaction fails.
    type Error;

    /// Whether the transport, being in state `self`, can carry out
    /// `transaction` and be left in state `after`.
    ///
    /// An implementation states here how it behaves. One that states
    /// nothing admits every transaction with every result.
    open spec fn performs(&self, transaction: Transaction<Self::Error>, after: &Self) -> bool {
        true
    }

    /// Sends `bytes` to the device at `address`.
    fn write(&mut self, address: u8, bytes: &[u8]) -> (outcome: Result<(), Self::Error>)
        ensures
            old(self).performs(Transaction::Write { address, bytes: bytes@, outcome }, final(self)),
    ;

    /// Sends `bytes` to the device at `address`, then fills `buffer` from
    /// it, as a single transaction.
    fn write_read(&mut self, address: u8, bytes: &[u8], buffer: &mut [u8]) -> (outcome: Result<
        (),
        Self::Error,
    >)
        ensures
            final(buffer)@.len() == old(buffer)@.len(),
            old(self).performs(
                Transaction::WriteRead {
                    address,
                    bytes: bytes@,
                    want: old(buffer)@.len(),
                    reply: received(outcome, final(buffer)@),
                },
                final(self),
            ),
    ;

    /// Fills `buffer` from the device at `address`.
    fn read(&mut self, address: u8, buffer: &mut [u8]) -> (outcome: Result<(), Self::Error>)
        ensures
            final(buffer)@.len() == old(buffer)@.len(),
            old(self).performs(
                Transaction::Read {
                    address,
                    want: old(buffer)@.len(),
                    reply: received(outcome, final(buffer)@),
                },
                final(self),
            ),
    ;
}

/// Whether the transactions in `log`, carried out one after another in
/// that order and with nothing in between, can take the transport from
/// `before` to `after`.
pub open spec fn runs<T: Transport>(before: T, log: Seq<Transaction<T::Error>>, after: T) -> bool
    decreases log.len(),
{
    if log.len() == 0 {
        after == before
    } else {
        exists|mid: T|
            runs(before, log.drop_last(), mid) && #[trigger] mid.performs(log.last(), &after)
    }
}

/// A log of one transaction runs exactly when the transport performs it.
pub proof fn lemma_runs_one<T: Transport>(before: T, transaction: Transaction<T::Error>, after: T)
    ensures
        runs(before, seq![transaction], after) <==> before.performs(transaction, &after),
{
    let log = seq![transaction];
    assert(log.drop_last() =~= Seq::empty());
    assert(log.last() == transaction);
    reveal_with_fuel(runs, 2);
    if before.performs(transaction, &after) {
        assert(runs(before, log.drop_last(), before));
    }
}

/// A run is extended by one more transaction performed from where it ended.
pub proof fn lemma_runs_then<T: Transport>(
    before: T,
    log: Seq<Transaction<T::Error>>,
    mid: T,
    transaction: Transaction<T::Error>,
    after: T,
)
    requires
        runs(before, log, mid),
        mid.performs(transaction, &after),
    ensures
        runs(before, log.push(transaction), after),
{
    let longer = log.push(transaction);
    assert(longer.drop_last() =~= log);
    assert(longer.last() == transaction);
}

/// A run of two transactions passes through a state in between.
pub proof fn lemma_runs_two<T: Transport>(
    before: T,
    first: Transaction<T::Error>,
    second: Transaction<T::Error>,
    after: T,
)
    ensures
        runs(before, seq![first, second], after) <==> exists|mid: T|
            before.performs(first, &mid) && #[trigger] mid.performs(second, &after),
{
    let log = seq![first, second];
    assert(log.drop_last() =~= seq![first]);
    assert(log.last() == second);
    assert forall|mid: T| runs(before, seq![first], mid) <==> before.performs(first, &mid) by {
        lemma_runs_one(before, first, mid);
    }
    if runs(before, log, after) {
        let mid = choose|mid: T|
            runs(before, log.drop_last(), mid) && #[trigger] mid.performs(log.last(), &after);
        assert(before.performs(first, &mid) && mid.performs(second, &after));
    }
    if exists|mid: T| before.performs(first, &mid) && #[trigger] mid.performs(second, &after) {
        let mid = choose|mid: T| before.performs(first, &mid) && #[trigger] mid.performs(second, &after);
        assert(runs(before, log.drop_last(), mid) && mid.performs(log.last(), &after));
    }
}

} // verus!
