//! The bus/control abstraction the driver issues its transactions through.
//!
//! A [`DisplayInterface`] records the transactions in order instead of
//! driving hardware; its view is the recorded sequence of [`Txn`] models.
//! An unverified I/O shim outside this crate replays the recorded
//! transcript over the physical bus and control lines.

use vstd::prelude::*;

use crate::command::Command;
use crate::transaction::{Transaction, Txn};

verus! {

/// An ordered transcript of the bus transactions issued so far.
pub struct DisplayInterface {
    log: Vec<Transaction>,
}

impl View for DisplayInterface {
    type V = Seq<Txn>;

    closed spec fn view(&self) -> Seq<Txn> {
        self.log@.map_values(|t: Transaction| t@)
    }
}

impl DisplayInterface {
    /// A fresh interface with an empty transcript.
    pub fn new() -> (r: DisplayInterface)
        ensures
            r@ == Seq::<Txn>::empty(),
    {
        let r = DisplayInterface { log: Vec::new() };
        proof {
            assert(r@ =~= Seq::<Txn>::empty());
        }
        r
    }

    /// Appends one transaction to the transcript.
    fn record(&mut self, t: Transaction)
        ensures
            final(self)@ == old(self)@.push(t@),
    {
        self.log.push(t);
        proof {
            assert(self@ =~= old(self)@.push(t@));
        }
    }

    /// Sends an opcode over the command channel.
    pub fn cmd(&mut self, command: Command)
        ensures
            final(self)@ == old(self)@.push(Txn::Cmd(command)),
    {
        self.record(Transaction::Cmd(command));
    }

    /// Sends payload bytes over the data channel.
    pub fn data(&mut self, data: Vec<u8>)
        ensures
            final(self)@ == old(self)@.push(Txn::Data(data@)),
    {
        self.record(Transaction::Data(data));
    }

    /// Sends one byte value over the data channel, repeated `repetitions`
    /// times.
    pub fn data_x_times(&mut self, value: u8, repetitions: u32)
        ensures
            final(self)@ == old(self)@.push(Txn::DataRepeat(value, repetitions)),
    {
        self.record(Transaction::DataRepeat(value, repetitions));
    }

    /// Sends an opcode, then its payload bytes.
    pub fn cmd_with_data(&mut self, command: Command, data: Vec<u8>)
        ensures
            final(self)@ == old(self)@ + seq![Txn::Cmd(command), Txn::Data(data@)],
    {
        self.cmd(command);
        self.data(data);
        proof {
            assert(self@ =~~= old(self)@ + seq![Txn::Cmd(command), Txn::Data(data@)]);
        }
    }

    /// Asserts the reset line as a timed pulse bounded by the two delay
    /// phases, in microseconds.
    pub fn reset(&mut self, low_us: u32, high_us: u32)
        ensures
            final(self)@ == old(self)@.push(Txn::Reset(low_us, high_us)),
    {
        self.record(Transaction::Reset(low_us, high_us));
    }

    /// Polls the busy line until it reads idle.  `is_busy_low` gives the
    /// line's polarity: `true` means the line is low while busy.
    pub fn wait_until_idle(&mut self, is_busy_low: bool)
        ensures
            final(self)@ == old(self)@.push(Txn::WaitUntilIdle(is_busy_low)),
    {
        self.record(Transaction::WaitUntilIdle(is_busy_low));
    }

    /// The recorded transactions, oldest first.
    pub fn transactions(&self) -> (r: &Vec<Transaction>)
        ensures
            r@.len() == self@.len(),
            forall|i: int| 0 <= i < r@.len() ==> #[trigger] r@[i]@ == self@[i],
    {
        &self.log
    }

    /// Discards the recorded transcript.
    pub fn clear(&mut self)
        ensures
            final(self)@ == Seq::<Txn>::empty(),
    {
        self.log.clear();
        proof {
            assert(self@ =~= Seq::<Txn>::empty());
        }
    }
}

} // verus!
