//! Bus transactions.
//!
//! A [`Transaction`] is one operation of the bus/control layer: an opcode
//! write, a data write, a timed reset pulse, or a poll of the busy line.
//! The driver's whole observable behavior is the sequence of transactions it
//! issues, so contracts speak of sequences of the mathematical model
//! [`Txn`], which a [`Transaction`] views to.

use vstd::prelude::*;

use crate::command::Command;

verus! {

/// One transaction of the bus/control layer, as issued by the driver.
#[derive(Clone, Debug)]
pub enum Transaction {
    /// Assert the reset line as a timed pulse; the two fields are the delay
    /// phases bounding the pulse, in microseconds.
    Reset(u32, u32),
    /// Send an opcode over the command channel.
    Cmd(Command),
    /// Send payload bytes over the data channel.
    Data(Vec<u8>),
    /// Send one byte value over the data channel, repeated the given number
    /// of times.
    DataRepeat(u8, u32),
    /// Poll the busy line until it reads idle; the field gives the polarity
    /// (`true` means the line is low while busy).
    WaitUntilIdle(bool),
}

/// The mathematical model of a [`Transaction`].
#[verifier::ext_equal]
pub ghost enum Txn {
    /// Timed reset pulse with its two delay phases, in microseconds.
    Reset(u32, u32),
    /// Opcode sent over the command channel.
    Cmd(Command),
    /// Payload bytes sent over the data channel.
    Data(Seq<u8>),
    /// One byte value sent repeatedly over the data channel.
    DataRepeat(u8, u32),
    /// Poll of the busy line until idle, with its polarity.
    WaitUntilIdle(bool),
}

impl View for Transaction {
    type V = Txn;

    open spec fn view(&self) -> Txn {
        match self {
            Transaction::Reset(low, high) => Txn::Reset(*low, *high),
            Transaction::Cmd(c) => Txn::Cmd(*c),
            Transaction::Data(bytes) => Txn::Data(bytes@),
            Transaction::DataRepeat(value, n) => Txn::DataRepeat(*value, *n),
            Transaction::WaitUntilIdle(busy_low) => Txn::WaitUntilIdle(*busy_low),
        }
    }
}

impl PartialEq for Transaction {
    /// Two transactions are equal when they would drive the bus identically,
    /// i.e. when their models agree.
    fn eq(&self, other: &Transaction) -> (r: bool) {
        match (self, other) {
            (Transaction::Reset(l1, h1), Transaction::Reset(l2, h2)) => *l1 == *l2 && *h1 == *h2,
            (Transaction::Cmd(c1), Transaction::Cmd(c2)) => *c1 == *c2,
            (Transaction::Data(b1), Transaction::Data(b2)) => {
                let r = b1 == b2;
                proof {
                    if r {
                        assert(b1@ =~= b2@);
                    } else {
                        assert(!(b1@ =~= b2@));
                    }
                }
                r
            },
            (Transaction::DataRepeat(v1, n1), Transaction::DataRepeat(v2, n2)) => (
                *v1 == *v2 && *n1 == *n2
            ),
            (Transaction::WaitUntilIdle(p1), Transaction::WaitUntilIdle(p2)) => *p1 == *p2,
            _ => false,
        }
    }
}

impl vstd::std_specs::cmp::PartialEqSpecImpl for Transaction {
    open spec fn obeys_eq_spec() -> bool {
        true
    }

    open spec fn eq_spec(&self, other: &Transaction) -> bool {
        self@ == other@
    }
}

} // verus!
