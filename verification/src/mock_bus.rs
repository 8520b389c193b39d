//! An in-memory bus for exercising the driver without hardware.
//!
//! [`MockBus`] records every transaction as plain values, answers reads from
//! a queue of prepared response bytes, and can be told to fail its next
//! operation with a chosen transport error code. Its recorded transactions
//! are exactly its ghost [`Bus::log`], so what a test observes is what the
//! driver's contracts speak of.

use vstd::prelude::*;
use vstd::slice::slice_to_vec;

use crate::bus::{Bus, Transaction};

verus! {

/// One recorded transaction of a [`MockBus`], as plain values.
#[derive(Debug, PartialEq)]
pub enum BusRecord {
    /// A single write transaction sending `data` to the device at `addr`.
    Write { addr: u8, data: Vec<u8> },
    /// A single transaction sending `data` to the device at `addr`, then
    /// reading `response` back.
    WriteRead { addr: u8, data: Vec<u8>, response: Vec<u8> },
}

impl View for BusRecord {
    type V = Transaction;

    open spec fn view(&self) -> Transaction {
        match self {
            BusRecord::Write { addr, data } => Transaction::Write { addr: *addr, data: data@ },
            BusRecord::WriteRead { addr, data, response } => Transaction::WriteRead {
                addr: *addr,
                data: data@,
                response: response@,
            },
        }
    }
}

/// The transactions a sequence of records stands for.
pub open spec fn records_view(records: Seq<BusRecord>) -> Seq<Transaction> {
    records.map_values(|record: BusRecord| record@)
}

/// The bytes a read of `n` bytes receives from a response queue: the queue's
/// first `n` bytes, padded with zeros once the queue runs out.
pub open spec fn supplied_response(queue: Seq<u8>, n: nat) -> Seq<u8> {
    Seq::new(n, |i: int| if i < queue.len() { queue[i] } else { 0u8 })
}

/// What remains of a response queue after a read of `n` bytes.
pub open spec fn remaining_responses(queue: Seq<u8>, n: nat) -> Seq<u8> {
    if n <= queue.len() {
        queue.skip(n as int)
    } else {
        Seq::<u8>::empty()
    }
}

/// An in-memory bus that records every transaction.
pub struct MockBus {
    records: Vec<BusRecord>,
    responses: Vec<u8>,
    error: Option<u8>,
}

impl MockBus {
    /// The response bytes not yet handed out, in the order reads see them.
    pub closed spec fn queued_responses(&self) -> Seq<u8> {
        self.responses@
    }

    /// The error code the next operation will fail with, if one is set.
    pub closed spec fn pending_error(&self) -> Option<u8> {
        self.error
    }

    /// Create a bus with no recorded transactions and no prepared responses.
    pub fn new() -> (bus: MockBus)
        ensures
            bus.log() == Seq::<Transaction>::empty(),
            bus.queued_responses() == Seq::<u8>::empty(),
            bus.pending_error() is None,
    {
        let bus = MockBus { records: Vec::new(), responses: Vec::new(), error: None };
        proof {
            assert(bus.log() =~= Seq::<Transaction>::empty());
        }
        bus
    }

    /// Create a bus whose reads are answered from `responses`, front first.
    pub fn with_responses(responses: Vec<u8>) -> (bus: MockBus)
        ensures
            bus.log() == Seq::<Transaction>::empty(),
            bus.queued_responses() == responses@,
            bus.pending_error() is None,
    {
        let bus = MockBus { records: Vec::new(), responses, error: None };
        proof {
            assert(bus.log() =~= Seq::<Transaction>::empty());
        }
        bus
    }

    /// Make the next bus operation fail with the given transport error code.
    pub fn inject_error(&mut self, code: u8)
        ensures
            final(self).pending_error() == Some(code),
            final(self).log() == old(self).log(),
            final(self).queued_responses() == old(self).queued_responses(),
    {
        self.error = Some(code);
    }

    /// The recorded transactions, oldest first.
    pub fn transactions(&self) -> (records: &Vec<BusRecord>)
        ensures
            records_view(records@) == self.log(),
    {
        &self.records
    }
}

/// Split a response queue for a read of `read_len` bytes: what the read
/// receives, and what remains queued.
fn split_response(queue: &Vec<u8>, read_len: usize) -> (out: (Vec<u8>, Vec<u8>))
    ensures
        out.0@ == supplied_response(queue@, read_len as nat),
        out.1@ == remaining_responses(queue@, read_len as nat),
{
    let mut response: Vec<u8> = Vec::new();
    let mut i: usize = 0;
    while i < read_len
        invariant
            i <= read_len,
            response@.len() == i,
            forall|k: int| 0 <= k < i ==> response@[k] == supplied_response(
                queue@,
                read_len as nat,
            )[k],
        decreases read_len - i,
    {
        if i < queue.len() {
            response.push(queue[i]);
        } else {
            response.push(0);
        }
        i += 1;
    }
    let consumed: usize = if read_len < queue.len() {
        read_len
    } else {
        queue.len()
    };
    let mut rest: Vec<u8> = Vec::new();
    let mut j: usize = consumed;
    while j < queue.len()
        invariant
            consumed <= j <= queue@.len(),
            rest@.len() == j - consumed,
            forall|k: int| 0 <= k < rest@.len() ==> rest@[k] == queue@[consumed + k],
        decreases queue@.len() - j,
    {
        rest.push(queue[j]);
        j += 1;
    }
    proof {
        assert(response@ =~= supplied_response(queue@, read_len as nat));
        assert(rest@ =~= remaining_responses(queue@, read_len as nat));
    }
    (response, rest)
}

impl Bus for MockBus {
    type BusError = u8;

    closed spec fn log(&self) -> Seq<Transaction> {
        records_view(self.records@)
    }

    fn write(&mut self, addr: u8, data: &[u8]) -> (result: Result<(), u8>)
        ensures
            final(self).queued_responses() == old(self).queued_responses(),
            final(self).pending_error() is None,
            match old(self).pending_error() {
                Some(code) => result == Err::<(), u8>(code),
                None => result == Ok::<(), u8>(()),
            },
    {
        match self.error {
            Some(code) => {
                self.error = None;
                Err(code)
            },
            None => {
                let record = BusRecord::Write { addr, data: slice_to_vec(data) };
                let ghost previous = self.records@;
                self.records.push(record);
                proof {
                    assert(records_view(self.records@) =~= records_view(previous).push(
                        Transaction::Write { addr, data: data@ },
                    ));
                }
                Ok(())
            },
        }
    }

    fn write_read(&mut self, addr: u8, data: &[u8], read_len: usize) -> (result: Result<
        Vec<u8>,
        u8,
    >)
        ensures
            final(self).pending_error() is None,
            match old(self).pending_error() {
                Some(code) => result == Err::<Vec<u8>, u8>(code) && final(self).queued_responses()
                    == old(self).queued_responses(),
                None => result matches Ok(response) && response@ == supplied_response(
                    old(self).queued_responses(),
                    read_len as nat,
                ) && final(self).queued_responses() == remaining_responses(
                    old(self).queued_responses(),
                    read_len as nat,
                ),
            },
    {
        match self.error {
            Some(code) => {
                self.error = None;
                Err(code)
            },
            None => {
                let (response, rest) = split_response(&self.responses, read_len);
                self.responses = rest;
                let recorded_response = slice_to_vec(response.as_slice());
                let record = BusRecord::WriteRead {
                    addr,
                    data: slice_to_vec(data),
                    response: recorded_response,
                };
                let ghost previous = self.records@;
                self.records.push(record);
                proof {
                    assert(records_view(self.records@) =~= records_view(previous).push(
                        Transaction::WriteRead { addr, data: data@, response: response@ },
                    ));
                }
                Ok(response)
            },
        }
    }
}

} // verus!
