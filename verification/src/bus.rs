//! The bus transport the driver talks through.
//!
//! The driver is generic over any two-wire bus master that offers the two
//! primitive operations it needs: a plain write, and a combined
//! write-then-read. The trait carries a ghost transaction log so that every
//! contract in this crate can state exactly which bytes went over the wire.

use vstd::prelude::*;

verus! {

/// One bus transaction, as recorded in the ghost transaction log.
pub enum Transaction {
    /// A single write transaction sending `data` to the device at `addr`.
    Write { addr: u8, data: Seq<u8> },
    /// A single transaction sending `data` to the device at `addr`, then
    /// reading `response` back.
    WriteRead { addr: u8, data: Seq<u8>, response: Seq<u8> },
}

/// The transaction that writes `value` to register `reg` of the device at
/// `addr`: a two-byte payload of register address and value.
pub open spec fn register_write(addr: u8, reg: u8, value: u8) -> Transaction {
    Transaction::Write { addr, data: seq![reg, value] }
}

/// The transaction that selects register `reg` of the device at `addr` and
/// reads one byte back.
pub open spec fn single_byte_read(addr: u8, reg: u8, value: u8) -> Transaction {
    Transaction::WriteRead { addr, data: seq![reg], response: seq![value] }
}

/// The transaction that selects register `reg` of the device at `addr` and
/// reads two bytes back.
pub open spec fn two_byte_read(addr: u8, reg: u8, first: u8, second: u8) -> Transaction {
    Transaction::WriteRead { addr, data: seq![reg], response: seq![first, second] }
}

/// A blocking two-wire bus master.
///
/// `log` is the ghost history of all transactions performed so far, oldest
/// first. An operation either fully happens — exactly one transaction is
/// appended to the log — or fails with the transport's own error value and
/// leaves the log as it was.
pub trait Bus: Sized {
    /// The transport's own error type.
    type BusError;

    /// The history of transactions performed on this bus, oldest first.
    ///
    /// The default body stands only so that unverified bus implementations
    /// outside this crate need not name ghost types; an implementation
    /// verified against this trait's contracts has to give `log` a body of
    /// its own, since no operation can extend a history that stays empty.
    open spec fn log(&self) -> Seq<Transaction> {
        Seq::<Transaction>::empty()
    }

    /// Send `data` to the device at `addr` as a single write transaction.
    fn write(&mut self, addr: u8, data: &[u8]) -> (result: Result<(), Self::BusError>)
        ensures
            match result {
                Ok(()) => final(self).log() == old(self).log().push(
                    Transaction::Write { addr, data: data@ },
                ),
                Err(_) => final(self).log() == old(self).log(),
            },
    ;

    /// Send `data` to the device at `addr`, then read `read_len` bytes back,
    /// as a single transaction.
    fn write_read(&mut self, addr: u8, data: &[u8], read_len: usize) -> (result: Result<
        Vec<u8>,
        Self::BusError,
    >)
        ensures
            match result {
                Ok(response) => response@.len() == read_len && final(self).log() == old(
                    self,
                ).log().push(
                    Transaction::WriteRead { addr, data: data@, response: response@ },
                ),
                Err(_) => final(self).log() == old(self).log(),
            },
    ;
}

} // verus!
