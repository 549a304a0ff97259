//! The abstract bus transport the driver facade drives.
//!
//! The physical two-wire bus is an external collaborator: the driver only
//! needs the two transaction shapes it uses everywhere — write a register
//! address and read two bytes back, or write a register address followed by
//! two payload bytes. `I2cBus` captures those two shapes, together with a
//! ghost history of the transactions a transport has carried, so that the
//! facade's contracts can pin down exactly which transactions each operation
//! issues and in what order.

use vstd::prelude::*;

use crate::errors::TransportError;

verus! {

/// The 16-bit word that two big-endian bytes spell.
pub open spec fn word_be(msb: u8, lsb: u8) -> u16 {
    ((msb as u16) << 8u16) | (lsb as u16)
}

/// The more significant byte of a register word in bus order.
pub open spec fn hi_byte(value: u16) -> u8 {
    (value >> 8u16) as u8
}

/// The less significant byte of a register word in bus order.
pub open spec fn lo_byte(value: u16) -> u8 {
    (value & 0xFF) as u8
}

/// One logged transaction: the device address, the register address, and the
/// two data bytes — the payload written, or the bytes the device returned.
pub open spec fn frame(address: u8, register: u8, msb: u8, lsb: u8) -> Seq<u8> {
    seq![address, register, msb, lsb]
}

/// A synchronous transport carrying addressed 16-bit register transactions.
///
/// Implementations sit outside the verified core (a hardware bus adapter, or
/// the in-memory bus of this crate). The two ghost logs are the transport's
/// history: every successful transaction appends one frame to the matching
/// log and leaves the other log unchanged. Nothing is promised about the
/// bytes a read returns — the device decides those — nor about the state
/// after a failed transaction.
pub trait I2cBus: Sized {
    /// History of successful write transactions, oldest first. The default
    /// history is empty and never grows; an implementation whose contracts
    /// are to be proved overrides it with its own model.
    open spec fn write_log(&self) -> Seq<Seq<u8>> {
        Seq::empty()
    }

    /// History of successful write-then-read transactions, oldest first.
    /// Default as for `write_log`.
    open spec fn read_log(&self) -> Seq<Seq<u8>> {
        Seq::empty()
    }

    /// One write transaction: the register address byte followed by two
    /// payload bytes, most significant first.
    fn write_register(&mut self, address: u8, register: u8, msb: u8, lsb: u8) -> (r: Result<
        (),
        TransportError,
    >)
        ensures
            r is Ok ==> final(self).write_log() == old(self).write_log().push(
                frame(address, register, msb, lsb),
            ) && final(self).read_log() == old(self).read_log(),
    ;

    /// One write-then-read transaction: write the register address byte, then
    /// read two bytes from the same device with no intervening stop
    /// condition. Returns the bytes in bus order, most significant first.
    fn read_register(&mut self, address: u8, register: u8) -> (r: Result<(u8, u8), TransportError>)
        ensures
            r matches Ok(bytes) ==> final(self).read_log() == old(self).read_log().push(
                frame(address, register, bytes.0, bytes.1),
            ) && final(self).write_log() == old(self).write_log(),
    ;
}

/// Assemble a register word from the two bytes of one read transaction.
pub fn word_from_be(msb: u8, lsb: u8) -> (r: u16)
    ensures
        r == word_be(msb, lsb),
{
    ((msb as u16) << 8u16) | (lsb as u16)
}

/// Split a register word into the two bytes of one write transaction,
/// most significant first.
pub fn word_to_be(value: u16) -> (r: (u8, u8))
    ensures
        r.0 == hi_byte(value),
        r.1 == lo_byte(value),
        word_be(r.0, r.1) == value,
{
    let msb: u8 = (value >> 8u16) as u8;
    let lsb: u8 = (value & 0xFF) as u8;
    proof {
        assert(((((value >> 8u16) as u8) as u16) << 8u16) | (((value & 0xFF) as u8) as u16)
            == value) by (bit_vector);
    }
    (msb, lsb)
}

} // verus!
