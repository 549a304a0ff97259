//! An in-memory bus transport: a register file behind the `I2cBus` trait.
//!
//! It simulates the device far enough to exercise the driver end to end
//! without hardware: reads return the stored word of the addressed register,
//! writes store their payload, and every transaction is recorded. A failure
//! threshold makes transactions fail on demand, so error propagation can be
//! exercised too. Unlike a hardware adapter, this implementation's trait
//! contracts are proved, not assumed.

use vstd::prelude::*;

use crate::bus::frame;
use crate::bus::word_to_be;
use crate::bus::I2cBus;
use crate::errors::TransportError;

verus! {

/// One recorded write transaction.
#[derive(Clone, Copy, Debug, PartialEq, Eq, Structural)]
pub struct BusWrite {
    /// Device address the transaction was addressed to.
    pub address: u8,
    /// Register address byte, the first payload byte on the wire.
    pub register: u8,
    /// More significant payload byte.
    pub msb: u8,
    /// Less significant payload byte.
    pub lsb: u8,
}

/// One recorded write-then-read transaction, with the bytes returned.
#[derive(Clone, Copy, Debug, PartialEq, Eq, Structural)]
pub struct BusRead {
    /// Device address the transaction was addressed to.
    pub address: u8,
    /// Register address byte written before the read.
    pub register: u8,
    /// More significant byte returned.
    pub msb: u8,
    /// Less significant byte returned.
    pub lsb: u8,
}

/// The frame a recorded write transaction contributes to the write log.
pub open spec fn write_frame_of(w: BusWrite) -> Seq<u8> {
    frame(w.address, w.register, w.msb, w.lsb)
}

/// The frame a recorded read transaction contributes to the read log.
pub open spec fn read_frame_of(r: BusRead) -> Seq<u8> {
    frame(r.address, r.register, r.msb, r.lsb)
}

/// The write log spelled by a record of write transactions.
pub open spec fn write_log_of(writes: Seq<BusWrite>) -> Seq<Seq<u8>> {
    writes.map_values(|w: BusWrite| write_frame_of(w))
}

/// The read log spelled by a record of read transactions.
pub open spec fn read_log_of(reads: Seq<BusRead>) -> Seq<Seq<u8>> {
    reads.map_values(|r: BusRead| read_frame_of(r))
}

/// Appending a write to the record appends its frame to the log.
pub proof fn lemma_write_log_push(writes: Seq<BusWrite>, w: BusWrite)
    ensures
        write_log_of(writes.push(w)) == write_log_of(writes).push(write_frame_of(w)),
{
    let a = write_log_of(writes.push(w));
    let b = write_log_of(writes).push(write_frame_of(w));
    assert forall|i: int| 0 <= i < a.len() implies a[i] == b[i] by {}
    assert(a =~= b);
}

/// Appending a read to the record appends its frame to the log.
pub proof fn lemma_read_log_push(reads: Seq<BusRead>, r: BusRead)
    ensures
        read_log_of(reads.push(r)) == read_log_of(reads).push(read_frame_of(r)),
{
    let a = read_log_of(reads.push(r));
    let b = read_log_of(reads).push(read_frame_of(r));
    assert forall|i: int| 0 <= i < a.len() implies a[i] == b[i] by {}
    assert(a =~= b);
}

/// A register file posing as the bus transport.
pub struct MemoryBus {
    /// Stored register words, indexed by register address. Registers beyond
    /// the vector's length read as zero and ignore writes.
    pub registers: Vec<u16>,
    /// Every successful write transaction, oldest first.
    pub writes: Vec<BusWrite>,
    /// Every successful read transaction, oldest first.
    pub reads: Vec<BusRead>,
    /// Transactions from this attempt index on fail with `TransportError`.
    pub fail_from: usize,
    /// Transactions attempted so far, successful or not (saturating).
    pub attempted: usize,
}

impl MemoryBus {
    /// The word the addressed register holds; zero outside the register file.
    pub open spec fn spec_register(self, register: u8) -> u16 {
        if (register as int) < self.registers@.len() {
            self.registers@[register as int]
        } else {
            0
        }
    }

    /// A fresh bus: 256 zeroed registers, empty history, never failing.
    pub fn new() -> (r: MemoryBus)
        ensures
            r.registers@.len() == 256,
            forall|reg: u8| r.spec_register(reg) == 0,
            r.writes@ == Seq::<BusWrite>::empty(),
            r.reads@ == Seq::<BusRead>::empty(),
            r.fail_from == usize::MAX,
            r.attempted == 0,
    {
        let mut registers: Vec<u16> = Vec::new();
        let mut i: usize = 0;
        while i < 256
            invariant
                i <= 256,
                registers@.len() == i,
                forall|j: int| 0 <= j < i ==> registers@[j] == 0,
            decreases 256 - i,
        {
            registers.push(0);
            i = i + 1;
        }
        MemoryBus { registers, writes: Vec::new(), reads: Vec::new(), fail_from: usize::MAX, attempted: 0 }
    }

    /// Store a word in the addressed register, as if hardware had set it.
    /// Registers beyond the register file ignore the store.
    pub fn set_register(&mut self, register: u8, value: u16)
        ensures
            final(self).registers@.len() == old(self).registers@.len(),
            forall|reg: u8|
                final(self).spec_register(reg) == if reg == register && (register as int) < old(
                    self,
                ).registers@.len() {
                    value
                } else {
                    old(self).spec_register(reg)
                },
            final(self).writes == old(self).writes,
            final(self).reads == old(self).reads,
            final(self).fail_from == old(self).fail_from,
            final(self).attempted == old(self).attempted,
    {
        let idx: usize = register as usize;
        if idx < self.registers.len() {
            self.registers[idx] = value;
        }
    }

    /// Make every transaction from the given attempt index on fail: 0 fails
    /// them all, 1 lets only the first succeed, and so on.
    pub fn fail_transactions_from(&mut self, index: usize)
        ensures
            *final(self) == (MemoryBus { fail_from: index, ..*old(self) }),
    {
        self.fail_from = index;
    }

    /// Count one transaction attempt and say whether it succeeds.
    fn step(&mut self) -> (ok: bool)
        ensures
            ok <==> old(self).attempted < old(self).fail_from,
            *final(self) == (MemoryBus { attempted: final(self).attempted, ..*old(self) }),
    {
        let ok = self.attempted < self.fail_from;
        if self.attempted < usize::MAX {
            self.attempted = self.attempted + 1;
        }
        ok
    }
}

impl I2cBus for MemoryBus {
    /// The frames of all recorded write transactions.
    open spec fn write_log(&self) -> Seq<Seq<u8>> {
        write_log_of(self.writes@)
    }

    /// The frames of all recorded read transactions.
    open spec fn read_log(&self) -> Seq<Seq<u8>> {
        read_log_of(self.reads@)
    }

    fn write_register(&mut self, address: u8, register: u8, msb: u8, lsb: u8) -> (r: Result<
        (),
        TransportError,
    >) {
        if !self.step() {
            return Err(TransportError);
        }
        let idx: usize = register as usize;
        if idx < self.registers.len() {
            self.registers[idx] = ((msb as u16) << 8u16) | (lsb as u16);
        }
        let record = BusWrite { address, register, msb, lsb };
        self.writes.push(record);
        proof {
            lemma_write_log_push(old(self).writes@, record);
        }
        Ok(())
    }

    fn read_register(&mut self, address: u8, register: u8) -> (r: Result<(u8, u8), TransportError>) {
        if !self.step() {
            return Err(TransportError);
        }
        let idx: usize = register as usize;
        let word: u16 = if idx < self.registers.len() {
            self.registers[idx]
        } else {
            0
        };
        let bytes = word_to_be(word);
        let record = BusRead { address, register, msb: bytes.0, lsb: bytes.1 };
        self.reads.push(record);
        proof {
            lemma_read_log_push(old(self).reads@, record);
        }
        Ok((bytes.0, bytes.1))
    }
}

} // verus!
