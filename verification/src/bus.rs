//! The memory-bus contract: the sole system boundary of the CPU core.
//!
//! A bus models a byte-addressable 16-bit address space.  Its abstract
//! contents are a sequence of 0x10000 bytes; a read returns the byte at the
//! given address and a write updates it.  `BasicMemory` is the flat-RAM
//! implementation used by tests and drivers.

use vstd::prelude::*;

verus! {

/// The little-endian 16-bit word stored at `addr`, with 16-bit address wrap
/// between the low and the high byte.
pub open spec fn word_le(m: Seq<u8>, addr: u16) -> u16 {
    (m[addr as int] + m[addr.wrapping_add(1) as int] * 0x100) as u16
}

/// Memory bus: the reads and writes the executing CPU performs.
///
/// The contracts fix every implementation to be deterministic over its
/// abstract contents: a read returns the byte at the address and changes
/// nothing, a write updates exactly that byte.  This is a deliberate
/// strengthening of the looser hardware bus, where a memory-mapped
/// peripheral may give a read side effects; it is what makes the engine
/// proofs state the machine exactly, and a peripheral-bearing bus must be
/// driven outside the verified core.
pub trait MemoryBus: Sized {
    /// The abstract contents of the 64 KiB address space.
    spec fn mem(&self) -> Seq<u8>;

    /// Reads a byte from `addr`.
    fn read_u8(&mut self, addr: u16) -> (r: u8)
        requires
            old(self).mem().len() == 0x10000,
        ensures
            final(self).mem() == old(self).mem(),
            r == old(self).mem()[addr as int],
    ;

    /// Reads a little-endian 16-bit word from `addr`, equivalent to two
    /// sequential byte reads with 16-bit address wrap.
    fn read_u16(&mut self, addr: u16) -> (r: u16)
        requires
            old(self).mem().len() == 0x10000,
        ensures
            final(self).mem() == old(self).mem(),
            r == word_le(old(self).mem(), addr),
    ;

    /// Writes `data` to `addr`.
    fn write_u8(&mut self, addr: u16, data: u8)
        requires
            old(self).mem().len() == 0x10000,
        ensures
            final(self).mem() == old(self).mem().update(addr as int, data),
    ;
}

/// Inspect bus: side-effect-free reads, for disassembly and debugging only.
pub trait InspectBus: Sized {
    /// The abstract contents seen by side-effect-free peeks.
    spec fn peek_mem(&self) -> Seq<u8>;

    /// Reads a byte from `addr` without mutating bus or peripheral state.
    fn peek_u8(&self, addr: u16) -> (r: u8)
        requires
            self.peek_mem().len() == 0x10000,
        ensures
            r == self.peek_mem()[addr as int],
    ;

    /// Reads a little-endian 16-bit word from `addr` without mutating bus
    /// or peripheral state.
    fn peek_u16(&self, addr: u16) -> (r: u16)
        requires
            self.peek_mem().len() == 0x10000,
        ensures
            r == word_le(self.peek_mem(), addr),
    ;
}

/// The legacy memory contract: side-effect-free reads and word-granular
/// writes.  Kept for drivers written against the earlier bus shape; the
/// engines themselves run on [`MemoryBus`].
pub trait Memory: Sized {
    /// Instantiates a new memory bus.
    fn new() -> Self;

    /// Reads a byte from `addr`.
    fn read_byte(&self, addr: u16) -> u8;

    /// Reads a little-endian 16-bit word from `addr`.
    fn read_addr(&self, addr: u16) -> u16;

    /// Writes a byte to `addr`.
    fn write_byte(&mut self, addr: u16, data: u8);

    /// Writes a little-endian 16-bit word to `addr`.
    fn write_addr(&mut self, addr: u16, data: u16);
}

/// A memory-mapped peripheral serviced by the driver between CPU steps.
pub trait Peripheral: Sized {
    /// Puts the peripheral into its power-on state.
    fn cold_reset(&mut self);

    /// Re-initialises the peripheral without losing persistent state.
    fn warm_reset(&mut self);

    /// Delivers a CPU write that landed in the peripheral's address range.
    fn recv(&mut self, addr: u16, value: u8);

    /// Advances the peripheral by one bus cycle.
    fn cycle<M: MemoryBus>(&mut self, io: &mut M);
}

/// A flat 64 KiB RAM with no mapped peripherals.
pub struct BasicMemory {
    pub memory: Vec<u8>,
}

impl BasicMemory {
    /// A memory image with every byte set to `value`.
    pub fn default_with(value: u8) -> (r: Self)
        ensures
            r.memory@.len() == 0x10000,
            forall|i: int| 0 <= i < 0x10000 ==> r.memory@[i] == value,
    {
        let mut memory: Vec<u8> = Vec::new();
        let mut i: usize = 0;
        while i < 0x10000
            invariant
                i <= 0x10000,
                memory@.len() == i,
                forall|j: int| 0 <= j < i ==> memory@[j] == value,
            decreases 0x10000 - i,
        {
            memory.push(value);
            i = i + 1;
        }
        BasicMemory { memory }
    }
}

impl MemoryBus for BasicMemory {
    open spec fn mem(&self) -> Seq<u8> {
        self.memory@
    }

    fn read_u8(&mut self, addr: u16) -> (r: u8) {
        self.memory[addr as usize]
    }

    fn read_u16(&mut self, addr: u16) -> (r: u16) {
        let lo = self.memory[addr as usize];
        let hi = self.memory[addr.wrapping_add(1) as usize];
        (lo as u16) + (hi as u16) * 0x100
    }

    fn write_u8(&mut self, addr: u16, data: u8) {
        self.memory.set(addr as usize, data);
    }
}

impl InspectBus for BasicMemory {
    open spec fn peek_mem(&self) -> Seq<u8> {
        self.memory@
    }

    fn peek_u8(&self, addr: u16) -> (r: u8) {
        self.memory[addr as usize]
    }

    fn peek_u16(&self, addr: u16) -> (r: u16) {
        let lo = self.memory[addr as usize];
        let hi = self.memory[addr.wrapping_add(1) as usize];
        (lo as u16) + (hi as u16) * 0x100
    }
}

impl Default for BasicMemory {
    /// A zero-filled memory image.
    fn default() -> (r: Self)
        ensures
            r.memory@.len() == 0x10000,
            forall|i: int| 0 <= i < 0x10000 ==> r.memory@[i] == 0,
    {
        BasicMemory::default_with(0)
    }
}

} // verus!
