//! The address space: 16 KiB, the lower half read-only.

use crate::cpu::bits::{high, high_byte, low, low_byte, make_word, word};
use vstd::prelude::*;

verus! {

/// The number of bytes in the address space.
pub const MEMORY_SIZE: usize = 0x4000;

/// The first address that can be written.
pub const RAM_START: u16 = 0x2000;

/// The last address that can be written.
pub const RAM_END: u16 = 0x3fff;

/// The first address of the video memory.
pub const VIDEO_START: u16 = 0x2400;

/// The machine's memory. Addresses 0x0000 to 0x1fff hold the program and refuse
/// writes; addresses 0x2000 to 0x3fff are RAM, the video memory from 0x2400 up.
pub struct Memory {
    pub memory: [u8; 16384],
}

impl View for Memory {
    type V = Seq<u8>;

    open spec fn view(&self) -> Seq<u8> {
        self.memory@
    }
}

/// Whether `addr` lies in the address space.
pub open spec fn readable(addr: int) -> bool {
    0 <= addr < 0x4000
}

/// Whether `addr` lies in RAM.
pub open spec fn writable(addr: int) -> bool {
    0x2000 <= addr <= 0x3fff
}

/// The memory after an attempt to write `val` at `addr`: changed in RAM, the same elsewhere.
pub open spec fn written(mem: Seq<u8>, addr: int, val: u8) -> Seq<u8> {
    if writable(addr) {
        mem.update(addr, val)
    } else {
        mem
    }
}

/// The little-endian word at `addr`: low byte at `addr`, high byte above it.
pub open spec fn word_at(mem: Seq<u8>, addr: int) -> u16 {
    word(mem[addr + 1], mem[addr])
}

/// The memory after an attempt to write the word `val` at `addr`, byte by byte, low byte first.
pub open spec fn word_written(mem: Seq<u8>, addr: int, val: u16) -> Seq<u8> {
    written(written(mem, addr, low(val)), addr + 1, high(val))
}

impl Memory {
    /// A memory of zeroes.
    pub fn new() -> (m: Memory)
        ensures
            m@ == Seq::new(0x4000, |i: int| 0u8),
    {
        Memory { memory: [0u8; 16384] }
    }

    /// The byte at `index`.
    pub fn read(&self, index: u16) -> (val: u8)
        requires
            readable(index as int),
        ensures
            val == self@[index as int],
    {
        self.memory[index as usize]
    }

    /// The little-endian word at `index`.
    pub fn read_word(&self, index: u16) -> (val: u16)
        requires
            readable(index + 1),
        ensures
            val == word_at(self@, index as int),
    {
        make_word(self.read(index + 1), self.read(index))
    }

    /// Reads the little-endian word at `index` into `h` (high byte) and `l` (low byte).
    pub fn read_word_as_u8(&self, index: u16, h: &mut u8, l: &mut u8)
        requires
            readable(index + 1),
        ensures
            *final(l) == self@[index as int],
            *final(h) == self@[index + 1],
    {
        *l = self.read(index);
        *h = self.read(index + 1);
    }

    /// Writes `val` at `index` if that is a RAM address, and says whether it did.
    /// A refused write changes nothing.
    pub fn write(&mut self, index: u16, val: u8) -> (ok: bool)
        ensures
            ok == writable(index as int),
            final(self)@ == written(old(self)@, index as int, val),
            ok ==> final(self)@[index as int] == val,
            !ok ==> final(self)@ == old(self)@,
    {
        if index < RAM_START || index > RAM_END {
            false
        } else {
            self.memory[index as usize] = val;
            true
        }
    }

    /// Writes `val_l` at `index` and `val_h` at the address above. Both writes are
    /// attempted; the result is true when both addresses took their byte.
    pub fn write_word(&mut self, index: u16, val_h: u8, val_l: u8) -> (ok: bool)
        ensures
            ok == (writable(index as int) && writable(index + 1)),
            final(self)@ == written(written(old(self)@, index as int, val_l), index + 1, val_h),
    {
        let low_ok = self.write(index, val_l);
        let high_ok = if index < 0xffff {
            self.write(index + 1, val_h)
        } else {
            false
        };
        low_ok && high_ok
    }

    /// Writes the word `val` at `index`, low byte first.
    pub fn write_word_with_u16(&mut self, index: u16, val: u16) -> (ok: bool)
        ensures
            ok == (writable(index as int) && writable(index + 1)),
            final(self)@ == word_written(old(self)@, index as int, val),
    {
        self.write_word(index, high_byte(val), low_byte(val))
    }
}

/// A word written to two RAM addresses reads back unchanged.
pub proof fn lemma_word_round_trip(mem: Seq<u8>, addr: int, val: u16)
    requires
        mem.len() == 0x4000,
        writable(addr),
        writable(addr + 1),
    ensures
        word_at(word_written(mem, addr, val), addr) == val,
{
}

} // verus!
