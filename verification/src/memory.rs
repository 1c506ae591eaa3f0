//! The flat 64 KiB address space that the processor reads and writes, and
//! the regions it is divided into.
//!
//! | addresses       | region                    |
//! |-----------------|---------------------------|
//! | 0x0000 - 0x3FFF | fixed ROM bank            |
//! | 0x4000 - 0x7FFF | switchable ROM bank       |
//! | 0x8000 - 0x9FFF | video RAM                 |
//! | 0xA000 - 0xBFFF | external RAM              |
//! | 0xC000 - 0xCFFF | work RAM                  |
//! | 0xD000 - 0xDFFF | switchable work RAM       |
//! | 0xE000 - 0xFDFF | echo of work RAM          |
//! | 0xFE00 - 0xFE9F | object attribute table    |
//! | 0xFEA0 - 0xFEFF | unusable                  |
//! | 0xFF00 - 0xFF7F | I/O registers             |
//! | 0xFF80 - 0xFFFE | high RAM                  |
//! | 0xFFFF          | interrupt-enable register |

pub mod vram;

use vstd::prelude::*;
use vstd::slice::slice_subrange;
use crate::memory::vram::{as_vram, VRam};
use crate::word::{high, high_byte, join, join_bytes, low, low_byte};

verus! {

/// The whole address space, one byte per address.
pub struct Memory(pub [u8; 65536]);

impl View for Memory {
    type V = Seq<u8>;

    /// The bytes of the address space, by address.
    open spec fn view(&self) -> Seq<u8> {
        self.0@
    }
}

/// The address after `addr`, wrapping from 0xFFFF to 0.
pub open spec fn next_addr(addr: u16) -> u16 {
    ((addr + 1) % 65536) as u16
}

/// The word stored in `mem` at `addr` in little-endian order: its low byte
/// at `addr`, its high byte at the address after it.
pub open spec fn word_at(mem: Seq<u8>, addr: u16) -> u16 {
    join(mem[next_addr(addr) as int], mem[addr as int])
}

/// `mem` after `word` was stored at `addr` in little-endian order.
pub open spec fn store_word(mem: Seq<u8>, addr: u16, word: u16) -> Seq<u8> {
    mem.update(addr as int, low(word)).update(next_addr(addr) as int, high(word))
}

/// A word stored is the word read back at the same address, at 0xFFFF too:
/// both directions use the same byte order. Its low byte lies at the
/// address and its high byte at the address after it.
pub proof fn law_word_round_trip(mem: Seq<u8>, addr: u16, word: u16)
    requires
        mem.len() == 65536,
    ensures
        word_at(store_word(mem, addr, word), addr) == word,
        store_word(mem, addr, word)[addr as int] == low(word),
        store_word(mem, addr, word)[next_addr(addr) as int] == high(word),
        store_word(mem, addr, word).len() == 65536,
{
}

/// A memory with every byte zero.
pub fn new() -> (mem: Memory)
    ensures
        mem@.len() == 65536,
        forall|a: int| 0 <= a < 65536 ==> mem@[a] == 0u8,
{
    Memory([0u8; 65536])
}

impl Memory {
    /// The byte stored at `addr`.
    pub fn read_byte(&self, addr: u16) -> (byte: u8)
        ensures
            byte == self@[addr as int],
    {
        self.0[addr as usize]
    }

    /// The word stored at `addr`, low byte first. At 0xFFFF the high byte
    /// comes from address 0.
    pub fn read_word(&self, addr: u16) -> (word: u16)
        ensures
            word == word_at(self@, addr),
    {
        let lo = self.read_byte(addr);
        let hi = self.read_byte(addr.wrapping_add(1));
        join_bytes(hi, lo)
    }

    /// Stores `byte` at `addr` and leaves every other address as it was.
    pub fn write_byte(&mut self, addr: u16, byte: u8)
        ensures
            final(self)@ == old(self)@.update(addr as int, byte),
    {
        self.0[addr as usize] = byte;
    }

    /// Stores `word` at `addr`, low byte first. At 0xFFFF the high byte
    /// goes to address 0.
    pub fn write_word(&mut self, addr: u16, word: u16)
        ensures
            final(self)@ == store_word(old(self)@, addr, word),
    {
        self.write_byte(addr, low_byte(word));
        self.write_byte(addr.wrapping_add(1), high_byte(word));
    }

    /// The fixed ROM bank: addresses 0x0000 to 0x3FFF.
    pub fn rom_bank_00(&self) -> (region: &[u8])
        ensures
            region@ == self@.subrange(0x0000, 0x4000),
    {
        slice_subrange(self.0.as_slice(), 0x0000, 0x4000)
    }

    /// The switchable ROM bank: addresses 0x4000 to 0x7FFF.
    pub fn rom_bank_01_nn(&self) -> (region: &[u8])
        ensures
            region@ == self@.subrange(0x4000, 0x8000),
    {
        slice_subrange(self.0.as_slice(), 0x4000, 0x8000)
    }

    /// Video RAM: addresses 0x8000 to 0x9FFF.
    pub fn vram(&mut self) -> (region: VRam<'_>)
        ensures
            region.0@ == old(self)@.subrange(0x8000, 0xA000),
            final(self)@ == old(self)@,
    {
        as_vram(slice_subrange(self.0.as_slice(), 0x8000, 0xA000))
    }

    /// External RAM: addresses 0xA000 to 0xBFFF.
    pub fn ext_ram(&self) -> (region: &[u8])
        ensures
            region@ == self@.subrange(0xA000, 0xC000),
    {
        slice_subrange(self.0.as_slice(), 0xA000, 0xC000)
    }

    /// Work RAM: addresses 0xC000 to 0xCFFF.
    pub fn wram(&self) -> (region: &[u8])
        ensures
            region@ == self@.subrange(0xC000, 0xD000),
    {
        slice_subrange(self.0.as_slice(), 0xC000, 0xD000)
    }

    /// Switchable work RAM: addresses 0xD000 to 0xDFFF.
    pub fn wram_switchable(&self) -> (region: &[u8])
        ensures
            region@ == self@.subrange(0xD000, 0xE000),
    {
        slice_subrange(self.0.as_slice(), 0xD000, 0xE000)
    }

    /// The object attribute table: addresses 0xFE00 to 0xFE9F.
    pub fn obj_attr(&self) -> (region: &[u8])
        ensures
            region@ == self@.subrange(0xFE00, 0xFEA0),
    {
        slice_subrange(self.0.as_slice(), 0xFE00, 0xFEA0)
    }

    /// The I/O registers: addresses 0xFF00 to 0xFF7F.
    pub fn io(&self) -> (region: &[u8])
        ensures
            region@ == self@.subrange(0xFF00, 0xFF80),
    {
        slice_subrange(self.0.as_slice(), 0xFF00, 0xFF80)
    }

    /// High RAM: addresses 0xFF80 to 0xFFFE.
    pub fn hram(&self) -> (region: &[u8])
        ensures
            region@ == self@.subrange(0xFF80, 0xFFFF),
    {
        slice_subrange(self.0.as_slice(), 0xFF80, 0xFFFF)
    }

    /// The interrupt-enable register: the one byte at address 0xFFFF.
    pub fn interrupt_enable_register(&self) -> (region: &[u8])
        ensures
            region@ == self@.subrange(0xFFFF, 0x10000),
    {
        slice_subrange(self.0.as_slice(), 0xFFFF, 0x10000)
    }
}

impl core::ops::Index<u16> for Memory {
    type Output = u8;

    /// The byte stored at `idx`.
    fn index(&self, idx: u16) -> (byte: &u8)
        ensures
            *byte == self@[idx as int],
    {
        &self.0[idx as usize]
    }
}

impl core::ops::IndexMut<u16> for Memory {
    /// The byte stored at `idx`, to be written through.
    fn index_mut(&mut self, idx: u16) -> (byte: &mut u8)
        ensures
            *byte == old(self)@[idx as int],
            final(self)@ == old(self)@.update(idx as int, *final(byte)),
    {
        &mut self.0[idx as usize]
    }
}

} // verus!
