//! The flat 64 KiB address space. Words are big endian: the high byte sits at
//! the address itself and the low byte at the next one, wrapping at 0xFFFF.
use vstd::prelude::*;

verus! {

/// Number of byte cells in the address space.
pub const MEMORY_SIZE: usize = 0x10000;

/// The address after `a`, wrapping from 0xFFFF to 0.
pub open spec fn next_address(a: u16) -> int {
    (a as int + 1) % 0x10000
}

/// The word whose high byte is at `a` and low byte at the next address.
pub open spec fn word_at(mem: Seq<u8>, a: u16) -> u16 {
    (mem[a as int] as int * 256 + mem[next_address(a)] as int) as u16
}

/// `mem` with the word `v` stored at `a`: high byte at `a`, low byte after it.
pub open spec fn store_word(mem: Seq<u8>, a: u16, v: u16) -> Seq<u8> {
    mem.update(a as int, (v / 256) as u8).update(next_address(a), (v % 256) as u8)
}

/// Storing a word and reading it back at the same address gives the word,
/// for every address (the last one included, whose low byte wraps to 0).
pub proof fn lemma_word_round_trip(mem: Seq<u8>, a: u16, v: u16)
    requires
        mem.len() == MEMORY_SIZE,
    ensures
        word_at(store_word(mem, a, v), a) == v,
{
    let m2 = store_word(mem, a, v);
    assert(next_address(a) != a as int);
    assert(m2[a as int] == (v / 256) as u8);
    assert(m2[next_address(a)] == (v % 256) as u8);
    assert((v / 256) * 256 + v % 256 == v);
}

/// The emulated memory: 65536 bytes, all zero at first.
pub struct MemoryMap {
    pub bytes: [u8; 0x10000],
}

impl View for MemoryMap {
    type V = Seq<u8>;

    open spec fn view(&self) -> Seq<u8> {
        self.bytes@
    }
}

impl MemoryMap {
    pub fn new() -> (r: MemoryMap)
        ensures
            r@ == Seq::new(MEMORY_SIZE as nat, |i: int| 0u8),
    {
        let r = MemoryMap { bytes: [0;0x10000] };
        assert(r@ =~= Seq::new(MEMORY_SIZE as nat, |i: int| 0u8));
        r
    }

    /// Zeroes every cell, in place.
    pub fn reset(&mut self)
        ensures
            final(self)@ == Seq::new(MEMORY_SIZE as nat, |i: int| 0u8),
    {
        self.bytes = [0;0x10000];
        assert(self@ =~= Seq::new(MEMORY_SIZE as nat, |i: int| 0u8));
    }

    pub fn get_word(&self, index: u16) -> (r: u16)
        ensures
            r == word_at(self@, index),
    {
        let hi: u8 = self.bytes[index as usize];
        let lo: u8 = self.bytes[index.wrapping_add(1) as usize];
        assert(((hi as u16) << 8u16) == hi as u16 * 256) by (bit_vector);
        ((hi as u16) << 8u16) + (lo as u16)
    }

    pub fn set_word(&mut self, index: u16, value: u16)
        ensures
            final(self)@ == store_word(old(self)@, index, value),
    {
        let next: usize = index.wrapping_add(1) as usize;
        assert(((value >> 8) & 0xff) as u8 == (value / 256) as u8) by (bit_vector);
        assert((value & 0xff) as u8 == (value % 256) as u8) by (bit_vector);
        self.bytes[index as usize] = ((value >> 8) & 0xff) as u8;
        self.bytes[next] = (value & 0xff) as u8;
    }

    pub fn get_byte(&self, index: u16) -> (r: u8)
        ensures
            r == self@[index as int],
    {
        self.bytes[index as usize]
    }

    pub fn set_byte(&mut self, index: u16, value: u8)
        ensures
            final(self)@ == old(self)@.update(index as int, value),
    {
        self.bytes[index as usize] = value;
    }
}

} // verus!
