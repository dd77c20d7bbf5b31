//! The 4096 bytes of addressable memory.
//!
//! The low addresses are reserved: the font sits at `FONT_BASE`, and programs
//! occupy the region from `PROGRAM_START` to the end.

use vstd::prelude::*;
use crate::constants::{FONT, FONT_BASE, RAM_SIZE};

verus! {

/// `memory` with `data` written over it from address `at` on; addresses
/// outside `at .. at + data.len()` keep their bytes.
pub open spec fn overlay(memory: Seq<u8>, at: int, data: Seq<u8>) -> Seq<u8> {
    Seq::new(
        memory.len(),
        |a: int|
            if at <= a < at + data.len() {
                data[a - at]
            } else {
                memory[a]
            },
    )
}

/// `memory` with the font glyphs in the reserved font region.
pub open spec fn with_font(memory: Seq<u8>) -> Seq<u8> {
    overlay(memory, FONT_BASE as int, FONT@)
}

/// The addressable memory.
#[derive(Clone, Debug, PartialEq, Eq)]
pub struct Memory {
    pub bytes: [u8; RAM_SIZE],
}

impl View for Memory {
    type V = Seq<u8>;

    open spec fn view(&self) -> Seq<u8> {
        self.bytes@
    }
}

impl Memory {
    /// Memory with every byte zero.
    pub fn new() -> (memory: Memory)
        ensures
            memory@ == Seq::new(RAM_SIZE as nat, |a: int| 0u8),
    {
        Memory { bytes: [0u8; RAM_SIZE] }
    }

    /// The byte at `addr`, or `None` past the end of memory.
    pub fn read(&self, addr: usize) -> (byte: Option<u8>)
        ensures
            byte == if addr < RAM_SIZE {
                Some(self@[addr as int])
            } else {
                None
            },
    {
        if addr < RAM_SIZE {
            Some(self.bytes[addr])
        } else {
            None
        }
    }

    /// Copies `data` into memory from address `position` on. Writes nothing
    /// and returns `false` if `data` would run past the end of memory.
    pub fn load_into_ram(&mut self, position: usize, data: &[u8]) -> (fits: bool)
        ensures
            fits == (position + data@.len() <= RAM_SIZE),
            fits ==> final(self)@ == overlay(old(self)@, position as int, data@),
            !fits ==> *final(self) == *old(self),
    {
        if data.len() > RAM_SIZE || position > RAM_SIZE - data.len() {
            return false;
        }
        let mut i: usize = 0;
        while i < data.len()
            invariant
                i <= data.len(),
                position + data@.len() <= RAM_SIZE,
                self@ == overlay(old(self)@, position as int, data@.take(i as int)),
            decreases data.len() - i,
        {
            self.bytes[position + i] = data[i];
            i += 1;
        }
        assert(data@.take(i as int) =~= data@);
        true
    }

    /// Writes the font glyphs into the reserved font region. Doing so again
    /// changes nothing.
    pub fn install_font(&mut self)
        ensures
            final(self)@ == with_font(old(self)@),
    {
        let font: [u8; 80] = FONT;
        let fits = self.load_into_ram(FONT_BASE as usize, font.as_slice());
        assert(fits);
    }
}

/// Installing the font twice gives the same memory as installing it once.
pub proof fn lemma_font_install_is_idempotent(memory: Seq<u8>)
    requires
        memory.len() == RAM_SIZE,
    ensures
        with_font(with_font(memory)) == with_font(memory),
{
    assert(with_font(with_font(memory)) =~= with_font(memory));
}

} // verus!
