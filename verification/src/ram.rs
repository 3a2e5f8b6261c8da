//! The machine's memory: 4096 bytes that hold the glyph table, the loaded
//! program and its working data.

use vstd::prelude::*;
use crate::font::FONT_SET;
use crate::font::FONT_SIZE;

verus! {

/// Number of bytes of addressable memory.
pub const RAM_SIZE: usize = 4096;

/// Address at which a program image is loaded.
pub const START_ROM: usize = 512;

/// Largest program image that fits between `START_ROM` and the end of memory.
pub const MAX_ROM_SIZE: usize = 3584;

/// Memory: a byte for each address from 0 up to `RAM_SIZE`.
pub struct Ram {
    pub memory: [u8; RAM_SIZE],
}

impl View for Ram {
    type V = Seq<u8>;

    open spec fn view(&self) -> Seq<u8> {
        self.memory@
    }
}

/// What memory holds once `rom` has been loaded into a fresh machine: the
/// glyph table at the bottom, the program from `START_ROM` on, zero elsewhere.
pub open spec fn initial_memory(rom: Seq<u8>) -> Seq<u8> {
    Seq::new(
        RAM_SIZE as nat,
        |a: int|
            if a < FONT_SIZE {
                FONT_SET@[a]
            } else if START_ROM <= a < START_ROM + rom.len() {
                rom[a - START_ROM]
            } else {
                0u8
            },
    )
}

impl Ram {
    /// A memory with the glyph table and `rom_buffer` loaded.
    pub fn new(rom_buffer: &[u8]) -> (ram: Ram)
        requires
            rom_buffer@.len() <= MAX_ROM_SIZE,
        ensures
            ram@ == initial_memory(rom_buffer@),
    {
        let mut memory: [u8; RAM_SIZE] = [0; RAM_SIZE];
        let mut idx: usize = 0;
        while idx < FONT_SIZE
            invariant
                idx <= FONT_SIZE,
                forall|a: int| 0 <= a < idx ==> memory@[a] == FONT_SET@[a],
                forall|a: int| idx <= a < RAM_SIZE ==> memory@[a] == 0,
            decreases FONT_SIZE - idx,
        {
            memory[idx] = FONT_SET[idx];
            idx += 1;
        }
        let buffer_size: usize = rom_buffer.len();
        let mut i: usize = 0;
        while i < buffer_size
            invariant
                i <= buffer_size,
                buffer_size == rom_buffer@.len(),
                buffer_size <= MAX_ROM_SIZE,
                forall|a: int| 0 <= a < FONT_SIZE ==> memory@[a] == FONT_SET@[a],
                forall|a: int| FONT_SIZE <= a < START_ROM ==> memory@[a] == 0,
                forall|a: int| START_ROM <= a < START_ROM + i ==> memory@[a] == rom_buffer@[a - START_ROM],
                forall|a: int| START_ROM + i <= a < RAM_SIZE ==> memory@[a] == 0,
            decreases buffer_size - i,
        {
            memory[i + START_ROM] = rom_buffer[i];
            i += 1;
        }
        let ram = Ram { memory };
        assert(ram@ =~= initial_memory(rom_buffer@));
        ram
    }

    /// Stores `byte` at address `index`.
    pub fn write_byte(&mut self, index: usize, byte: u8)
        requires
            index < RAM_SIZE,
        ensures
            final(self)@ == old(self)@.update(index as int, byte),
        no_unwind
    {
        self.memory[index] = byte;
    }

    /// The byte at address `index`.
    pub fn read_byte(&self, index: usize) -> (byte: u8)
        requires
            index < RAM_SIZE,
        ensures
            byte == self@[index as int],
    {
        self.memory[index]
    }

    /// The bytes from address `start_idx` up to, but without, `stop_idx`.
    pub fn read_bytes(&self, start_idx: usize, stop_idx: usize) -> (bytes: &[u8])
        requires
            start_idx <= stop_idx <= RAM_SIZE,
        ensures
            bytes@ == self@.subrange(start_idx as int, stop_idx as int),
    {
        &self.memory[start_idx..stop_idx]
    }
}

} // verus!
