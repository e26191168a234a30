//! The flat 64 KiB memory bus: a byte-addressable store with little-endian
//! word access and a four-byte lookahead used for instruction prefetch.

use vstd::prelude::*;

verus! {

/// Number of cells in the flat address space.
pub const MEMORY_SIZE: usize = 0x10000;

/// Tile pixel data, kept apart from the flat store for a later renderer.
pub struct CharacterRAM {
    pub tiles: Vec<u8>,
}

impl Default for CharacterRAM {
    fn default() -> (r: CharacterRAM)
        ensures
            r.tiles@.len() == 0,
    {
        CharacterRAM { tiles: Vec::new() }
    }
}

/// Background map indices, kept apart from the flat store for a later renderer.
pub struct BGMapData {
    pub tile_index: Vec<u8>,
}

impl Default for BGMapData {
    fn default() -> (r: BGMapData)
        ensures
            r.tile_index@.len() == 0,
    {
        BGMapData { tile_index: Vec::new() }
    }
}

/// The memory bus itself: 65 536 cells of one byte each.
pub struct MMU {
    pub ram: Vec<u8>,
}

impl MMU {
    /// The bus is usable only while it holds exactly one byte per address.
    pub open spec fn wf(self) -> bool {
        self.ram@.len() == MEMORY_SIZE
    }

    /// The mathematical content of the bus: one byte per address.
    pub open spec fn view(self) -> Seq<u8> {
        self.ram@
    }

    /// A fresh bus holds zero at every address.
    pub fn new() -> (r: MMU)
        ensures
            r.wf(),
            r@ == Seq::new(MEMORY_SIZE as nat, |i: int| 0u8),
    {
        let mut ram: Vec<u8> = Vec::new();
        let mut i: usize = 0;
        while i < MEMORY_SIZE
            invariant
                i <= MEMORY_SIZE,
                ram@.len() == i,
                forall|j: int| 0 <= j < i ==> ram@[j] == 0u8,
            decreases MEMORY_SIZE - i,
        {
            ram.push(0);
            i = i + 1;
        }
        let r = MMU { ram };
        proof {
            assert(r@ =~= Seq::new(MEMORY_SIZE as nat, |i: int| 0u8));
        }
        r
    }

    /// Pure read of the byte at `at`.
    pub fn read_byte(&self, at: usize) -> (b: u8)
        requires
            self.wf(),
            at < MEMORY_SIZE,
        ensures
            b == self@[at as int],
    {
        self.ram[at]
    }

    /// Little-endian word read: low byte at `at`, high byte at `at + 1`.
    pub fn read_word(&self, at: usize) -> (w: u16)
        requires
            self.wf(),
            at + 1 < MEMORY_SIZE,
        ensures
            w == self@[at as int] + self@[at as int + 1] * 256,
    {
        let lo = self.ram[at];
        let hi = self.ram[at + 1];
        lo as u16 + hi as u16 * 256
    }

    /// Four consecutive bytes starting at `at`, for instruction prefetch.
    /// The lookahead wraps at the top of the address space, so a fetch near
    /// 0xFFFF is still defined.
    pub fn read_ahead(&self, at: usize) -> (r: [u8; 4])
        requires
            self.wf(),
            at < MEMORY_SIZE,
        ensures
            r@[0] == self@[at as int],
            r@[1] == self@[(at + 1) % MEMORY_SIZE as int],
            r@[2] == self@[(at + 2) % MEMORY_SIZE as int],
            r@[3] == self@[(at + 3) % MEMORY_SIZE as int],
    {
        let b0 = self.ram[at];
        let b1 = self.ram[(at + 1) % MEMORY_SIZE];
        let b2 = self.ram[(at + 2) % MEMORY_SIZE];
        let b3 = self.ram[(at + 3) % MEMORY_SIZE];
        [b0, b1, b2, b3]
    }

    /// In-place update of the byte at `at`.
    pub fn write_byte(&mut self, at: usize, byte: u8)
        requires
            old(self).wf(),
            at < MEMORY_SIZE,
        ensures
            final(self).wf(),
            final(self)@ == old(self)@.update(at as int, byte),
    {
        self.ram[at] = byte;
    }

    /// Little-endian word write: low byte at `at`, high byte at `at + 1`.
    pub fn write_word(&mut self, at: usize, word: u16)
        requires
            old(self).wf(),
            at + 1 < MEMORY_SIZE,
        ensures
            final(self).wf(),
            final(self)@ == old(self)@.update(at as int, (word % 256) as u8).update(
                at as int + 1,
                (word / 256) as u8,
            ),
    {
        self.ram[at] = (word % 256) as u8;
        self.ram[at + 1] = (word / 256) as u8;
    }

    /// Writes `bytes` at addresses 0, 1, 2, ... (the boot-image loader).
    pub fn initialize(&mut self, bytes: &Vec<u8>)
        requires
            old(self).wf(),
            bytes@.len() <= MEMORY_SIZE,
        ensures
            final(self).wf(),
            final(self)@.len() == MEMORY_SIZE,
            forall|j: int|
                0 <= j < bytes@.len() ==> final(self)@[j] == bytes@[j],
            forall|j: int|
                bytes@.len() <= j < MEMORY_SIZE ==> final(self)@[j] == old(self)@[j],
    {
        let mut i: usize = 0;
        while i < bytes.len()
            invariant
                old(self).wf(),
                self.wf(),
                bytes@.len() <= MEMORY_SIZE,
                i <= bytes@.len(),
                forall|j: int| 0 <= j < i ==> self@[j] == bytes@[j],
                forall|j: int| i <= j < MEMORY_SIZE ==> self@[j] == old(self)@[j],
            decreases bytes@.len() - i,
        {
            let b = bytes[i];
            self.write_byte(i, b);
            i = i + 1;
        }
    }
}

} // verus!
