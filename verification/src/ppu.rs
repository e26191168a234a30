//! The display-timing state machine of the pixel-processing unit: one line
//! is 456 cycles (80 in ScanlineOAM, 172 in ScanlineVRAM, 204 in HBlank),
//! lines 144 to 153 form the VBlank period, and a frame is 154 lines.

use vstd::prelude::*;

use vstd::arithmetic::div_mod::lemma_fundamental_div_mod_converse;

use crate::memory_bus::MMU;

verus! {

pub type Clocks = usize;

pub type Lines = usize;

/// Cycles in one full line.
pub const LINE_CYCLES: usize = 456;

/// Lines in one full frame, the VBlank period included.
pub const FRAME_LINES: usize = 154;

/// The first line of the VBlank period.
pub const VBLANK_START: usize = 144;

/// The phase the machine is in while drawing a line or resting in VBlank.
#[derive(Clone, Copy, Debug, PartialEq, Eq, Structural)]
pub enum PPUMode {
    ScanlineOAM,
    ScanlineVRAM,
    HBlank,
    VBlank,
}

impl Default for PPUMode {
    /// A frame begins with the OAM scan of line 0.
    fn default() -> (r: PPUMode)
        ensures
            r == PPUMode::ScanlineOAM,
    {
        PPUMode::ScanlineOAM
    }
}

/// The state machine: the current phase, the cycles spent inside it, and
/// the current line.
#[derive(Clone, Copy, Debug)]
pub struct PPU {
    pub mode: PPUMode,
    pub clocks: Clocks,
    pub lines: Lines,
}

impl Default for PPU {
    /// The machine starts in the OAM scan of line 0 with no cycles spent.
    fn default() -> (r: PPU)
        ensures
            r == (PPU { mode: PPUMode::ScanlineOAM, clocks: 0usize, lines: 0usize }),
    {
        PPU { mode: PPUMode::ScanlineOAM, clocks: 0, lines: 0 }
    }
}

/// How many cycles the active phase can absorb before it hands over.
pub open spec fn spec_capacity(mode: PPUMode) -> usize {
    match mode {
        PPUMode::ScanlineOAM => 80,
        PPUMode::ScanlineVRAM => 172,
        PPUMode::HBlank => 204,
        PPUMode::VBlank => 456,
    }
}

/// The cycle offset of the active phase within its line.
pub open spec fn spec_phase_start(mode: PPUMode) -> usize {
    match mode {
        PPUMode::ScanlineOAM => 0,
        PPUMode::ScanlineVRAM => 80,
        PPUMode::HBlank => 252,
        PPUMode::VBlank => 0,
    }
}

impl PPU {
    /// The machine never clocks past the boundary of the active phase, the
    /// line stays within the frame, and the VBlank phase coincides exactly
    /// with lines 144 to 153.
    pub open spec fn wf(self) -> bool {
        &&& self.lines < FRAME_LINES
        &&& self.clocks < spec_capacity(self.mode)
        &&& (self.mode is VBlank <==> VBLANK_START <= self.lines)
    }

    /// The position within the 70 224-cycle frame that the state denotes.
    pub open spec fn spec_pos(self) -> int {
        self.lines * LINE_CYCLES + spec_phase_start(self.mode) + self.clocks
    }

    /// Cycles the active phase absorbs before it hands over.
    pub fn capacity(&self) -> (c: usize)
        ensures
            c == spec_capacity(self.mode),
    {
        match self.mode {
            PPUMode::ScanlineOAM => 80,
            PPUMode::ScanlineVRAM => 172,
            PPUMode::HBlank => 204,
            PPUMode::VBlank => 456,
        }
    }

    /// Advances the machine by `deltaclock` cycles: the frame position
    /// moves forward by exactly that many cycles, modulo one frame. Excess
    /// cycles are absorbed by phase transitions; after HBlank the line
    /// counter increments, line 144 enters VBlank, and past line 153 the
    /// machine returns to the OAM scan of line 0. The bus is read-only
    /// here and is not touched by the timing machine.
    pub fn step(&mut self, mmu: &MMU, deltaclock: usize)
        requires
            old(self).wf(),
            old(self).clocks + deltaclock <= usize::MAX,
        ensures
            final(self).wf(),
            final(self).spec_pos() == (old(self).spec_pos() + deltaclock) % (
            LINE_CYCLES * FRAME_LINES),
    {
        proof {
            assert(LINE_CYCLES * FRAME_LINES == 70224);
        }
        let ghost target: int = (old(self).spec_pos() + deltaclock) % 70224;
        self.clocks = self.clocks + deltaclock;
        let mut cap = self.capacity();
        proof {
            assert(self.spec_pos() % 70224 == target) by {
                assert(self.spec_pos() == old(self).spec_pos() + deltaclock);
            }
        }
        while self.clocks >= cap
            invariant
                cap == spec_capacity(self.mode),
                self.lines < FRAME_LINES,
                self.mode is VBlank <==> VBLANK_START <= self.lines,
                self.spec_pos() % 70224 == target,
                0 <= target < 70224,
            decreases self.clocks,
        {
            match self.mode {
                PPUMode::ScanlineOAM => {
                    self.clocks = self.clocks - 80;
                    self.mode = PPUMode::ScanlineVRAM;
                },
                PPUMode::ScanlineVRAM => {
                    self.clocks = self.clocks - 172;
                    self.mode = PPUMode::HBlank;
                },
                PPUMode::HBlank => {
                    self.clocks = self.clocks - 204;
                    self.lines = self.lines + 1;
                    self.mode = if self.lines == VBLANK_START {
                        PPUMode::VBlank
                    } else {
                        PPUMode::ScanlineOAM
                    };
                },
                PPUMode::VBlank => {
                    self.clocks = self.clocks - 456;
                    self.lines = self.lines + 1;
                    if self.lines == FRAME_LINES {
                        self.lines = 0;
                        self.mode = PPUMode::ScanlineOAM;
                        proof {
                            vstd::arithmetic::div_mod::lemma_mod_sub_multiples_vanish(
                                self.spec_pos() + 70224,
                                70224,
                            );
                        }
                    }
                },
            }
            cap = self.capacity();
        }
        proof {
            assert(self.spec_pos() < 70224);
            vstd::arithmetic::div_mod::lemma_small_mod(self.spec_pos() as nat, 70224);
        }
    }

    /// The renderer collaborator will read tile data in 0x8000..0x9800 and
    /// the background map in 0x9C00..0xA000; the timing machine itself
    /// neither reads nor changes the bus, nor its own state.
    pub fn render_background(&mut self, mmu: &MMU)
        ensures
            *final(self) == *old(self),
    {
    }
}

/// Line timing: delivering any whole number `k` of 456-cycle lines to a
/// well-formed machine moves its frame position by exactly `k` lines, so
/// the line counter advances by exactly `k` modulo 154.
pub proof fn lemma_line_timing(p: PPU, k: nat)
    requires
        p.wf(),
    ensures
        ({
            let pos2 = (p.spec_pos() + k * (LINE_CYCLES as int)) % ((LINE_CYCLES * FRAME_LINES)
                as int);
            pos2 / (LINE_CYCLES as int) == (p.lines + k) % (FRAME_LINES as int)
        }),
{
    let off = spec_phase_start(p.mode) + p.clocks;
    assert(0 <= off < 456);
    let lsum = p.lines + k;
    let q = lsum / 154;
    let r = lsum % 154;
    assert(lsum == 154 * q + r && 0 <= r < 154);
    let pos1 = p.spec_pos() + k * 456;
    assert(pos1 == lsum * 456 + off);
    assert(pos1 == q * 70224 + (r * 456 + off)) by (nonlinear_arith)
        requires
            pos1 == lsum * 456 + off,
            lsum == 154 * q + r,
    ;
    assert(r * 456 + off < 70224) by (nonlinear_arith)
        requires
            0 <= r < 154,
            0 <= off < 456,
    ;
    assert(r * 456 + off >= 0) by (nonlinear_arith)
        requires
            0 <= r,
            0 <= off,
    ;
    lemma_fundamental_div_mod_converse(pos1, 70224, q, r * 456 + off);
    assert(pos1 % 70224 == r * 456 + off);
    lemma_fundamental_div_mod_converse(r * 456 + off, 456, r, off);
    assert((r * 456 + off) / 456 == r);
}

} // verus!
