//! A verified emulation core for the Sharp LR35902 (the Game Boy CPU)
//! together with its flat 64 KiB memory bus and the display-timing state
//! machine of the pixel-processing unit.

use vstd::prelude::*;

pub mod cpu;
pub mod memory_bus;
pub mod old_cpu;
pub mod ppu;

use cpu::LR35902;
use memory_bus::MMU;

verus! {

/// Exercises the engine once: on a fresh machine, running the pending
/// instruction as `LD SP,d16` with zero immediates leaves SP at zero and
/// advances PC past the three instruction bytes.
pub fn test_function() {
    let mut cpu = LR35902::new();
    let mut mmu = MMU::new();
    cpu.opcode = 0x31;
    let r = cpu.execute(&mut mmu);
    assert(r is Ok);
    assert(cpu.sp == 0);
    assert(cpu.pc == 3);
    assert(cpu.clocks.total == 12);
}

} // verus!
