//! Tests of the memory bus and the display-timing state machine.

use gameboy_emulator::memory_bus::{BGMapData, CharacterRAM, MMU};
use gameboy_emulator::ppu::{PPUMode, PPU};
use gameboy_emulator::test_function;

#[test]
fn bus_byte_round_trip() {
    let mut mmu = MMU::new();
    assert_eq!(mmu.read_byte(0x1234), 0);
    mmu.write_byte(0x1234, 0xAB);
    assert_eq!(mmu.read_byte(0x1234), 0xAB);
    mmu.write_byte(0x1234, 0xCD);
    assert_eq!(mmu.read_byte(0x1234), 0xCD);
}

#[test]
fn bus_word_round_trip() {
    let mut mmu = MMU::new();
    mmu.write_word(0x8000, 0xBEEF);
    assert_eq!(mmu.read_word(0x8000), 0xBEEF);
    assert_eq!(mmu.read_byte(0x8000), 0xEF);
    assert_eq!(mmu.read_byte(0x8001), 0xBE);
    mmu.write_word(0x0000, 0x0001);
    assert_eq!(mmu.read_word(0x0000), 0x0001);
    mmu.write_word(0xFFFE, 0x1234);
    assert_eq!(mmu.read_word(0xFFFE), 0x1234);
}

#[test]
fn bus_read_ahead_wraps() {
    let mut mmu = MMU::new();
    mmu.write_byte(0xFFFE, 0x11);
    mmu.write_byte(0xFFFF, 0x22);
    mmu.write_byte(0x0000, 0x33);
    mmu.write_byte(0x0001, 0x44);
    let bytes = mmu.read_ahead(0xFFFE);
    assert_eq!(bytes, [0x11, 0x22, 0x33, 0x44]);
}

#[test]
fn bus_initialize_writes_from_zero() {
    let mut mmu = MMU::new();
    mmu.write_byte(4, 0x99);
    mmu.initialize(&vec![1, 2, 3]);
    assert_eq!(mmu.read_byte(0), 1);
    assert_eq!(mmu.read_byte(1), 2);
    assert_eq!(mmu.read_byte(2), 3);
    assert_eq!(mmu.read_byte(3), 0);
    assert_eq!(mmu.read_byte(4), 0x99);
}

#[test]
fn bus_render_structs_start_empty() {
    let cram = CharacterRAM::default();
    assert_eq!(cram.tiles.len(), 0);
    let bgmap = BGMapData::default();
    assert_eq!(bgmap.tile_index.len(), 0);
}

#[test]
fn library_smoke_test() {
    test_function();
}

#[test]
fn ppu_walks_one_line() {
    let mmu = MMU::new();
    let mut ppu = PPU::default();
    assert_eq!(ppu.mode, PPUMode::ScanlineOAM);
    ppu.step(&mmu, 79);
    assert_eq!(ppu.mode, PPUMode::ScanlineOAM);
    assert_eq!(ppu.clocks, 79);
    ppu.step(&mmu, 1);
    assert_eq!(ppu.mode, PPUMode::ScanlineVRAM);
    assert_eq!(ppu.clocks, 0);
    ppu.step(&mmu, 172);
    assert_eq!(ppu.mode, PPUMode::HBlank);
    ppu.step(&mmu, 204);
    assert_eq!(ppu.mode, PPUMode::ScanlineOAM);
    assert_eq!(ppu.lines, 1);
    assert_eq!(ppu.clocks, 0);
}

#[test]
fn ppu_line_timing_mod_frame() {
    // Whole lines advance the counter by exactly their number, modulo 154.
    let mmu = MMU::new();
    let mut ppu = PPU::default();
    ppu.step(&mmu, 456 * 5);
    assert_eq!(ppu.lines, 5);
    assert_eq!(ppu.mode, PPUMode::ScanlineOAM);
    assert_eq!(ppu.clocks, 0);
    ppu.step(&mmu, 456 * 154);
    assert_eq!(ppu.lines, 5);
    assert_eq!(ppu.mode, PPUMode::ScanlineOAM);
    assert_eq!(ppu.clocks, 0);
    ppu.step(&mmu, 456 * 160);
    assert_eq!(ppu.lines, 11);
}

#[test]
fn ppu_vblank_spans_lines_144_to_153() {
    let mmu = MMU::new();
    let mut ppu = PPU::default();
    ppu.step(&mmu, 456 * 144);
    assert_eq!(ppu.lines, 144);
    assert_eq!(ppu.mode, PPUMode::VBlank);
    ppu.step(&mmu, 456 * 9);
    assert_eq!(ppu.lines, 153);
    assert_eq!(ppu.mode, PPUMode::VBlank);
    ppu.step(&mmu, 456);
    assert_eq!(ppu.lines, 0);
    assert_eq!(ppu.mode, PPUMode::ScanlineOAM);
}

#[test]
fn ppu_absorbs_excess_at_transitions() {
    let mmu = MMU::new();
    let mut ppu = PPU::default();
    ppu.step(&mmu, 100);
    assert_eq!(ppu.mode, PPUMode::ScanlineVRAM);
    assert_eq!(ppu.clocks, 20);
    ppu.step(&mmu, 400);
    // 500 cycles in all: one full line of 456, then 44 into line 1's OAM scan.
    assert_eq!(ppu.mode, PPUMode::ScanlineOAM);
    assert_eq!(ppu.lines, 1);
    assert_eq!(ppu.clocks, 44);
}

#[test]
fn ppu_render_background_is_pure() {
    let mmu = MMU::new();
    let mut ppu = PPU::default();
    ppu.step(&mmu, 30);
    ppu.render_background(&mmu);
    assert_eq!(ppu.mode, PPUMode::ScanlineOAM);
    assert_eq!(ppu.clocks, 30);
    assert_eq!(ppu.lines, 0);
}
