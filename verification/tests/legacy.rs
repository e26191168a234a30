//! Tests of the legacy enum-decoded core.

use gameboy_emulator::memory_bus::MMU;
use gameboy_emulator::old_cpu::{
    half_carry, u16_to_u8_pair_le, u8_pair_to_u16_le, DoubleRegister, Instruction, SingleRegister,
    Z80,
};

fn assets() -> (Z80, MMU) {
    (Z80::default(), MMU::new())
}

#[test]
fn test_bit_7() {
    let (mut cpu, _mmu) = assets();
    cpu.h = 0b1000_0000;
    cpu.cb_bit_7_h();
    // Bit 7 is set, so Z stays clear; BIT always sets H and clears N.
    assert_eq!(cpu.f, 0b0010_0000);
}

#[test]
fn test_xor() {
    let (mut cpu, mut mmu) = assets();
    cpu.execute(&mut mmu, Instruction::XorR8(SingleRegister::A));
    assert_eq!(cpu.f, 128);
}

#[test]
fn test_ldd16() {
    let (mut cpu, mut mmu) = assets();
    cpu.execute(&mut mmu, Instruction::LdR16D16(DoubleRegister::HL, 0xFFFE));
    let res = u8_pair_to_u16_le(cpu.l, cpu.h);
    assert_eq!(cpu.h, 0xFF);
    assert_eq!(cpu.l, 0xFE);
    assert_eq!(res, 0xFFFE);
}

#[test]
fn test_me() {
    let (mut cpu, mut mmu) = assets();
    cpu.execute(&mut mmu, Instruction::LdR16D16(DoubleRegister::BC, 0x1015));
    let res = u8_pair_to_u16_le(cpu.c, cpu.b);
    assert_eq!(cpu.c, 0x15);
    assert_eq!(cpu.b, 0x10);
    assert_eq!(res, 0x1015);
}

#[test]
fn test_conversion() {
    let byte = u8_pair_to_u16_le(0x15, 0x16);
    let (l, h) = u16_to_u8_pair_le(0x1516);
    assert_eq!(byte, 0x1615);
    assert_eq!(h, 0x15);
    assert_eq!(l, 0x16);
}

#[test]
fn legacy_half_carry() {
    assert_eq!(half_carry(0x0F, 0x01), true);
    assert_eq!(half_carry(0x08, 0x07), false);
    assert_eq!(half_carry(0xF8, 0x08), true);
}

#[test]
fn legacy_inc_dec_boundaries() {
    let (mut cpu, _mmu) = assets();
    cpu.b = 0x0F;
    cpu.inc_r8(SingleRegister::B);
    assert_eq!(cpu.b, 0x10);
    assert_eq!(cpu.f, 0b0010_0000);  // H alone: nonzero result, N cleared
    cpu.f = 0;
    cpu.dec_r8(SingleRegister::B);
    assert_eq!(cpu.b, 0x0F);
    assert_eq!(cpu.f, 0b0110_0000);  // N and H: a borrow out of the low nibble
}

#[test]
fn legacy_call_ret_round_trip() {
    let (mut cpu, mut mmu) = assets();
    cpu.sp = 0xFFFE;
    cpu.pc = 0x0150;
    cpu.call_a16(&mut mmu, 0x2000);
    assert_eq!(cpu.pc, 0x2000);
    assert_eq!(cpu.sp, 0xFFFC);
    // The address of the instruction after the three CALL bytes is pushed.
    assert_eq!(mmu.read_byte(0xFFFC), 0x53);
    assert_eq!(mmu.read_byte(0xFFFD), 0x01);
    cpu.ret(&mut mmu);
    assert_eq!(cpu.pc, 0x0153);
    assert_eq!(cpu.sp, 0xFFFE);
}

#[test]
fn legacy_decode_and_step() {
    let (mut cpu, mut mmu) = assets();
    // XOR A, then LD HL,0x9FFF, then LD (HL-),A: the boot ROM's opening.
    mmu.initialize(&vec![0xAF, 0x21, 0xFF, 0x9F, 0x32]);
    cpu.step(&mut mmu);
    assert_eq!(cpu.a, 0);
    assert_eq!(cpu.pc, 1);
    cpu.step(&mut mmu);
    assert_eq!(cpu.h, 0x9F);
    assert_eq!(cpu.l, 0xFF);
    assert_eq!(cpu.pc, 4);
    cpu.step(&mut mmu);
    assert_eq!(mmu.read_byte(0x9FFF), 0);
    assert_eq!(cpu.h, 0x9F);
    assert_eq!(cpu.l, 0xFE);
    assert_eq!(cpu.pc, 5);
}

#[test]
fn legacy_high_page_loads() {
    let (mut cpu, mut mmu) = assets();
    cpu.a = 0x3C;
    cpu.c = 0x11;
    cpu.ld_ac_a(&mut mmu);
    assert_eq!(mmu.read_byte(0xFF11), 0x3C);
    cpu.a = 0;
    cpu.ld_a_ac(&mut mmu);
    assert_eq!(cpu.a, 0x3C);
    cpu.a = 0x7B;
    cpu.ldha8a(&mut mmu, 0x44);
    assert_eq!(mmu.read_byte(0xFF44), 0x7B);
    cpu.a = 0;
    cpu.ldhaa8(&mmu, 0x44);
    assert_eq!(cpu.a, 0x7B);
}

#[test]
fn legacy_jr_nz() {
    let (mut cpu, mut mmu) = assets();
    // Z clear: the jump is taken relative to the opcode's own address.
    mmu.initialize(&vec![0x20, 0x10]);
    cpu.step(&mut mmu);
    assert_eq!(cpu.pc, 0x12);
}
