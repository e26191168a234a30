//! The single-instruction suite of the engine: each test primes the
//! pending opcode and its operand bytes, runs `execute`, and checks the
//! registers, the memory and the flags.

use gameboy_emulator::cpu::{half_carry_add_u8, half_carry_sub_u8, Flag, LR35902};
use gameboy_emulator::memory_bus::MMU;

fn prerequisites() -> (LR35902, MMU) {
    (LR35902::new(), MMU::new())
}

fn exec_op(cpu: &mut LR35902, mmu: &mut MMU, opcode: u8, bytes: [u8; 4]) {
    cpu.opcode = opcode;
    cpu.bytes = bytes;
    cpu.execute(mmu).unwrap();
}

#[test]
fn cpu_nop_test() {
    let (mut cpu, mut mmu) = prerequisites();
    exec_op(&mut cpu, &mut mmu, 0x00, [0x0, 0x0, 0x0, 0x0]);
    assert_eq!(cpu.pc, 1);
    assert_eq!(cpu.clocks.total, 4);
}

#[test]
fn cpu_ld_test() {
    let (mut cpu, mut mmu) = prerequisites();
    exec_op(&mut cpu, &mut mmu, 0x01, [0x0, 0x01, 0x30, 0x0]);
    assert_eq!(cpu.b, 0x30);
    assert_eq!(cpu.c, 0x01);

    exec_op(&mut cpu, &mut mmu, 0x11, [0x0, 0x01, 0x30, 0x0]);
    assert_eq!(cpu.d, 0x30);
    assert_eq!(cpu.e, 0x01);

    exec_op(&mut cpu, &mut mmu, 0x21, [0x0, 0x01, 0x30, 0x0]);
    assert_eq!(cpu.h, 0x30);
    assert_eq!(cpu.l, 0x01);

    exec_op(&mut cpu, &mut mmu, 0x31, [0x0, 0x01, 0x30, 0x0]);
    assert_eq!(cpu.sp, 0x3001);

    cpu.b = 0x1;
    cpu.c = 0x0;
    cpu.a = 0x50;
    exec_op(&mut cpu, &mut mmu, 0x02, [0x0, 0x0, 0x0, 0x0]);
    assert_eq!(mmu.read_byte(0x100), 0x50);

    cpu.d = 0x2;
    cpu.e = 0x0;
    cpu.a = 0x50;
    exec_op(&mut cpu, &mut mmu, 0x12, [0x0, 0x0, 0x0, 0x0]);
    assert_eq!(mmu.read_byte(0x200), 0x50);

    cpu.h = 0x3;
    cpu.l = 0x0;
    cpu.a = 0x50;
    exec_op(&mut cpu, &mut mmu, 0x22, [0x0, 0x0, 0x0, 0x0]);
    assert_eq!(mmu.read_byte(0x300), 0x50);
    assert_eq!(cpu.h, 0x3);
    assert_eq!(cpu.l, 0x1);

    cpu.h = 0x4;
    cpu.l = 0x0;
    cpu.a = 0x50;
    exec_op(&mut cpu, &mut mmu, 0x32, [0x0, 0x0, 0x0, 0x0]);
    assert_eq!(mmu.read_byte(0x400), 0x50);
    assert_eq!(cpu.h, 0x3);
    assert_eq!(cpu.l, 0xFF);

    exec_op(&mut cpu, &mut mmu, 0x06, [0x0, 0x18, 0x0, 0x0]);
    assert_eq!(cpu.b, 0x18);

    exec_op(&mut cpu, &mut mmu, 0x16, [0x0, 0x18, 0x0, 0x0]);
    assert_eq!(cpu.d, 0x18);

    exec_op(&mut cpu, &mut mmu, 0x26, [0x0, 0x18, 0x0, 0x0]);
    assert_eq!(cpu.h, 0x18);

    cpu.h = 0x5;
    cpu.l = 0x0;
    exec_op(&mut cpu, &mut mmu, 0x36, [0x0, 0x18, 0x0, 0x0]);
    assert_eq!(mmu.read_byte(0x500), 0x18);
}

#[test]
fn cpu_inc_dec_test() {
    let (mut cpu, mut mmu) = prerequisites();

    cpu.b = 0x00;
    cpu.c = 0xFF;
    exec_op(&mut cpu, &mut mmu, 0x03, [0x0, 0x0, 0x0, 0x0]);
    assert_eq!(cpu.b, 0x1);
    assert_eq!(cpu.c, 0x0);

    cpu.d = 0x00;
    cpu.e = 0xFF;
    exec_op(&mut cpu, &mut mmu, 0x13, [0x0, 0x0, 0x0, 0x0]);
    assert_eq!(cpu.d, 0x1);
    assert_eq!(cpu.e, 0x0);

    cpu.h = 0x00;
    cpu.l = 0xFF;
    exec_op(&mut cpu, &mut mmu, 0x23, [0x0, 0x0, 0x0, 0x0]);
    assert_eq!(cpu.h, 0x1);
    assert_eq!(cpu.l, 0x0);

    cpu.sp = 0x00FF;
    exec_op(&mut cpu, &mut mmu, 0x33, [0x0, 0x0, 0x0, 0x0]);
    assert_eq!(cpu.sp, 0x0100);

    cpu.b = 0x01;
    cpu.c = 0x00;
    exec_op(&mut cpu, &mut mmu, 0x0B, [0x0, 0x0, 0x0, 0x0]);
    assert_eq!(cpu.b, 0x0);
    assert_eq!(cpu.c, 0xFF);

    cpu.d = 0x01;
    cpu.e = 0x00;
    exec_op(&mut cpu, &mut mmu, 0x1B, [0x0, 0x0, 0x0, 0x0]);
    assert_eq!(cpu.d, 0x0);
    assert_eq!(cpu.e, 0xFF);

    cpu.h = 0x01;
    cpu.l = 0x00;
    exec_op(&mut cpu, &mut mmu, 0x2B, [0x0, 0x0, 0x0, 0x0]);
    assert_eq!(cpu.h, 0x00);
    assert_eq!(cpu.l, 0xFF);

    cpu.sp = 0x0100;
    exec_op(&mut cpu, &mut mmu, 0x3B, [0x0, 0x0, 0x0, 0x0]);
    assert_eq!(cpu.sp, 0x00FF);

    cpu.reset_flag(Flag::H);
    cpu.b = 0x0F;
    exec_op(&mut cpu, &mut mmu, 0x04, [0x0, 0x0, 0x0, 0x0]);
    assert_eq!(cpu.b, 0x10);
    assert_eq!(cpu.get_flag(Flag::H), true);

    cpu.reset_flag(Flag::H);
    cpu.d = 0x0F;
    exec_op(&mut cpu, &mut mmu, 0x14, [0x0, 0x0, 0x0, 0x0]);
    assert_eq!(cpu.d, 0x10);
    assert_eq!(cpu.get_flag(Flag::H), true);

    cpu.reset_flag(Flag::H);
    cpu.h = 0x0F;
    exec_op(&mut cpu, &mut mmu, 0x24, [0x0, 0x0, 0x0, 0x0]);
    assert_eq!(cpu.h, 0x10);
    assert_eq!(cpu.get_flag(Flag::H), true);

    cpu.reset_flag(Flag::H);
    cpu.h = 0x2;
    cpu.l = 0x0;
    exec_op(&mut cpu, &mut mmu, 0x34, [0x0, 0x0, 0x0, 0x0]);
    assert_eq!(mmu.read_byte(0x200), 0x01);
    assert_eq!(cpu.get_flag(Flag::H), false);

    cpu.reset_flag(Flag::H);
    cpu.b = 0x10;
    exec_op(&mut cpu, &mut mmu, 0x05, [0x0, 0x0, 0x0, 0x0]);
    assert_eq!(cpu.b, 0x0F);
    assert_eq!(cpu.get_flag(Flag::H), true);

    cpu.reset_flag(Flag::H);
    cpu.d = 0x10;
    exec_op(&mut cpu, &mut mmu, 0x15, [0x0, 0x0, 0x0, 0x0]);
    assert_eq!(cpu.d, 0x0F);
    assert_eq!(cpu.get_flag(Flag::H), true);

    cpu.reset_flag(Flag::H);
    cpu.h = 0x10;
    exec_op(&mut cpu, &mut mmu, 0x25, [0x0, 0x0, 0x0, 0x0]);
    assert_eq!(cpu.h, 0x0F);
    assert_eq!(cpu.get_flag(Flag::H), true);

    cpu.reset_flag(Flag::H);
    cpu.h = 0x9;
    cpu.l = 0x0;
    mmu.write_byte(0x900, 255);
    exec_op(&mut cpu, &mut mmu, 0x35, [0x0, 0x0, 0x0, 0x0]);
    assert_eq!(mmu.read_byte(0x900), 0xFE);
    assert_eq!(cpu.get_flag(Flag::H), false);

    cpu.reset_flag(Flag::H);
    cpu.c = 0x0F;
    exec_op(&mut cpu, &mut mmu, 0x0C, [0x0, 0x0, 0x0, 0x0]);
    assert_eq!(cpu.c, 0x10);
    assert_eq!(cpu.get_flag(Flag::H), true);

    cpu.reset_flag(Flag::H);
    cpu.c = 0x0F;
    exec_op(&mut cpu, &mut mmu, 0x0C, [0x0, 0x0, 0x0, 0x0]);
    assert_eq!(cpu.c, 0x10);
    assert_eq!(cpu.get_flag(Flag::H), true);

    cpu.reset_flag(Flag::H);
    cpu.e = 0x0F;
    exec_op(&mut cpu, &mut mmu, 0x1C, [0x0, 0x0, 0x0, 0x0]);
    assert_eq!(cpu.e, 0x10);
    assert_eq!(cpu.get_flag(Flag::H), true);

    cpu.reset_flag(Flag::H);
    cpu.l = 0x0F;
    exec_op(&mut cpu, &mut mmu, 0x2C, [0x0, 0x0, 0x0, 0x0]);
    assert_eq!(cpu.l, 0x10);
    assert_eq!(cpu.get_flag(Flag::H), true);

    cpu.reset_flag(Flag::H);
    cpu.a = 0x0F;
    exec_op(&mut cpu, &mut mmu, 0x3C, [0x0, 0x0, 0x0, 0x0]);
    assert_eq!(cpu.a, 0x10);
    assert_eq!(cpu.get_flag(Flag::H), true);

    cpu.reset_flag(Flag::H);
    cpu.c = 0x10;
    exec_op(&mut cpu, &mut mmu, 0x0D, [0x0, 0x0, 0x0, 0x0]);
    assert_eq!(cpu.c, 0x0F);
    assert_eq!(cpu.get_flag(Flag::H), true);

    cpu.reset_flag(Flag::H);
    cpu.e = 0x10;
    exec_op(&mut cpu, &mut mmu, 0x1D, [0x0, 0x0, 0x0, 0x0]);
    assert_eq!(cpu.e, 0x0F);
    assert_eq!(cpu.get_flag(Flag::H), true);

    cpu.reset_flag(Flag::H);
    cpu.l = 0x10;
    exec_op(&mut cpu, &mut mmu, 0x2D, [0x0, 0x0, 0x0, 0x0]);
    assert_eq!(cpu.l, 0x0F);
    assert_eq!(cpu.get_flag(Flag::H), true);

    cpu.reset_flag(Flag::H);
    cpu.a = 0x10;
    exec_op(&mut cpu, &mut mmu, 0x3D, [0x0, 0x0, 0x0, 0x0]);
    assert_eq!(cpu.a, 0x0F);
    assert_eq!(cpu.get_flag(Flag::H), true);
}

#[test]
fn cpu_jump_test() {
    let (mut cpu, mut mmu) = prerequisites();
    let back_five = (0u8).wrapping_sub(5);

    cpu.reset_flag(Flag::Z);
    cpu.pc = 0xFF;
    exec_op(&mut cpu, &mut mmu, 0x20, [0x0, back_five, 0x0, 0x0]);
    assert_eq!(cpu.pc, 0xFF - 5 + 2);

    cpu.reset_flag(Flag::C);
    cpu.pc = 0xFF;
    exec_op(&mut cpu, &mut mmu, 0x30, [0x0, back_five, 0x0, 0x0]);
    assert_eq!(cpu.pc, 0xFF - 5 + 2);

    cpu.pc = 0xFF;
    exec_op(&mut cpu, &mut mmu, 0x18, [0x0, back_five, 0x0, 0x0]);
    assert_eq!(cpu.pc, 0xFF - 5 + 2);

    cpu.reset_flag(Flag::Z);
    cpu.pc = 0xFF;
    exec_op(&mut cpu, &mut mmu, 0x28, [0x0, back_five, 0x0, 0x0]);
    assert_eq!(cpu.pc, 0x0101);
    cpu.set_flag(Flag::Z);
    exec_op(&mut cpu, &mut mmu, 0x28, [0x0, back_five, 0x0, 0x0]);
    assert_eq!(cpu.pc, 0x0101 - 5 + 2);

    cpu.reset_flag(Flag::C);
    cpu.pc = 0xFF;
    exec_op(&mut cpu, &mut mmu, 0x38, [0x0, back_five, 0x0, 0x0]);
    assert_eq!(cpu.pc, 0x0101);
    cpu.set_flag(Flag::C);
    exec_op(&mut cpu, &mut mmu, 0x38, [0x0, back_five, 0x0, 0x0]);
    assert_eq!(cpu.pc, 0x0101 - 5 + 2);
}

#[test]
fn cpu_xor_test() {
    let (mut cpu, mut mmu) = prerequisites();
    cpu.a = 0b1010_1010;
    cpu.b = 0b1111_1111;
    exec_op(&mut cpu, &mut mmu, 0xA8, [0x0, 0x0, 0x0, 0x0]);
    assert_eq!(cpu.a, 0b0101_0101);
}

#[test]
fn cpu_and_test() {
    let (mut cpu, mut mmu) = prerequisites();
    cpu.a = 0b1111_0000;
    cpu.b = 0b0101_0101;
    exec_op(&mut cpu, &mut mmu, 0xA0, [0x0, 0x0, 0x0, 0x0]);
    assert_eq!(cpu.a, 0b0101_0000);
}

#[test]
fn cpu_or_test() {
    let (mut cpu, mut mmu) = prerequisites();
    cpu.a = 0b1010_1010;
    cpu.b = 0b0000_1111;
    exec_op(&mut cpu, &mut mmu, 0xB0, [0x0, 0x0, 0x0, 0x0]);
    assert_eq!(cpu.a, 0b1010_1111);
}

#[test]
fn cpu_cb_bit_test() {
    let (mut cpu, mut mmu) = prerequisites();

    cpu.reset_flag(Flag::Z);
    exec_op(&mut cpu, &mut mmu, 0xCB, [0x0, 0x40, 0x0, 0x0]);
    assert_eq!(cpu.get_flag(Flag::Z), true);
    cpu.reset_flag(Flag::Z);
    exec_op(&mut cpu, &mut mmu, 0xCB, [0x0, 0x41, 0x0, 0x0]);
    assert_eq!(cpu.get_flag(Flag::Z), true);
    cpu.reset_flag(Flag::Z);
    exec_op(&mut cpu, &mut mmu, 0xCB, [0x0, 0x42, 0x0, 0x0]);
    assert_eq!(cpu.get_flag(Flag::Z), true);
    cpu.reset_flag(Flag::Z);
    exec_op(&mut cpu, &mut mmu, 0xCB, [0x0, 0x43, 0x0, 0x0]);
    assert_eq!(cpu.get_flag(Flag::Z), true);
    cpu.reset_flag(Flag::Z);
    exec_op(&mut cpu, &mut mmu, 0xCB, [0x0, 0x44, 0x0, 0x0]);
    assert_eq!(cpu.get_flag(Flag::Z), true);
    cpu.reset_flag(Flag::Z);
    exec_op(&mut cpu, &mut mmu, 0xCB, [0x0, 0x45, 0x0, 0x0]);
    assert_eq!(cpu.get_flag(Flag::Z), true);
    cpu.reset_flag(Flag::Z);
    exec_op(&mut cpu, &mut mmu, 0xCB, [0x0, 0x46, 0x0, 0x0]);
    assert_eq!(cpu.get_flag(Flag::Z), true);
}

#[test]
fn half_carry_helpers() {
    // carry, half-carry, result
    assert_eq!(half_carry_add_u8(0x0F, 0x01), (false, true, 0x10));
    assert_eq!(half_carry_add_u8(0xFF, 0x01), (true, true, 0x00));
    assert_eq!(half_carry_add_u8(0x10, 0x2F), (false, false, 0x3F));
    assert_eq!(half_carry_sub_u8(0x10, 0x01), (false, true, 0x0F));
    assert_eq!(half_carry_sub_u8(0x00, 0x01), (true, true, 0xFF));
    assert_eq!(half_carry_sub_u8(0x3F, 0x2F), (false, false, 0x10));
}

#[test]
fn test_reset_flag() {
    let (mut cpu, _mmu) = prerequisites();
    assert_eq!(cpu.get_flag(Flag::N), false);
    cpu.set_flag(Flag::N);
    assert_eq!(cpu.get_flag(Flag::N), true);
    cpu.reset_flag(Flag::N);
    assert_eq!(cpu.get_flag(Flag::N), false);
    cpu.reset_flag(Flag::N);
    assert_eq!(cpu.get_flag(Flag::N), false);
}

#[test]
fn test_16bitld() {
    let (mut cpu, mut mmu) = prerequisites();
    // Little-endian, so 0x9FFF should land in BC.
    exec_op(&mut cpu, &mut mmu, 0x01, [0x00, 0xFF, 0x9F, 0x00]);
    assert_eq!(cpu.b, 0x9f);
    assert_eq!(cpu.c, 0xff);
}

#[test]
fn cpu_flag_test() {
    let (mut cpu, _mmu) = prerequisites();
    cpu.f = 0b1000_0000;
    cpu.assign_flag(Flag::Z, true);
    assert_eq!(cpu.f, 0b1000_0000);
    cpu.assign_flag(Flag::Z, false);
    assert_eq!(cpu.f, 0);
    cpu.assign_flag(Flag::N, true);
    assert_eq!(cpu.f, 0b0100_0000);
    cpu.assign_flag(Flag::N, false);
    assert_eq!(cpu.f, 0);
}
