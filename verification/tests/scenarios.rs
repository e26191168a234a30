//! End-to-end scenarios driven through `init` and `step`, starting from the
//! reset state unless a register is set up first.

use gameboy_emulator::cpu::{EmuError, Flag, ImeState, LR35902};
use gameboy_emulator::memory_bus::MMU;

fn machine(program: Vec<u8>) -> (LR35902, MMU) {
    let mut mmu = MMU::new();
    mmu.initialize(&program);
    (LR35902::new(), mmu)
}

#[test]
fn scenario_ld_bc_d16() {
    let (mut cpu, mut mmu) = machine(vec![0x01, 0x01, 0x30]);
    cpu.init(&mut mmu);
    cpu.step(&mut mmu, 12).unwrap();
    assert_eq!(cpu.b, 0x30);
    assert_eq!(cpu.c, 0x01);
    assert_eq!(cpu.pc, 3);
    assert_eq!(cpu.clocks.total, 12);
}

#[test]
fn scenario_jr_backward() {
    let (mut cpu, mut mmu) = machine(vec![]);
    mmu.write_byte(0x00FF, 0x18);
    mmu.write_byte(0x0100, 0xFB);
    cpu.pc = 0x00FF;
    cpu.init(&mut mmu);
    cpu.step(&mut mmu, 12).unwrap();
    assert_eq!(cpu.pc, 0x00FC);
    assert_eq!(cpu.clocks.total, 12);
}

#[test]
fn scenario_conditional_call_taken() {
    let (mut cpu, mut mmu) = machine(vec![0xCC, 0x22, 0x22]);
    cpu.f = 0x80;  // Z set
    cpu.sp = 0xFFFF;
    cpu.init(&mut mmu);
    cpu.step(&mut mmu, 24).unwrap();
    assert_eq!(cpu.pc, 0x2222);
    assert_eq!(cpu.sp, 0xFFFD);
    assert_eq!(mmu.read_byte(0xFFFD), 0x03);
    assert_eq!(mmu.read_byte(0xFFFE), 0x00);
}

#[test]
fn scenario_conditional_call_not_taken() {
    let (mut cpu, mut mmu) = machine(vec![0xCC, 0x22, 0x22]);
    cpu.sp = 0xFFFF;
    cpu.init(&mut mmu);
    cpu.step(&mut mmu, 12).unwrap();
    assert_eq!(cpu.pc, 0x0003);
    assert_eq!(cpu.sp, 0xFFFF);
    assert_eq!(cpu.clocks.total, 12);
}

#[test]
fn scenario_push_pop_bc() {
    let (mut cpu, mut mmu) = machine(vec![0xC5, 0xC1]);
    cpu.sp = 0xFEFF;
    cpu.b = 0x50;
    cpu.c = 0x40;
    cpu.init(&mut mmu);
    cpu.step(&mut mmu, 16).unwrap();
    cpu.step(&mut mmu, 12).unwrap();
    assert_eq!(cpu.b, 0x50);
    assert_eq!(cpu.c, 0x40);
    assert_eq!(cpu.sp, 0xFEFF);
}

#[test]
fn scenario_cb_bit_zero_register() {
    let (mut cpu, mut mmu) = machine(vec![0xCB, 0x40]);
    cpu.b = 0;
    cpu.init(&mut mmu);
    cpu.step(&mut mmu, 8).unwrap();
    assert_eq!(cpu.get_flag(Flag::Z), true);
    assert_eq!(cpu.get_flag(Flag::H), true);
    assert_eq!(cpu.get_flag(Flag::N), false);
    assert_eq!(cpu.get_flag(Flag::C), false);
}

#[test]
fn scenario_inc_b_half_carry() {
    let (mut cpu, mut mmu) = machine(vec![0x04]);
    cpu.b = 0x0F;
    cpu.init(&mut mmu);
    cpu.step(&mut mmu, 4).unwrap();
    assert_eq!(cpu.b, 0x10);
    assert_eq!(cpu.get_flag(Flag::H), true);
    assert_eq!(cpu.get_flag(Flag::Z), false);
    assert_eq!(cpu.get_flag(Flag::N), false);
    assert_eq!(cpu.get_flag(Flag::C), false);
}

#[test]
fn step_accumulates_credit() {
    // Four cycles at a time: LD BC,d16 costs twelve, so it runs on the
    // third call only.
    let (mut cpu, mut mmu) = machine(vec![0x01, 0x01, 0x30]);
    cpu.init(&mut mmu);
    cpu.step(&mut mmu, 4).unwrap();
    assert_eq!(cpu.pc, 0);
    cpu.step(&mut mmu, 4).unwrap();
    assert_eq!(cpu.pc, 0);
    cpu.step(&mut mmu, 4).unwrap();
    assert_eq!(cpu.pc, 3);
    assert_eq!(cpu.b, 0x30);
}

#[test]
fn illegal_opcode_is_fatal() {
    let (mut cpu, mut mmu) = machine(vec![0xD3]);
    cpu.init(&mut mmu);
    let r = cpu.step(&mut mmu, 4);
    assert_eq!(r, Err(EmuError::IllegalOpcode { opcode: 0xD3, pc: 0 }));
    assert_eq!(cpu.pc, 0);
}

#[test]
fn halt_suppresses_execution() {
    let (mut cpu, mut mmu) = machine(vec![0x76, 0x04]);
    cpu.init(&mut mmu);
    cpu.step(&mut mmu, 4).unwrap();
    assert!(cpu.halted);
    let total = cpu.clocks.total;
    cpu.step(&mut mmu, 4).unwrap();
    assert_eq!(cpu.clocks.total, total);
    assert_eq!(cpu.b, 0);
}

#[test]
fn ei_enables_after_one_instruction() {
    let (mut cpu, mut mmu) = machine(vec![0xFB, 0x00, 0x00]);
    cpu.init(&mut mmu);
    cpu.step(&mut mmu, 4).unwrap();
    assert_eq!(cpu.ime, ImeState::PendingEnable);
    cpu.step(&mut mmu, 4).unwrap();
    assert_eq!(cpu.ime, ImeState::Enabled);
}

#[test]
fn di_disables_interrupts() {
    let (mut cpu, mut mmu) = machine(vec![0xFB, 0xF3]);
    cpu.init(&mut mmu);
    cpu.step(&mut mmu, 4).unwrap();
    cpu.step(&mut mmu, 4).unwrap();
    assert_eq!(cpu.ime, ImeState::Disabled);
}

#[test]
fn reti_enables_interrupts() {
    let (mut cpu, mut mmu) = machine(vec![0xD9]);
    mmu.write_byte(0xFF80, 0x34);
    mmu.write_byte(0xFF81, 0x12);
    cpu.sp = 0xFF80;
    cpu.init(&mut mmu);
    cpu.step(&mut mmu, 16).unwrap();
    assert_eq!(cpu.pc, 0x1234);
    assert_eq!(cpu.sp, 0xFF82);
    assert_eq!(cpu.ime, ImeState::Enabled);
}

#[test]
fn daa_adjusts_bcd_addition() {
    // 0x15 + 0x27 = 0x3C, adjusted to the decimal 42.
    let (mut cpu, mut mmu) = machine(vec![0xC6, 0x27, 0x27]);
    cpu.a = 0x15;
    cpu.init(&mut mmu);
    cpu.step(&mut mmu, 8).unwrap();
    assert_eq!(cpu.a, 0x3C);
    cpu.step(&mut mmu, 4).unwrap();
    assert_eq!(cpu.a, 0x42);
    assert_eq!(cpu.get_flag(Flag::C), false);
    assert_eq!(cpu.get_flag(Flag::Z), false);
}

#[test]
fn adc_carries_into_low_nibble() {
    // ADD A,0xFF on A=0x01 leaves A=0, Z, H and C set; ADC A,0x0F then
    // includes the carry: 0 + 15 + 1 = 0x10 with a half-carry.
    let (mut cpu, mut mmu) = machine(vec![0xC6, 0xFF, 0xCE, 0x0F]);
    cpu.a = 0x01;
    cpu.init(&mut mmu);
    cpu.step(&mut mmu, 8).unwrap();
    assert_eq!(cpu.a, 0);
    assert_eq!(cpu.f, 0b1011_0000);
    cpu.step(&mut mmu, 8).unwrap();
    assert_eq!(cpu.a, 0x10);
    assert_eq!(cpu.get_flag(Flag::H), true);
    assert_eq!(cpu.get_flag(Flag::C), false);
}

#[test]
fn sub_and_cp_set_borrow_flags() {
    let (mut cpu, mut mmu) = machine(vec![0xD6, 0x20, 0xFE, 0xF0]);
    cpu.a = 0x10;
    cpu.init(&mut mmu);
    cpu.step(&mut mmu, 8).unwrap();
    assert_eq!(cpu.a, 0xF0);
    assert_eq!(cpu.get_flag(Flag::C), true);
    assert_eq!(cpu.get_flag(Flag::N), true);
    cpu.step(&mut mmu, 8).unwrap();
    assert_eq!(cpu.a, 0xF0);  // CP writes nothing back
    assert_eq!(cpu.get_flag(Flag::Z), true);
}

#[test]
fn ld_hl_sp_offset_flags() {
    // SP=0xFFF8 plus 8 wraps the low byte: H and C both come from it.
    let (mut cpu, mut mmu) = machine(vec![0xF8, 0x08]);
    cpu.sp = 0xFFF8;
    cpu.init(&mut mmu);
    cpu.step(&mut mmu, 12).unwrap();
    assert_eq!(cpu.h, 0x00);
    assert_eq!(cpu.l, 0x00);
    assert_eq!(cpu.get_flag(Flag::Z), false);
    assert_eq!(cpu.get_flag(Flag::H), true);
    assert_eq!(cpu.get_flag(Flag::C), true);
}

#[test]
fn rst_jumps_to_fixed_vector() {
    let (mut cpu, mut mmu) = machine(vec![0xEF]);
    cpu.sp = 0xFFFE;
    cpu.init(&mut mmu);
    cpu.step(&mut mmu, 16).unwrap();
    assert_eq!(cpu.pc, 0x28);
    assert_eq!(cpu.sp, 0xFFFC);
    assert_eq!(mmu.read_byte(0xFFFC), 0x01);
}

#[test]
fn swap_exchanges_nibbles() {
    let (mut cpu, mut mmu) = machine(vec![0xCB, 0x37]);
    cpu.a = 0xF1;
    cpu.init(&mut mmu);
    cpu.step(&mut mmu, 8).unwrap();
    assert_eq!(cpu.a, 0x1F);
    assert_eq!(cpu.f, 0);
}

#[test]
fn rotate_a_through_carry() {
    // RLA on A=0x80 with C clear: A becomes 0 and the ejected bit lands in
    // C; a second RLA pulls it back into bit 0.
    let (mut cpu, mut mmu) = machine(vec![0x17, 0x17]);
    cpu.a = 0x80;
    cpu.init(&mut mmu);
    cpu.step(&mut mmu, 4).unwrap();
    assert_eq!(cpu.a, 0x00);
    assert_eq!(cpu.get_flag(Flag::C), true);
    cpu.step(&mut mmu, 4).unwrap();
    assert_eq!(cpu.a, 0x01);
    assert_eq!(cpu.get_flag(Flag::C), false);
}

#[test]
fn set_and_res_bits() {
    let (mut cpu, mut mmu) = machine(vec![0xCB, 0xC0, 0xCB, 0x80]);
    cpu.init(&mut mmu);
    cpu.step(&mut mmu, 8).unwrap();
    assert_eq!(cpu.b, 0x01);
    cpu.step(&mut mmu, 8).unwrap();
    assert_eq!(cpu.b, 0x00);
}

#[test]
fn add_hl_carries_out_of_bit_11() {
    let (mut cpu, mut mmu) = machine(vec![0x09]);
    cpu.h = 0x0F;
    cpu.l = 0xFF;
    cpu.b = 0x00;
    cpu.c = 0x01;
    cpu.init(&mut mmu);
    cpu.step(&mut mmu, 8).unwrap();
    assert_eq!(cpu.h, 0x10);
    assert_eq!(cpu.l, 0x00);
    assert_eq!(cpu.get_flag(Flag::H), true);
    assert_eq!(cpu.get_flag(Flag::C), false);
}

#[test]
fn flag_low_nibble_stays_zero() {
    // Every write to F masks its low nibble off, even through POP AF.
    let (mut cpu, mut mmu) = machine(vec![0xF1]);
    mmu.write_byte(0x8000, 0xFF);
    mmu.write_byte(0x8001, 0x12);
    cpu.sp = 0x8000;
    cpu.init(&mut mmu);
    cpu.step(&mut mmu, 12).unwrap();
    assert_eq!(cpu.a, 0x12);
    assert_eq!(cpu.f, 0xF0);
}
