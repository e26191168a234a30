//! An early, enum-decoded core for the boot-ROM subset of the instruction
//! set, with its own decode table; it shares the canonical flag byte of the
//! full engine, which lives in `cpu`.

use vstd::prelude::*;

use crate::cpu::{
    clear_bit, compose_flags, displace16, flag_c, flags_byte, put_bit, spec_bit, spec_res_bit,
    spec_set_bit, test_bit, wrap16,
};
use crate::memory_bus::{MEMORY_SIZE, MMU};

verus! {

/// The eight-bit registers of the legacy core.
#[derive(Clone, Copy, Debug)]
pub enum SingleRegister {
    A,
    B,
    C,
    D,
    E,
    F,
    H,
    L,
}

/// The sixteen-bit register pairs of the legacy core, the program counter
/// and the stack pointer included.
#[derive(Clone, Copy, Debug)]
pub enum DoubleRegister {
    AF,
    BC,
    DE,
    HL,
    SP,
    PC,
}

/// The flag names of the legacy core, on the canonical flag byte: Z at bit
/// 7, N at bit 6, H at bit 5 and C at bit 4. The remaining names stand for
/// the always-zero low nibble (S is a Z80 vestige with no meaning here).
#[derive(Clone, Copy, Debug)]
#[allow(non_camel_case_types)]
pub enum Flag {
    C,
    N,
    UNUSED_1,
    UNUSED_2,
    H,
    UNUSED_3,
    Z,
    S,
}

/// The instructions the legacy decoder recognizes.
#[derive(Debug)]
pub enum Instruction {
    Nop,
    LdR16D16(DoubleRegister, u16),
    LdR8D8(SingleRegister, u8),
    LdACA,
    LdAAC,
    LdR8R8(SingleRegister, SingleRegister),
    XorR8(SingleRegister),
    IncR8(SingleRegister),
    IncR16(DoubleRegister),
    LdHA8A(u8),
    LdHAA8(u8),
    LdAHLR8(SingleRegister),
    LdBCD16(u8, u8),
    LdSPD16(u16),
    LdHLD16(u8, u8),
    LdHLDecA,
    CallA16(u16),
    Ret,
    XorA,
    Bit7H,
    JRNZ(i8),
}

/// The legacy machine: registers, flag byte, program counter, stack
/// pointer and a cycle total.
#[derive(Default, Debug)]
pub struct Z80 {
    pub a: u8,
    pub b: u8,
    pub c: u8,
    pub d: u8,
    pub e: u8,
    pub f: u8,
    pub h: u8,
    pub l: u8,
    pub pc: u16,
    pub sp: u16,
    pub t: usize,
}

/// The bit of F that a flag name denotes.
pub open spec fn spec_flag_bit(flag: Flag) -> u8 {
    match flag {
        Flag::C => 4,
        Flag::N => 6,
        Flag::UNUSED_1 => 3,
        Flag::UNUSED_2 => 2,
        Flag::H => 5,
        Flag::UNUSED_3 => 1,
        Flag::Z => 7,
        Flag::S => 0,
    }
}

/// The little-endian word formed from a low and a high byte.
pub open spec fn spec_word_le(lo: u8, hi: u8) -> u16 {
    (hi * 256 + lo) as u16
}

pub open spec fn spec_z80_r8(cpu: Z80, reg: SingleRegister) -> u8 {
    match reg {
        SingleRegister::A => cpu.a,
        SingleRegister::B => cpu.b,
        SingleRegister::C => cpu.c,
        SingleRegister::D => cpu.d,
        SingleRegister::E => cpu.e,
        SingleRegister::F => cpu.f,
        SingleRegister::H => cpu.h,
        SingleRegister::L => cpu.l,
    }
}

pub open spec fn spec_z80_set_r8(cpu: Z80, reg: SingleRegister, v: u8) -> Z80 {
    match reg {
        SingleRegister::A => Z80 { a: v, ..cpu },
        SingleRegister::B => Z80 { b: v, ..cpu },
        SingleRegister::C => Z80 { c: v, ..cpu },
        SingleRegister::D => Z80 { d: v, ..cpu },
        SingleRegister::E => Z80 { e: v, ..cpu },
        SingleRegister::F => Z80 { f: v, ..cpu },
        SingleRegister::H => Z80 { h: v, ..cpu },
        SingleRegister::L => Z80 { l: v, ..cpu },
    }
}

pub open spec fn spec_z80_rr(cpu: Z80, reg: DoubleRegister) -> u16 {
    match reg {
        DoubleRegister::AF => spec_word_le(cpu.f, cpu.a),
        DoubleRegister::BC => spec_word_le(cpu.c, cpu.b),
        DoubleRegister::DE => spec_word_le(cpu.e, cpu.d),
        DoubleRegister::HL => spec_word_le(cpu.l, cpu.h),
        DoubleRegister::SP => cpu.sp,
        DoubleRegister::PC => cpu.pc,
    }
}

pub open spec fn spec_z80_set_rr(cpu: Z80, reg: DoubleRegister, v: u16) -> Z80 {
    match reg {
        DoubleRegister::AF => Z80 { f: (v % 256) as u8, a: (v / 256) as u8, ..cpu },
        DoubleRegister::BC => Z80 { c: (v % 256) as u8, b: (v / 256) as u8, ..cpu },
        DoubleRegister::DE => Z80 { e: (v % 256) as u8, d: (v / 256) as u8, ..cpu },
        DoubleRegister::HL => Z80 { l: (v % 256) as u8, h: (v / 256) as u8, ..cpu },
        DoubleRegister::SP => Z80 { sp: v, ..cpu },
        DoubleRegister::PC => Z80 { pc: v, ..cpu },
    }
}

/// Builds a 16-bit word from its low and its high byte, little-endian.
pub fn u8_pair_to_u16_le(op_1: u8, op_2: u8) -> (r: u16)
    ensures
        r == spec_word_le(op_1, op_2),
{
    op_2 as u16 * 256 + op_1 as u16
}

/// Splits a 16-bit word into its low and its high byte, little-endian.
pub fn u16_to_u8_pair_le(op: u16) -> (r: (u8, u8))
    ensures
        r.0 == (op % 256) as u8,
        r.1 == (op / 256) as u8,
        spec_word_le(r.0, r.1) == op,
{
    ((op % 256) as u8, (op / 256) as u8)
}

/// The canonical half-carry of an 8-bit add: a carry out of bit 3.
pub fn half_carry(a: u8, b: u8) -> (r: bool)
    ensures
        r == (a % 16 + b % 16 > 15),
{
    a % 16 + b % 16 > 15
}

/// The bit of F that a flag name denotes.
fn flag_index(flag: Flag) -> (i: u8)
    ensures
        i == spec_flag_bit(flag),
        i < 8,
{
    match flag {
        Flag::C => 4,
        Flag::N => 6,
        Flag::UNUSED_1 => 3,
        Flag::UNUSED_2 => 2,
        Flag::H => 5,
        Flag::UNUSED_3 => 1,
        Flag::Z => 7,
        Flag::S => 0,
    }
}

impl Z80 {
    /// Adds `t` cycles to the running total.
    pub fn time(&mut self, t: usize)
        requires
            old(self).t + t <= usize::MAX,
        ensures
            *final(self) == (Z80 { t: (old(self).t + t) as usize, ..*old(self) }),
    {
        self.t = self.t + t;
    }

    /// Advances the program counter by `pc` positions.
    pub fn pc(&mut self, pc: u16)
        requires
            old(self).pc + pc <= 0xFFFF,
        ensures
            *final(self) == (Z80 { pc: (old(self).pc + pc) as u16, ..*old(self) }),
    {
        self.pc = self.pc + pc;
    }

    pub fn get_single_reg(&self, reg: SingleRegister) -> (v: u8)
        ensures
            v == spec_z80_r8(*self, reg),
    {
        match reg {
            SingleRegister::A => self.a,
            SingleRegister::B => self.b,
            SingleRegister::C => self.c,
            SingleRegister::D => self.d,
            SingleRegister::E => self.e,
            SingleRegister::F => self.f,
            SingleRegister::H => self.h,
            SingleRegister::L => self.l,
        }
    }

    pub fn set_single_reg(&mut self, reg: SingleRegister, v: u8)
        ensures
            *final(self) == spec_z80_set_r8(*old(self), reg, v),
    {
        match reg {
            SingleRegister::A => self.a = v,
            SingleRegister::B => self.b = v,
            SingleRegister::C => self.c = v,
            SingleRegister::D => self.d = v,
            SingleRegister::E => self.e = v,
            SingleRegister::F => self.f = v,
            SingleRegister::H => self.h = v,
            SingleRegister::L => self.l = v,
        }
    }

    pub fn get_double_reg(&self, reg: DoubleRegister) -> (v: u16)
        ensures
            v == spec_z80_rr(*self, reg),
    {
        match reg {
            DoubleRegister::AF => u8_pair_to_u16_le(self.f, self.a),
            DoubleRegister::BC => u8_pair_to_u16_le(self.c, self.b),
            DoubleRegister::DE => u8_pair_to_u16_le(self.e, self.d),
            DoubleRegister::HL => u8_pair_to_u16_le(self.l, self.h),
            DoubleRegister::PC => self.pc,
            DoubleRegister::SP => self.sp,
        }
    }

    pub fn set_double_reg(&mut self, reg: DoubleRegister, v: u16)
        ensures
            *final(self) == spec_z80_set_rr(*old(self), reg, v),
    {
        match reg {
            DoubleRegister::AF => {
                let pair = u16_to_u8_pair_le(v);
                self.f = pair.0;
                self.a = pair.1;
            },
            DoubleRegister::BC => {
                let pair = u16_to_u8_pair_le(v);
                self.c = pair.0;
                self.b = pair.1;
            },
            DoubleRegister::DE => {
                let pair = u16_to_u8_pair_le(v);
                self.e = pair.0;
                self.d = pair.1;
            },
            DoubleRegister::HL => {
                let pair = u16_to_u8_pair_le(v);
                self.l = pair.0;
                self.h = pair.1;
            },
            DoubleRegister::PC => self.pc = v,
            DoubleRegister::SP => self.sp = v,
        }
    }

    /// Sets one flag bit of F.
    pub fn set_flag(&mut self, flag: Flag)
        ensures
            *final(self) == (Z80 {
                f: spec_set_bit(old(self).f, spec_flag_bit(flag)),
                ..*old(self)
            }),
    {
        let i = flag_index(flag);
        self.f = put_bit(self.f, i);
    }

    /// Reads one flag bit of F.
    pub fn get_flag(&self, flag: Flag) -> (b: bool)
        ensures
            b == spec_bit(self.f, spec_flag_bit(flag)),
    {
        let i = flag_index(flag);
        test_bit(self.f, i)
    }

    /// Clears one flag bit of F.
    pub fn reset_flag(&mut self, flag: Flag)
        ensures
            *final(self) == (Z80 {
                f: spec_res_bit(old(self).f, spec_flag_bit(flag)),
                ..*old(self)
            }),
    {
        let i = flag_index(flag);
        self.f = clear_bit(self.f, i);
    }

    /// LD BC,d16 given as its two bytes, high first.
    pub fn ldbc_d16(&mut self, h: u8, l: u8)
        requires
            old(self).pc + 3 <= 0xFFFF,
        ensures
            *final(self) == (Z80 { b: h, c: l, pc: (old(self).pc + 3) as u16, ..*old(self) }),
    {
        self.b = h;
        self.c = l;
        self.pc = self.pc + 3;
    }

    /// LD HL,d16 given as its two bytes, high first.
    pub fn ldhl_d16(&mut self, h: u8, l: u8)
        requires
            old(self).pc + 3 <= 0xFFFF,
        ensures
            *final(self) == (Z80 { h: h, l: l, pc: (old(self).pc + 3) as u16, ..*old(self) }),
    {
        self.h = h;
        self.l = l;
        self.pc = self.pc + 3;
    }

    /// LD SP,d16.
    pub fn ldsp_d16(&mut self, data: u16)
        requires
            old(self).pc + 3 <= 0xFFFF,
        ensures
            *final(self) == (Z80 { sp: data, pc: (old(self).pc + 3) as u16, ..*old(self) }),
    {
        self.sp = data;
        self.pc = self.pc + 3;
    }

    /// XOR A,A: the accumulator becomes zero, Z is set, and N, H and C
    /// are cleared.
    pub fn xor_a(&mut self)
        requires
            old(self).pc + 1 <= 0xFFFF,
        ensures
            *final(self) == (Z80 {
                a: 0,
                f: flags_byte(true, false, false, false),
                pc: (old(self).pc + 1) as u16,
                ..*old(self)
            }),
    {
        let reg = self.get_single_reg(SingleRegister::A);
        proof {
            let a0 = old(self).a;
            assert(a0 ^ a0 == 0) by (bit_vector);
        }
        self.a = self.a ^ reg;
        self.f = compose_flags(self.a == 0, false, false, false);
        self.pc = self.pc + 1;
    }

    /// JR NZ: displaces PC by `rel` when Z is clear; the two opcode bytes
    /// are accounted for by the caller.
    pub fn jr_nz(&mut self, rel: i8)
        ensures
            *final(self) == (Z80 {
                pc: if spec_bit(old(self).f, 7) {
                    old(self).pc
                } else {
                    wrap16(old(self).pc + rel)
                },
                ..*old(self)
            }),
    {
        if !self.get_flag(Flag::Z) {
            proof {
                assert((rel as u8) as i8 == rel) by (bit_vector);
            }
            self.pc = displace16(self.pc, rel as u8);
        }
    }

    /// BIT 7,H: Z is the complement of bit 7 of H, N is cleared, H is
    /// set, and C is unchanged.
    pub fn cb_bit_7_h(&mut self)
        requires
            old(self).pc + 2 <= 0xFFFF,
        ensures
            *final(self) == (Z80 {
                f: flags_byte(!spec_bit(old(self).h, 7), false, true, flag_c(old(self).f)),
                pc: (old(self).pc + 2) as u16,
                ..*old(self)
            }),
    {
        let bit = test_bit(self.h, 7);
        let cflag = test_bit(self.f, 4);
        self.f = compose_flags(!bit, false, true, cflag);
        self.pc = self.pc + 2;
    }

    /// LD (HL-),A: stores the accumulator at (HL), then decrements HL.
    pub fn ldhldec_a(&mut self, mmu: &mut MMU)
        requires
            old(mmu).wf(),
            spec_z80_rr(*old(self), DoubleRegister::HL) > 0,
            old(self).pc + 1 <= 0xFFFF,
        ensures
            final(mmu).wf(),
            final(mmu)@ == old(mmu)@.update(
                spec_z80_rr(*old(self), DoubleRegister::HL) as int,
                old(self).a,
            ),
            *final(self) == (Z80 {
                pc: (old(self).pc + 1) as u16,
                ..spec_z80_set_rr(
                    *old(self),
                    DoubleRegister::HL,
                    (spec_z80_rr(*old(self), DoubleRegister::HL) - 1) as u16,
                )
            }),
    {
        let mut reg = self.get_double_reg(DoubleRegister::HL);
        let a = self.get_single_reg(SingleRegister::A);
        mmu.write_byte(reg as usize, a);
        reg = reg - 1;
        self.set_double_reg(DoubleRegister::HL, reg);
        self.pc = self.pc + 1;
    }

    /// LD (C),A: stores the accumulator in the high page at 0xFF00 + C.
    pub fn ld_ac_a(&mut self, mmu: &mut MMU)
        requires
            old(mmu).wf(),
            old(self).pc + 1 <= 0xFFFF,
        ensures
            final(mmu).wf(),
            final(mmu)@ == old(mmu)@.update(0xFF00 + old(self).c, old(self).a),
            *final(self) == (Z80 { pc: (old(self).pc + 1) as u16, ..*old(self) }),
    {
        let reg_a = self.get_single_reg(SingleRegister::A);
        let reg_c = self.get_single_reg(SingleRegister::C);
        let address: u16 = 0xFF00 + reg_c as u16;
        mmu.write_byte(address as usize, reg_a);
        self.pc = self.pc + 1;
    }

    /// LD A,(C): loads the accumulator from the high page at 0xFF00 + C.
    pub fn ld_a_ac(&mut self, mmu: &mut MMU)
        requires
            old(mmu).wf(),
            old(self).pc + 1 <= 0xFFFF,
        ensures
            final(mmu).wf(),
            final(mmu)@ == old(mmu)@,
            *final(self) == (Z80 {
                a: old(mmu)@[0xFF00 + old(self).c],
                pc: (old(self).pc + 1) as u16,
                ..*old(self)
            }),
    {
        let reg_c = self.get_single_reg(SingleRegister::C);
        let address: u16 = 0xFF00 + reg_c as u16;
        let byte = mmu.read_byte(address as usize);
        self.set_single_reg(SingleRegister::A, byte);
        self.pc = self.pc + 1;
    }

    /// LDH (a8),A: stores the accumulator at 0xFF00 + the immediate byte.
    pub fn ldha8a(&mut self, mmu: &mut MMU, address: u8)
        requires
            old(mmu).wf(),
            old(self).pc + 2 <= 0xFFFF,
        ensures
            final(mmu).wf(),
            final(mmu)@ == old(mmu)@.update(0xFF00 + address, old(self).a),
            *final(self) == (Z80 { pc: (old(self).pc + 2) as u16, ..*old(self) }),
    {
        let a = self.get_single_reg(SingleRegister::A);
        let at: usize = 0xFF00 + address as usize;
        mmu.write_byte(at, a);
        self.pc = self.pc + 2;
    }

    /// LDH A,(a8): loads the accumulator from 0xFF00 + the immediate byte.
    pub fn ldhaa8(&mut self, mmu: &MMU, address: u8)
        requires
            mmu.wf(),
            old(self).pc + 2 <= 0xFFFF,
        ensures
            *final(self) == (Z80 {
                a: mmu@[0xFF00 + address],
                pc: (old(self).pc + 2) as u16,
                ..*old(self)
            }),
    {
        let at: usize = 0xFF00 + address as usize;
        let byte = mmu.read_byte(at);
        self.set_single_reg(SingleRegister::A, byte);
        self.pc = self.pc + 2;
    }

    /// Pushes one byte: SP is decremented first, then the byte is written
    /// at SP.
    pub fn push(&mut self, mmu: &mut MMU, data: u8)
        requires
            old(mmu).wf(),
            old(self).sp >= 1,
        ensures
            final(mmu).wf(),
            final(mmu)@ == old(mmu)@.update(old(self).sp - 1, data),
            *final(self) == (Z80 { sp: (old(self).sp - 1) as u16, ..*old(self) }),
    {
        self.sp = self.sp - 1;
        mmu.write_byte(self.sp as usize, data);
    }

    /// Pops one byte: the byte at SP is read, then SP is incremented.
    pub fn pop(&mut self, mmu: &mut MMU) -> (r: u8)
        requires
            old(mmu).wf(),
            old(self).sp + 1 <= 0xFFFF,
        ensures
            final(mmu).wf(),
            final(mmu)@ == old(mmu)@,
            r == old(mmu)@[old(self).sp as int],
            *final(self) == (Z80 { sp: (old(self).sp + 1) as u16, ..*old(self) }),
    {
        let ret = mmu.read_byte(self.sp as usize);
        self.sp = self.sp + 1;
        ret
    }

    /// CALL a16: pushes the address of the next instruction (PC advanced
    /// past the three CALL bytes), high byte first, and jumps.
    pub fn call_a16(&mut self, mmu: &mut MMU, address: u16)
        requires
            old(mmu).wf(),
            old(self).sp >= 2,
            old(self).pc + 3 <= 0xFFFF,
        ensures
            final(mmu).wf(),
            final(mmu)@ == old(mmu)@.update(
                old(self).sp - 1,
                ((old(self).pc + 3) / 256) as u8,
            ).update(old(self).sp - 2, ((old(self).pc + 3) % 256) as u8),
            *final(self) == (Z80 { pc: address, sp: (old(self).sp - 2) as u16, ..*old(self) }),
    {
        let ret: u16 = self.pc + 3;
        let pair = u16_to_u8_pair_le(ret);
        self.push(mmu, pair.1);
        self.push(mmu, pair.0);
        self.pc = address;
    }

    /// RET: pops the return address, low byte first, into PC.
    pub fn ret(&mut self, mmu: &mut MMU)
        requires
            old(mmu).wf(),
            old(self).sp + 2 <= 0xFFFF,
        ensures
            final(mmu).wf(),
            final(mmu)@ == old(mmu)@,
            *final(self) == (Z80 {
                pc: spec_word_le(old(mmu)@[old(self).sp as int], old(mmu)@[old(self).sp + 1]),
                sp: (old(self).sp + 2) as u16,
                ..*old(self)
            }),
    {
        let l = self.pop(mmu);
        let h = self.pop(mmu);
        self.pc = u8_pair_to_u16_le(l, h);
    }

    /// INC r: increments with wrap-around; H is set exactly on a carry
    /// out of bit 3, Z comes from the result, N is cleared, C is kept.
    pub fn inc_r8(&mut self, reg: SingleRegister)
        requires
            old(self).pc + 1 <= 0xFFFF,
        ensures
            ({
                let v = spec_z80_r8(*old(self), reg);
                let res: u8 = if v == 255 {
                    0
                } else {
                    (v + 1) as u8
                };
                *final(self) == (Z80 {
                    pc: (old(self).pc + 1) as u16,
                    ..spec_z80_set_r8(
                        Z80 {
                            f: flags_byte(res == 0, false, v % 16 == 15, flag_c(old(self).f)),
                            ..*old(self)
                        },
                        reg,
                        res,
                    )
                })
            }),
    {
        let val = self.get_single_reg(reg);
        let hc = half_carry(val, 1);
        let cflag = test_bit(self.f, 4);
        let res: u8 = if val == 255 {
            0
        } else {
            val + 1
        };
        self.f = compose_flags(res == 0, false, hc, cflag);
        self.set_single_reg(reg, res);
        self.pc = self.pc + 1;
    }

    /// DEC r: decrements with wrap-around; N is set, H exactly on a
    /// borrow from bit 4, Z comes from the result, C is kept.
    pub fn dec_r8(&mut self, reg: SingleRegister)
        requires
            old(self).pc + 1 <= 0xFFFF,
        ensures
            ({
                let v = spec_z80_r8(*old(self), reg);
                let res: u8 = if v == 0 {
                    255
                } else {
                    (v - 1) as u8
                };
                *final(self) == (Z80 {
                    pc: (old(self).pc + 1) as u16,
                    ..spec_z80_set_r8(
                        Z80 {
                            f: flags_byte(res == 0, true, v % 16 == 0, flag_c(old(self).f)),
                            ..*old(self)
                        },
                        reg,
                        res,
                    )
                })
            }),
    {
        let val = self.get_single_reg(reg);
        let cflag = test_bit(self.f, 4);
        let res: u8 = if val == 0 {
            255
        } else {
            val - 1
        };
        self.f = compose_flags(res == 0, true, val % 16 == 0, cflag);
        self.set_single_reg(reg, res);
        self.pc = self.pc + 1;
    }

    /// XOR r into the accumulator; Z comes from the result and N, H and
    /// C are cleared. PC is accounted for by the caller.
    pub fn xor_r8(&mut self, reg: SingleRegister)
        ensures
            ({
                let res = old(self).a ^ spec_z80_r8(*old(self), reg);
                *final(self) == (Z80 {
                    a: res,
                    f: flags_byte(res == 0, false, false, false),
                    ..*old(self)
                })
            }),
    {
        let reg = self.get_single_reg(reg);
        self.a = self.a ^ reg;
        self.f = compose_flags(self.a == 0, false, false, false);
    }
}

/// What the legacy decoder makes of an opcode and the two bytes after it;
/// anything it does not recognize decodes as NOP.
pub open spec fn spec_decode_z80(b0: u8, b1: u8, b2: u8) -> Instruction {
    let d16 = spec_word_le(b1, b2);
    if b0 == 0x01 {
        Instruction::LdR16D16(DoubleRegister::BC, d16)
    } else if b0 == 0x11 {
        Instruction::LdR16D16(DoubleRegister::DE, d16)
    } else if b0 == 0x21 {
        Instruction::LdR16D16(DoubleRegister::HL, d16)
    } else if b0 == 0x31 {
        Instruction::LdR16D16(DoubleRegister::SP, d16)
    } else if b0 == 0xE2 {
        Instruction::LdACA
    } else if b0 == 0xF2 {
        Instruction::LdAAC
    } else if b0 == 0x06 {
        Instruction::LdR8D8(SingleRegister::B, b1)
    } else if b0 == 0x16 {
        Instruction::LdR8D8(SingleRegister::D, b1)
    } else if b0 == 0x26 {
        Instruction::LdR8D8(SingleRegister::H, b1)
    } else if b0 == 0x0E {
        Instruction::LdR8D8(SingleRegister::C, b1)
    } else if b0 == 0x1E {
        Instruction::LdR8D8(SingleRegister::E, b1)
    } else if b0 == 0x2E {
        Instruction::LdR8D8(SingleRegister::L, b1)
    } else if b0 == 0x3E {
        Instruction::LdR8D8(SingleRegister::A, b1)
    } else if b0 == 0x0C {
        Instruction::IncR8(SingleRegister::C)
    } else if b0 == 0x1C {
        Instruction::IncR8(SingleRegister::E)
    } else if b0 == 0x2C {
        Instruction::IncR8(SingleRegister::L)
    } else if b0 == 0x3C {
        Instruction::IncR8(SingleRegister::A)
    } else if b0 == 0x04 {
        Instruction::IncR8(SingleRegister::B)
    } else if b0 == 0x14 {
        Instruction::IncR8(SingleRegister::D)
    } else if b0 == 0x24 {
        Instruction::IncR8(SingleRegister::H)
    } else if b0 == 0xE0 {
        Instruction::LdHA8A(b1)
    } else if b0 == 0xF0 {
        Instruction::LdHAA8(b1)
    } else if b0 == 0xCD {
        Instruction::CallA16(d16)
    } else if b0 == 0xC9 {
        Instruction::Ret
    } else if b0 == 0x70 {
        Instruction::LdAHLR8(SingleRegister::B)
    } else if b0 == 0x71 {
        Instruction::LdAHLR8(SingleRegister::C)
    } else if b0 == 0x72 {
        Instruction::LdAHLR8(SingleRegister::D)
    } else if b0 == 0x73 {
        Instruction::LdAHLR8(SingleRegister::E)
    } else if b0 == 0x74 {
        Instruction::LdAHLR8(SingleRegister::H)
    } else if b0 == 0x75 {
        Instruction::LdAHLR8(SingleRegister::L)
    } else if b0 == 0x77 {
        Instruction::LdAHLR8(SingleRegister::A)
    } else if b0 == 0xA8 {
        Instruction::XorR8(SingleRegister::B)
    } else if b0 == 0xA9 {
        Instruction::XorR8(SingleRegister::C)
    } else if b0 == 0xAA {
        Instruction::XorR8(SingleRegister::D)
    } else if b0 == 0xAB {
        Instruction::XorR8(SingleRegister::E)
    } else if b0 == 0xAC {
        Instruction::XorR8(SingleRegister::H)
    } else if b0 == 0xAD {
        Instruction::XorR8(SingleRegister::L)
    } else if b0 == 0xAF {
        Instruction::XorR8(SingleRegister::A)
    } else if b0 == 0x32 {
        Instruction::LdHLDecA
    } else if b0 == 0x20 {
        Instruction::JRNZ(b1 as i8)
    } else if b0 == 0xCB {
        if b1 == 0x7C {
            Instruction::Bit7H
        } else {
            Instruction::Nop
        }
    } else {
        Instruction::Nop
    }
}

/// When an instruction can run without tripping the legacy core's
/// debug-time bounds: room for the PC advance, a live stack for calls and
/// returns, and a nonzero HL for the decrementing store.
pub open spec fn spec_z80_ok(cpu: Z80, inst: Instruction) -> bool {
    match inst {
        Instruction::Nop => cpu.pc + 1 <= 0xFFFF && cpu.t + 4 <= usize::MAX,
        Instruction::LdR16D16(reg, v) => spec_z80_set_rr(cpu, reg, v).pc + 3 <= 0xFFFF,
        Instruction::LdR8D8(_, _) => cpu.pc + 2 <= 0xFFFF,
        Instruction::LdACA => cpu.pc + 1 <= 0xFFFF,
        Instruction::LdAAC => cpu.pc + 1 <= 0xFFFF,
        Instruction::LdHAA8(_) => cpu.pc + 2 <= 0xFFFF,
        Instruction::LdHA8A(_) => cpu.pc + 2 <= 0xFFFF,
        Instruction::CallA16(_) => cpu.sp >= 2 && cpu.pc + 3 <= 0xFFFF,
        Instruction::Ret => cpu.sp + 2 <= 0xFFFF,
        Instruction::IncR8(_) => cpu.pc + 1 <= 0xFFFF,
        Instruction::XorR8(_) => cpu.pc + 1 <= 0xFFFF,
        Instruction::XorA => cpu.pc + 1 <= 0xFFFF,
        Instruction::LdHLDecA => spec_z80_rr(cpu, DoubleRegister::HL) > 0 && cpu.pc + 1 <= 0xFFFF,
        Instruction::LdAHLR8(_) => cpu.pc + 1 <= 0xFFFF,
        Instruction::Bit7H => cpu.pc + 2 <= 0xFFFF,
        Instruction::JRNZ(rel) => (if spec_bit(cpu.f, 7) {
            cpu.pc as int
        } else {
            wrap16(cpu.pc + rel) as int
        }) + 2 <= 0xFFFF,
        _ => true,
    }
}

/// The machine and memory after the legacy core runs one instruction; a
/// variant the executor does not handle leaves both untouched.
pub open spec fn spec_z80_exec(pre: Z80, mem: Seq<u8>, inst: Instruction) -> (Z80, Seq<u8>) {
    match inst {
        Instruction::Nop => (
            Z80 { t: (pre.t + 4) as usize, pc: (pre.pc + 1) as u16, ..pre },
            mem,
        ),
        Instruction::LdR16D16(reg, v) => {
            let m = spec_z80_set_rr(pre, reg, v);
            (Z80 { pc: (m.pc + 3) as u16, ..m }, mem)
        },
        Instruction::LdR8D8(reg, v) => {
            let m = spec_z80_set_r8(pre, reg, v);
            (Z80 { pc: (m.pc + 2) as u16, ..m }, mem)
        },
        Instruction::LdACA => (
            Z80 { pc: (pre.pc + 1) as u16, ..pre },
            mem.update(0xFF00 + pre.c, pre.a),
        ),
        Instruction::LdAAC => (
            Z80 { a: mem[0xFF00 + pre.c], pc: (pre.pc + 1) as u16, ..pre },
            mem,
        ),
        Instruction::LdHAA8(o) => (
            Z80 { a: mem[0xFF00 + o], pc: (pre.pc + 2) as u16, ..pre },
            mem,
        ),
        Instruction::LdHA8A(o) => (
            Z80 { pc: (pre.pc + 2) as u16, ..pre },
            mem.update(0xFF00 + o, pre.a),
        ),
        Instruction::CallA16(a) => (
            Z80 { pc: a, sp: (pre.sp - 2) as u16, ..pre },
            mem.update(pre.sp - 1, ((pre.pc + 3) / 256) as u8).update(
                pre.sp - 2,
                ((pre.pc + 3) % 256) as u8,
            ),
        ),
        Instruction::Ret => (
            Z80 {
                pc: spec_word_le(mem[pre.sp as int], mem[pre.sp + 1]),
                sp: (pre.sp + 2) as u16,
                ..pre
            },
            mem,
        ),
        Instruction::IncR8(reg) => {
            let v = spec_z80_r8(pre, reg);
            let res: u8 = if v == 255 {
                0
            } else {
                (v + 1) as u8
            };
            (
                Z80 {
                    pc: (pre.pc + 1) as u16,
                    ..spec_z80_set_r8(
                        Z80 { f: flags_byte(res == 0, false, v % 16 == 15, flag_c(pre.f)), ..pre },
                        reg,
                        res,
                    )
                },
                mem,
            )
        },
        Instruction::XorR8(reg) => {
            let res = pre.a ^ spec_z80_r8(pre, reg);
            (
                Z80 {
                    a: res,
                    f: flags_byte(res == 0, false, false, false),
                    pc: (pre.pc + 1) as u16,
                    ..pre
                },
                mem,
            )
        },
        Instruction::XorA => (
            Z80 {
                a: 0,
                f: flags_byte(true, false, false, false),
                pc: (pre.pc + 1) as u16,
                ..pre
            },
            mem,
        ),
        Instruction::LdHLDecA => {
            let hl = spec_z80_rr(pre, DoubleRegister::HL);
            (
                Z80 {
                    pc: (pre.pc + 1) as u16,
                    ..spec_z80_set_rr(pre, DoubleRegister::HL, (hl - 1) as u16)
                },
                mem.update(hl as int, pre.a),
            )
        },
        Instruction::Bit7H => (
            Z80 {
                f: flags_byte(!spec_bit(pre.h, 7), false, true, flag_c(pre.f)),
                pc: (pre.pc + 2) as u16,
                ..pre
            },
            mem,
        ),
        Instruction::JRNZ(rel) => (
            Z80 {
                pc: ((if spec_bit(pre.f, 7) {
                    pre.pc
                } else {
                    wrap16(pre.pc + rel)
                }) + 2) as u16,
                ..pre
            },
            mem,
        ),
        Instruction::LdAHLR8(reg) => (
            Z80 { pc: (pre.pc + 1) as u16, ..pre },
            mem.update(spec_z80_rr(pre, DoubleRegister::HL) as int, spec_z80_r8(pre, reg)),
        ),
        _ => (pre, mem),
    }
}

impl Z80 {
    /// Decodes the instruction at PC from a four-byte lookahead; the
    /// machine and the bus are left untouched.
    pub fn decode_next(&mut self, mmu: &mut MMU) -> (i: Instruction)
        requires
            old(mmu).wf(),
        ensures
            final(mmu).wf(),
            final(mmu)@ == old(mmu)@,
            *final(self) == *old(self),
            i == spec_decode_z80(
                old(mmu)@[old(self).pc as int],
                old(mmu)@[(old(self).pc + 1) % (MEMORY_SIZE as int)],
                old(mmu)@[(old(self).pc + 2) % (MEMORY_SIZE as int)],
            ),
    {
        let bytes = mmu.read_ahead(self.pc as usize);
        let opcode = bytes[0];
        match opcode {
            0x00 => Instruction::Nop,
            0x01 => Instruction::LdR16D16(DoubleRegister::BC, u8_pair_to_u16_le(bytes[1], bytes[2])),
            0x11 => Instruction::LdR16D16(DoubleRegister::DE, u8_pair_to_u16_le(bytes[1], bytes[2])),
            0x21 => Instruction::LdR16D16(DoubleRegister::HL, u8_pair_to_u16_le(bytes[1], bytes[2])),
            0x31 => Instruction::LdR16D16(DoubleRegister::SP, u8_pair_to_u16_le(bytes[1], bytes[2])),
            0xE2 => Instruction::LdACA,
            0xF2 => Instruction::LdAAC,
            0x06 => Instruction::LdR8D8(SingleRegister::B, bytes[1]),
            0x16 => Instruction::LdR8D8(SingleRegister::D, bytes[1]),
            0x26 => Instruction::LdR8D8(SingleRegister::H, bytes[1]),
            0x0E => Instruction::LdR8D8(SingleRegister::C, bytes[1]),
            0x1E => Instruction::LdR8D8(SingleRegister::E, bytes[1]),
            0x2E => Instruction::LdR8D8(SingleRegister::L, bytes[1]),
            0x3E => Instruction::LdR8D8(SingleRegister::A, bytes[1]),
            0x0C => Instruction::IncR8(SingleRegister::C),
            0x1C => Instruction::IncR8(SingleRegister::E),
            0x2C => Instruction::IncR8(SingleRegister::L),
            0x3C => Instruction::IncR8(SingleRegister::A),
            0x04 => Instruction::IncR8(SingleRegister::B),
            0x14 => Instruction::IncR8(SingleRegister::D),
            0x24 => Instruction::IncR8(SingleRegister::H),
            0xE0 => Instruction::LdHA8A(bytes[1]),
            0xF0 => Instruction::LdHAA8(bytes[1]),
            0xCD => Instruction::CallA16(u8_pair_to_u16_le(bytes[1], bytes[2])),
            0xC9 => Instruction::Ret,
            0x70 => Instruction::LdAHLR8(SingleRegister::B),
            0x71 => Instruction::LdAHLR8(SingleRegister::C),
            0x72 => Instruction::LdAHLR8(SingleRegister::D),
            0x73 => Instruction::LdAHLR8(SingleRegister::E),
            0x74 => Instruction::LdAHLR8(SingleRegister::H),
            0x75 => Instruction::LdAHLR8(SingleRegister::L),
            0x76 => Instruction::Nop,  // HALT is not modelled by the legacy core
            0x77 => Instruction::LdAHLR8(SingleRegister::A),
            0xA8 => Instruction::XorR8(SingleRegister::B),
            0xA9 => Instruction::XorR8(SingleRegister::C),
            0xAA => Instruction::XorR8(SingleRegister::D),
            0xAB => Instruction::XorR8(SingleRegister::E),
            0xAC => Instruction::XorR8(SingleRegister::H),
            0xAD => Instruction::XorR8(SingleRegister::L),
            0xAF => Instruction::XorR8(SingleRegister::A),
            0x32 => Instruction::LdHLDecA,
            0x20 => Instruction::JRNZ(bytes[1] as i8),
            0xCB => {
                let cb_opcode = bytes[1];
                match cb_opcode {
                    0x7C => Instruction::Bit7H,
                    _ => Instruction::Nop,
                }
            },
            _ => Instruction::Nop,
        }
    }

    /// Decodes the instruction at PC and executes it.
    pub fn step(&mut self, mmu: &mut MMU)
        requires
            old(mmu).wf(),
            spec_z80_ok(
                *old(self),
                spec_decode_z80(
                    old(mmu)@[old(self).pc as int],
                    old(mmu)@[(old(self).pc + 1) % (MEMORY_SIZE as int)],
                    old(mmu)@[(old(self).pc + 2) % (MEMORY_SIZE as int)],
                ),
            ),
        ensures
            final(mmu).wf(),
            (*final(self), final(mmu)@) == spec_z80_exec(
                *old(self),
                old(mmu)@,
                spec_decode_z80(
                    old(mmu)@[old(self).pc as int],
                    old(mmu)@[(old(self).pc + 1) % (MEMORY_SIZE as int)],
                    old(mmu)@[(old(self).pc + 2) % (MEMORY_SIZE as int)],
                ),
            ),
    {
        let i = self.decode_next(mmu);
        self.execute(mmu, i);
    }

    /// Runs one decoded instruction; the observable effects are exactly
    /// those of `spec_z80_exec`.
    pub fn execute(&mut self, mmu: &mut MMU, instruction: Instruction)
        requires
            old(mmu).wf(),
            spec_z80_ok(*old(self), instruction),
        ensures
            final(mmu).wf(),
            (*final(self), final(mmu)@) == spec_z80_exec(*old(self), old(mmu)@, instruction),
    {
        match instruction {
            Instruction::Nop => {
                self.time(4);
                self.pc = self.pc + 1;
            },
            Instruction::LdR16D16(reg, value) => {
                self.set_double_reg(reg, value);
                self.pc = self.pc + 3;
            },
            Instruction::LdR8D8(reg, value) => {
                self.set_single_reg(reg, value);
                self.pc = self.pc + 2;
            },
            Instruction::LdACA => {
                self.ld_ac_a(mmu);
            },
            Instruction::LdAAC => {
                self.ld_a_ac(mmu);
            },
            Instruction::LdHAA8(address) => {
                self.ldhaa8(mmu, address);
            },
            Instruction::LdHA8A(address) => {
                self.ldha8a(mmu, address);
            },
            Instruction::CallA16(address) => {
                self.call_a16(mmu, address);
            },
            Instruction::Ret => {
                self.ret(mmu);
            },
            Instruction::IncR8(reg) => {
                self.inc_r8(reg);
            },
            Instruction::XorR8(reg) => {
                self.xor_r8(reg);
                self.pc = self.pc + 1;
            },
            Instruction::XorA => {
                self.xor_a();
            },
            Instruction::LdHLDecA => {
                self.ldhldec_a(mmu);
            },
            Instruction::Bit7H => {
                self.cb_bit_7_h();
            },
            Instruction::JRNZ(rel) => {
                self.jr_nz(rel);
                self.pc = self.pc + 2;
            },
            Instruction::LdAHLR8(reg) => {
                let hl = self.get_double_reg(DoubleRegister::HL);
                let v = self.get_single_reg(reg);
                mmu.write_byte(hl as usize, v);
                self.pc = self.pc + 1;
            },
            _ => (),
        }
    }
}

} // verus!
