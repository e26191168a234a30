//! The LR35902 instruction-execution engine: register file, flag byte,
//! decoding of the 256 primary opcodes and the 256 CB-prefixed opcodes,
//! cycle accounting, conditional branching and stack discipline.
//!
//! The mathematical model of one instruction is `spec_exec_state`: given the
//! machine state and the memory content it yields the state and memory after
//! the pending instruction runs. `execute` is verified against it, and `step`
//! composes it with the prefetch of the next instruction.

use vstd::prelude::*;

use crate::memory_bus::{MEMORY_SIZE, MMU};

verus! {

/// The four meaningful flags of the flag byte F, at bits 7 (Z), 6 (N),
/// 5 (H) and 4 (C). The low nibble of F is always zero.
#[derive(Clone, Copy)]
pub enum Flag {
    Z,
    N,
    H,
    C,
}

/// Cycle bookkeeping: a wide monotone total and a small counter that the
/// host reads to co-schedule the pixel-processing unit. Both advance by the
/// timing of each executed instruction.
#[derive(Clone, Copy)]
pub struct Clocks {
    pub total: usize,
    pub current: usize,
}

impl Clocks {
    pub fn add(&mut self, t: u8)
        requires
            old(self).total + t <= usize::MAX,
            old(self).current + t <= usize::MAX,
        ensures
            final(self).total == old(self).total + t,
            final(self).current == old(self).current + t,
    {
        self.total = self.total + t as usize;
        self.current = self.current + t as usize;
    }
}

/// The interrupt-master state machine: DI disables, EI enables only after
/// the following instruction, RETI enables at once.
#[derive(Clone, Copy, Debug, PartialEq, Eq, Structural)]
pub enum ImeState {
    Disabled,
    PendingEnable,
    Enabled,
}

/// The CPU: eight 8-bit registers, PC, SP, the halted and interrupt-master
/// state, the cycle counters, and the prefetched pending instruction
/// (its four bytes, its opcode and its remaining unpaid cost).
pub struct LR35902 {
    pub a: u8,
    pub b: u8,
    pub c: u8,
    pub d: u8,
    pub e: u8,
    pub f: u8,
    pub h: u8,
    pub l: u8,
    pub pc: u16,
    pub sp: u16,
    pub halted: bool,
    pub ime: ImeState,
    pub clocks: Clocks,
    pub bytes: [u8; 4],
    pub opcode: u8,
    pub pending_clocks: u8,
    pub credit: u8,
}

/// The flag byte assembled from the four flags; its low nibble is zero.
pub open spec fn flags_byte(z: bool, n: bool, h: bool, c: bool) -> u8 {
    ((if z {
        128int
    } else {
        0int
    }) + (if n {
        64int
    } else {
        0int
    }) + (if h {
        32int
    } else {
        0int
    }) + (if c {
        16int
    } else {
        0int
    })) as u8
}

pub open spec fn flag_z(f: u8) -> bool {
    f / 128 % 2 == 1
}

pub open spec fn flag_n(f: u8) -> bool {
    f / 64 % 2 == 1
}

pub open spec fn flag_h(f: u8) -> bool {
    f / 32 % 2 == 1
}

pub open spec fn flag_c(f: u8) -> bool {
    f / 16 % 2 == 1
}

/// A well-formed flag byte keeps its low nibble zero.
pub open spec fn wf_flags(f: u8) -> bool {
    f % 16 == 0
}

/// One flag of a flag byte, selected by name.
pub open spec fn spec_flag(f: u8, flag: Flag) -> bool {
    match flag {
        Flag::Z => flag_z(f),
        Flag::N => flag_n(f),
        Flag::H => flag_h(f),
        Flag::C => flag_c(f),
    }
}

/// A flag byte with one flag forced to `state`; the low nibble is cleared,
/// as every write to F must mask it off.
pub open spec fn spec_assign_flag(f: u8, flag: Flag, state: bool) -> u8 {
    match flag {
        Flag::Z => flags_byte(state, flag_n(f), flag_h(f), flag_c(f)),
        Flag::N => flags_byte(flag_z(f), state, flag_h(f), flag_c(f)),
        Flag::H => flags_byte(flag_z(f), flag_n(f), state, flag_c(f)),
        Flag::C => flags_byte(flag_z(f), flag_n(f), flag_h(f), state),
    }
}

/// `x` reduced to the 16-bit range by one wrap, for `x` within one range of
/// it on either side.
pub open spec fn wrap16(x: int) -> u16 {
    if x < 0 {
        (x + 0x10000) as u16
    } else if x > 0xFFFF {
        (x - 0x10000) as u16
    } else {
        x as u16
    }
}

/// The little-endian word formed from a low and a high byte.
pub open spec fn word_le(lo: u8, hi: u8) -> u16 {
    (hi * 256 + lo) as u16
}

/// Assembles a flag byte; the result has a zero low nibble.
pub fn compose_flags(z: bool, n: bool, h: bool, c: bool) -> (f: u8)
    ensures
        f == flags_byte(z, n, h, c),
        wf_flags(f),
{
    let fz: u8 = if z {
        128
    } else {
        0
    };
    let fn_: u8 = if n {
        64
    } else {
        0
    };
    let fh: u8 = if h {
        32
    } else {
        0
    };
    let fc: u8 = if c {
        16
    } else {
        0
    };
    fz + fn_ + fh + fc
}

impl LR35902 {
    /// The reset state: every register zero, not halted, interrupts disabled.
    pub fn new() -> (r: LR35902)
        ensures
            r == (LR35902 {
                a: 0u8,
                b: 0u8,
                c: 0u8,
                d: 0u8,
                e: 0u8,
                f: 0u8,
                h: 0u8,
                l: 0u8,
                pc: 0u16,
                sp: 0u16,
                halted: false,
                ime: ImeState::Disabled,
                clocks: Clocks { total: 0usize, current: 0usize },
                bytes: [0u8, 0u8, 0u8, 0u8],
                opcode: 0u8,
                pending_clocks: 0u8,
                credit: 0u8,
            }),
    {
        LR35902 {
            a: 0,
            b: 0,
            c: 0,
            d: 0,
            e: 0,
            f: 0,
            h: 0,
            l: 0,
            pc: 0,
            sp: 0,
            halted: false,
            ime: ImeState::Disabled,
            clocks: Clocks { total: 0, current: 0 },
            bytes: [0, 0, 0, 0],
            opcode: 0,
            pending_clocks: 0,
            credit: 0,
        }
    }

    /// Reads one flag of F.
    pub fn get_flag(&self, flag: Flag) -> (b: bool)
        ensures
            b == spec_flag(self.f, flag),
    {
        match flag {
            Flag::Z => self.f / 128 % 2 == 1,
            Flag::N => self.f / 64 % 2 == 1,
            Flag::H => self.f / 32 % 2 == 1,
            Flag::C => self.f / 16 % 2 == 1,
        }
    }

    /// Forces one flag of F to `state`; the low nibble of F is masked off.
    pub fn assign_flag(&mut self, flag: Flag, state: bool)
        ensures
            *final(self) == (LR35902 { f: spec_assign_flag(old(self).f, flag, state), ..*old(self) }),
            wf_flags(final(self).f),
    {
        let mut z = self.get_flag(Flag::Z);
        let mut n = self.get_flag(Flag::N);
        let mut h = self.get_flag(Flag::H);
        let mut c = self.get_flag(Flag::C);
        match flag {
            Flag::Z => z = state,
            Flag::N => n = state,
            Flag::H => h = state,
            Flag::C => c = state,
        }
        self.f = compose_flags(z, n, h, c);
    }

    /// Sets one flag of F.
    pub fn set_flag(&mut self, flag: Flag)
        ensures
            *final(self) == (LR35902 { f: spec_assign_flag(old(self).f, flag, true), ..*old(self) }),
            wf_flags(final(self).f),
    {
        self.assign_flag(flag, true);
    }

    /// Clears one flag of F.
    pub fn reset_flag(&mut self, flag: Flag)
        ensures
            *final(self) == (LR35902 { f: spec_assign_flag(old(self).f, flag, false), ..*old(self) }),
            wf_flags(final(self).f),
    {
        self.assign_flag(flag, false);
    }
}

/// The eight-bit registers addressable by instruction operand fields.
#[derive(Clone, Copy)]
pub enum Reg8 {
    B,
    C,
    D,
    E,
    H,
    L,
    A,
}

/// The register pairs of 16-bit loads and arithmetic.
#[derive(Clone, Copy)]
pub enum Reg16 {
    BC,
    DE,
    HL,
    SP,
}

/// The register pairs that PUSH and POP move through the stack.
#[derive(Clone, Copy)]
pub enum PushPair {
    BC,
    DE,
    HL,
    AF,
}

/// The four branch conditions of conditional jumps, calls and returns.
#[derive(Clone, Copy)]
pub enum Cond {
    Nz,
    Z,
    Nc,
    C,
}

/// The eight accumulator operations of the ALU block.
#[derive(Clone, Copy)]
pub enum AluOp {
    Add,
    Adc,
    Sub,
    Sbc,
    And,
    Xor,
    Or,
    Cp,
}

pub open spec fn spec_r8(cpu: LR35902, r: Reg8) -> u8 {
    match r {
        Reg8::B => cpu.b,
        Reg8::C => cpu.c,
        Reg8::D => cpu.d,
        Reg8::E => cpu.e,
        Reg8::H => cpu.h,
        Reg8::L => cpu.l,
        Reg8::A => cpu.a,
    }
}

pub open spec fn spec_set_r8(cpu: LR35902, r: Reg8, v: u8) -> LR35902 {
    match r {
        Reg8::B => LR35902 { b: v, ..cpu },
        Reg8::C => LR35902 { c: v, ..cpu },
        Reg8::D => LR35902 { d: v, ..cpu },
        Reg8::E => LR35902 { e: v, ..cpu },
        Reg8::H => LR35902 { h: v, ..cpu },
        Reg8::L => LR35902 { l: v, ..cpu },
        Reg8::A => LR35902 { a: v, ..cpu },
    }
}

/// The low byte of a 16-bit word.
pub open spec fn lo8(w: u16) -> u8 {
    (w % 256) as u8
}

/// The high byte of a 16-bit word.
pub open spec fn hi8(w: u16) -> u8 {
    (w / 256) as u8
}

pub open spec fn spec_hl(cpu: LR35902) -> u16 {
    word_le(cpu.l, cpu.h)
}

pub open spec fn spec_rr(cpu: LR35902, rr: Reg16) -> u16 {
    match rr {
        Reg16::BC => word_le(cpu.c, cpu.b),
        Reg16::DE => word_le(cpu.e, cpu.d),
        Reg16::HL => word_le(cpu.l, cpu.h),
        Reg16::SP => cpu.sp,
    }
}

pub open spec fn spec_set_rr(cpu: LR35902, rr: Reg16, v: u16) -> LR35902 {
    match rr {
        Reg16::BC => LR35902 { b: hi8(v), c: lo8(v), ..cpu },
        Reg16::DE => LR35902 { d: hi8(v), e: lo8(v), ..cpu },
        Reg16::HL => LR35902 { h: hi8(v), l: lo8(v), ..cpu },
        Reg16::SP => LR35902 { sp: v, ..cpu },
    }
}

pub open spec fn spec_pp(cpu: LR35902, pp: PushPair) -> u16 {
    match pp {
        PushPair::BC => word_le(cpu.c, cpu.b),
        PushPair::DE => word_le(cpu.e, cpu.d),
        PushPair::HL => word_le(cpu.l, cpu.h),
        PushPair::AF => word_le(cpu.f, cpu.a),
    }
}

/// Writes a popped word into a register pair. A pop into AF masks the low
/// nibble of F off, keeping the flag byte well formed.
pub open spec fn spec_set_pp(cpu: LR35902, pp: PushPair, v: u16) -> LR35902 {
    match pp {
        PushPair::BC => LR35902 { b: hi8(v), c: lo8(v), ..cpu },
        PushPair::DE => LR35902 { d: hi8(v), e: lo8(v), ..cpu },
        PushPair::HL => LR35902 { h: hi8(v), l: lo8(v), ..cpu },
        PushPair::AF => LR35902 { a: hi8(v), f: (lo8(v) / 16 * 16) as u8, ..cpu },
    }
}

/// Whether a branch condition holds of a flag byte.
pub open spec fn spec_cond(cc: Cond, f: u8) -> bool {
    match cc {
        Cond::Nz => !flag_z(f),
        Cond::Z => flag_z(f),
        Cond::Nc => !flag_c(f),
        Cond::C => flag_c(f),
    }
}

/// Result, carry out of bit 7 and half-carry out of bit 3 of `a + b + cin`.
pub open spec fn spec_add8(a: u8, b: u8, cin: bool) -> (u8, bool, bool) {
    let ci: int = if cin {
        1
    } else {
        0
    };
    let s = a + b + ci;
    (
        if s > 255 {
            (s - 256) as u8
        } else {
            s as u8
        },
        s > 255,
        a % 16 + b % 16 + ci > 15,
    )
}

/// Result, borrow into bit 7 and half-borrow into bit 3 of `a - b - cin`.
pub open spec fn spec_sub8(a: u8, b: u8, cin: bool) -> (u8, bool, bool) {
    let ci: int = if cin {
        1
    } else {
        0
    };
    let d = a - b - ci;
    (
        if d < 0 {
            (d + 256) as u8
        } else {
            d as u8
        },
        d < 0,
        a % 16 < b % 16 + ci,
    )
}

pub open spec fn spec_inc8(v: u8) -> u8 {
    if v == 255 {
        0
    } else {
        (v + 1) as u8
    }
}

pub open spec fn spec_dec8(v: u8) -> u8 {
    if v == 0 {
        255
    } else {
        (v - 1) as u8
    }
}

/// Carry, half-carry and result of an 8-bit add, in the canonical LR35902
/// sense: half-carry is the carry out of bit 3.
pub fn half_carry_add_u8(op: u8, op2: u8) -> (r: (bool, bool, u8))
    ensures
        r.0 == spec_add8(op, op2, false).1,
        r.1 == spec_add8(op, op2, false).2,
        r.2 == spec_add8(op, op2, false).0,
{
    let s: u16 = op as u16 + op2 as u16;
    let result: u8 = if s > 255 {
        (s - 256) as u8
    } else {
        s as u8
    };
    (s > 255, op % 16 + op2 % 16 > 15, result)
}

/// Carry (borrow), half-carry (borrow from bit 4) and result of an 8-bit
/// subtraction.
pub fn half_carry_sub_u8(op: u8, op2: u8) -> (r: (bool, bool, u8))
    ensures
        r.0 == spec_sub8(op, op2, false).1,
        r.1 == spec_sub8(op, op2, false).2,
        r.2 == spec_sub8(op, op2, false).0,
{
    let result: u8 = if op < op2 {
        (op as u16 + 256 - op2 as u16) as u8
    } else {
        op - op2
    };
    (op < op2, op % 16 < op2 % 16, result)
}

/// The accumulator and flag byte after one ALU operation on operand `v`.
pub open spec fn spec_alu_apply(cpu: LR35902, op: AluOp, v: u8) -> LR35902 {
    match op {
        AluOp::Add => {
            let (r, c, h) = spec_add8(cpu.a, v, false);
            LR35902 { a: r, f: flags_byte(r == 0, false, h, c), ..cpu }
        },
        AluOp::Adc => {
            let (r, c, h) = spec_add8(cpu.a, v, flag_c(cpu.f));
            LR35902 { a: r, f: flags_byte(r == 0, false, h, c), ..cpu }
        },
        AluOp::Sub => {
            let (r, c, h) = spec_sub8(cpu.a, v, false);
            LR35902 { a: r, f: flags_byte(r == 0, true, h, c), ..cpu }
        },
        AluOp::Sbc => {
            let (r, c, h) = spec_sub8(cpu.a, v, flag_c(cpu.f));
            LR35902 { a: r, f: flags_byte(r == 0, true, h, c), ..cpu }
        },
        AluOp::And => {
            let r = cpu.a & v;
            LR35902 { a: r, f: flags_byte(r == 0, false, true, false), ..cpu }
        },
        AluOp::Xor => {
            let r = cpu.a ^ v;
            LR35902 { a: r, f: flags_byte(r == 0, false, false, false), ..cpu }
        },
        AluOp::Or => {
            let r = cpu.a | v;
            LR35902 { a: r, f: flags_byte(r == 0, false, false, false), ..cpu }
        },
        AluOp::Cp => {
            let (r, c, h) = spec_sub8(cpu.a, v, false);
            LR35902 { f: flags_byte(r == 0, true, h, c), ..cpu }
        },
    }
}

/// Rotate left; bit 7 becomes both the carry and bit 0.
pub open spec fn spec_rlc(v: u8) -> u8 {
    ((v % 128) * 2 + v / 128) as u8
}

/// Rotate left through carry; bit 7 becomes the carry, the old carry bit 0.
pub open spec fn spec_rl(v: u8, cin: bool) -> u8 {
    ((v % 128) * 2 + (if cin {
        1int
    } else {
        0int
    })) as u8
}

/// Rotate right; bit 0 becomes both the carry and bit 7.
pub open spec fn spec_rrc(v: u8) -> u8 {
    (v / 2 + (v % 2) * 128) as u8
}

/// Rotate right through carry; bit 0 becomes the carry, the old carry bit 7.
pub open spec fn spec_rr8(v: u8, cin: bool) -> u8 {
    (v / 2 + (if cin {
        128int
    } else {
        0int
    })) as u8
}

/// Arithmetic shift left; the ejected bit is bit 7.
pub open spec fn spec_sla(v: u8) -> u8 {
    ((v % 128) * 2) as u8
}

/// Arithmetic shift right; bit 7 is kept, the ejected bit is bit 0.
pub open spec fn spec_sra(v: u8) -> u8 {
    (v / 2 + (v / 128) * 128) as u8
}

/// Logical shift right; the ejected bit is bit 0.
pub open spec fn spec_srl(v: u8) -> u8 {
    v / 2
}

/// Exchanges the two nibbles.
pub open spec fn spec_swap(v: u8) -> u8 {
    ((v % 16) * 16 + v / 16) as u8
}

pub open spec fn spec_pow2(n: u8) -> u8 {
    if n == 0 {
        1
    } else if n == 1 {
        2
    } else if n == 2 {
        4
    } else if n == 3 {
        8
    } else if n == 4 {
        16
    } else if n == 5 {
        32
    } else if n == 6 {
        64
    } else {
        128
    }
}

/// Bit `n` of `v`, for `n` in 0..8.
pub open spec fn spec_bit(v: u8, n: u8) -> bool {
    v / spec_pow2(n) % 2 == 1
}

/// `v` with bit `n` cleared.
pub open spec fn spec_res_bit(v: u8, n: u8) -> u8 {
    if spec_bit(v, n) {
        (v - spec_pow2(n)) as u8
    } else {
        v
    }
}

/// `v` with bit `n` set.
pub open spec fn spec_set_bit(v: u8, n: u8) -> u8 {
    if spec_bit(v, n) {
        v
    } else {
        (v + spec_pow2(n)) as u8
    }
}

/// Reads bit `n` of `v`.
pub fn test_bit(v: u8, n: u8) -> (b: bool)
    requires
        n < 8,
    ensures
        b == spec_bit(v, n),
{
    match n {
        0 => v % 2 == 1,
        1 => v / 2 % 2 == 1,
        2 => v / 4 % 2 == 1,
        3 => v / 8 % 2 == 1,
        4 => v / 16 % 2 == 1,
        5 => v / 32 % 2 == 1,
        6 => v / 64 % 2 == 1,
        _ => v / 128 % 2 == 1,
    }
}

/// Clears bit `n` of `v`.
pub fn clear_bit(v: u8, n: u8) -> (r: u8)
    requires
        n < 8,
    ensures
        r == spec_res_bit(v, n),
{
    match n {
        0 => if v % 2 == 1 {
            v - 1
        } else {
            v
        },
        1 => if v / 2 % 2 == 1 {
            v - 2
        } else {
            v
        },
        2 => if v / 4 % 2 == 1 {
            v - 4
        } else {
            v
        },
        3 => if v / 8 % 2 == 1 {
            v - 8
        } else {
            v
        },
        4 => if v / 16 % 2 == 1 {
            v - 16
        } else {
            v
        },
        5 => if v / 32 % 2 == 1 {
            v - 32
        } else {
            v
        },
        6 => if v / 64 % 2 == 1 {
            v - 64
        } else {
            v
        },
        _ => if v / 128 % 2 == 1 {
            v - 128
        } else {
            v
        },
    }
}

/// Sets bit `n` of `v`.
pub fn put_bit(v: u8, n: u8) -> (r: u8)
    requires
        n < 8,
    ensures
        r == spec_set_bit(v, n),
{
    match n {
        0 => if v % 2 == 1 {
            v
        } else {
            v + 1
        },
        1 => if v / 2 % 2 == 1 {
            v
        } else {
            v + 2
        },
        2 => if v / 4 % 2 == 1 {
            v
        } else {
            v + 4
        },
        3 => if v / 8 % 2 == 1 {
            v
        } else {
            v + 8
        },
        4 => if v / 16 % 2 == 1 {
            v
        } else {
            v + 16
        },
        5 => if v / 32 % 2 == 1 {
            v
        } else {
            v + 32
        },
        6 => if v / 64 % 2 == 1 {
            v
        } else {
            v + 64
        },
        _ => if v / 128 % 2 == 1 {
            v
        } else {
            v + 128
        },
    }
}

/// The BCD adjustment of the accumulator after an addition or subtraction,
/// split four ways on the N and C flags; yields the adjusted value and the
/// new carry.
pub open spec fn spec_daa(a: u8, n: bool, h: bool, c: bool) -> (u8, bool) {
    if !n {
        let c1 = c || a > 0x99;
        let a1 = if c1 {
            if a >= 0xA0 {
                (a - 0xA0) as u8
            } else {
                (a + 0x60) as u8
            }
        } else {
            a
        };
        let a2 = if h || a1 % 16 > 9 {
            if a1 >= 0xFA {
                (a1 - 0xFA) as u8
            } else {
                (a1 + 6) as u8
            }
        } else {
            a1
        };
        (a2, c1)
    } else {
        let a1 = if c {
            if a >= 0x60 {
                (a - 0x60) as u8
            } else {
                (a + 0xA0) as u8
            }
        } else {
            a
        };
        let a2 = if h {
            if a1 >= 6 {
                (a1 - 6) as u8
            } else {
                (a1 + 0xFA) as u8
            }
        } else {
            a1
        };
        (a2, c)
    }
}

impl LR35902 {
    pub fn get_r8(&self, r: Reg8) -> (v: u8)
        ensures
            v == spec_r8(*self, r),
    {
        match r {
            Reg8::B => self.b,
            Reg8::C => self.c,
            Reg8::D => self.d,
            Reg8::E => self.e,
            Reg8::H => self.h,
            Reg8::L => self.l,
            Reg8::A => self.a,
        }
    }

    pub fn set_r8(&mut self, r: Reg8, v: u8)
        ensures
            *final(self) == spec_set_r8(*old(self), r, v),
    {
        match r {
            Reg8::B => self.b = v,
            Reg8::C => self.c = v,
            Reg8::D => self.d = v,
            Reg8::E => self.e = v,
            Reg8::H => self.h = v,
            Reg8::L => self.l = v,
            Reg8::A => self.a = v,
        }
    }

    pub fn get_rr(&self, rr: Reg16) -> (v: u16)
        ensures
            v == spec_rr(*self, rr),
    {
        match rr {
            Reg16::BC => self.b as u16 * 256 + self.c as u16,
            Reg16::DE => self.d as u16 * 256 + self.e as u16,
            Reg16::HL => self.h as u16 * 256 + self.l as u16,
            Reg16::SP => self.sp,
        }
    }

    pub fn set_rr(&mut self, rr: Reg16, v: u16)
        ensures
            *final(self) == spec_set_rr(*old(self), rr, v),
    {
        match rr {
            Reg16::BC => {
                self.b = (v / 256) as u8;
                self.c = (v % 256) as u8;
            },
            Reg16::DE => {
                self.d = (v / 256) as u8;
                self.e = (v % 256) as u8;
            },
            Reg16::HL => {
                self.h = (v / 256) as u8;
                self.l = (v % 256) as u8;
            },
            Reg16::SP => self.sp = v,
        }
    }

    /// Applies one ALU operation to the accumulator and the flag byte.
    fn alu_apply(&mut self, op: AluOp, v: u8)
        ensures
            *final(self) == spec_alu_apply(*old(self), op, v),
            wf_flags(final(self).f),
    {
        match op {
            AluOp::Add | AluOp::Adc => {
                let ci: u8 = if matches!(op, AluOp::Adc) && self.get_flag(Flag::C) {
                    1
                } else {
                    0
                };
                let s: u16 = self.a as u16 + v as u16 + ci as u16;
                let r: u8 = if s > 255 {
                    (s - 256) as u8
                } else {
                    s as u8
                };
                let h = self.a % 16 + v % 16 + ci > 15;
                self.f = compose_flags(r == 0, false, h, s > 255);
                self.a = r;
            },
            AluOp::Sub | AluOp::Sbc | AluOp::Cp => {
                let ci: u8 = if matches!(op, AluOp::Sbc) && self.get_flag(Flag::C) {
                    1
                } else {
                    0
                };
                let sub: u16 = v as u16 + ci as u16;
                let borrow = (self.a as u16) < sub;
                let r: u8 = if borrow {
                    (self.a as u16 + 256 - sub) as u8
                } else {
                    (self.a as u16 - sub) as u8
                };
                let h = ((self.a % 16) as u16) < ((v % 16) as u16 + ci as u16);
                self.f = compose_flags(r == 0, true, h, borrow);
                if !matches!(op, AluOp::Cp) {
                    self.a = r;
                }
            },
            AluOp::And => {
                let r = self.a & v;
                self.f = compose_flags(r == 0, false, true, false);
                self.a = r;
            },
            AluOp::Xor => {
                let r = self.a ^ v;
                self.f = compose_flags(r == 0, false, false, false);
                self.a = r;
            },
            AluOp::Or => {
                let r = self.a | v;
                self.f = compose_flags(r == 0, false, false, false);
                self.a = r;
            },
        }
    }

    /// Pushes a word: SP is decremented by two first, then the low byte is
    /// written at SP and the high byte at SP + 1. Addresses wrap at the top
    /// of the address space.
    pub fn push(&mut self, mmu: &mut MMU, value: u16)
        requires
            old(mmu).wf(),
        ensures
            final(mmu).wf(),
            *final(self) == (LR35902 { sp: wrap16(old(self).sp - 2), ..*old(self) }),
            final(mmu)@ == spec_push_mem(old(self).sp, value, old(mmu)@),
    {
        let a: u16 = if self.sp >= 2 {
            self.sp - 2
        } else {
            self.sp + 0xFFFE
        };
        self.sp = a;
        mmu.write_byte(a as usize, (value % 256) as u8);
        let a1: usize = if a == 0xFFFF {
            0
        } else {
            a as usize + 1
        };
        mmu.write_byte(a1, (value / 256) as u8);
    }

    /// Pops a word: the low byte is read at SP, the high byte at SP + 1,
    /// then SP is incremented by two. Addresses wrap at the top of the
    /// address space.
    pub fn pop(&mut self, mmu: &MMU) -> (v: u16)
        requires
            mmu.wf(),
        ensures
            v == spec_pop_val(old(self).sp, mmu@),
            *final(self) == (LR35902 { sp: wrap16(old(self).sp + 2), ..*old(self) }),
    {
        let l = mmu.read_byte(self.sp as usize);
        let ha: usize = if self.sp == 0xFFFF {
            0
        } else {
            self.sp as usize + 1
        };
        let h = mmu.read_byte(ha);
        self.sp = if self.sp >= 0xFFFE {
            (self.sp as u32 + 2 - 0x10000) as u16
        } else {
            self.sp + 2
        };
        h as u16 * 256 + l as u16
    }
}

/// The operations of the CB-prefixed opcode space.
#[derive(Clone, Copy)]
pub enum CbOp {
    Rlc,
    Rrc,
    Rl,
    Rr,
    Sla,
    Sra,
    Srl,
    Swap,
    Bit,
    Res,
    SetBit,
}

/// The operand of a CB-prefixed operation: a register or the byte at (HL).
#[derive(Clone, Copy)]
pub enum CbTgt {
    Reg(Reg8),
    HlMem,
}

/// One decoded instruction of the primary or CB-prefixed opcode space.
pub enum Instruction {
    Nop,
    Stop,
    Halt,
    IllegalOp,
    LdRR(Reg8, Reg8),
    LdRHl(Reg8),
    LdHlR(Reg8),
    LdRD8(Reg8, u8),
    LdHlD8(u8),
    LdABc,
    LdADe,
    LdAHli,
    LdAHld,
    LdBcA,
    LdDeA,
    LdHliA,
    LdHldA,
    LdAA16(u16),
    LdA16A(u16),
    LdhAA8(u8),
    LdhA8A(u8),
    LdhAC,
    LdhCA,
    LdRrD16(Reg16, u16),
    LdA16Sp(u16),
    LdSpHl,
    LdHlSpE(i8),
    IncR(Reg8),
    DecR(Reg8),
    IncHlm,
    DecHlm,
    IncRr(Reg16),
    DecRr(Reg16),
    AddHlRr(Reg16),
    AddSpE(i8),
    AluR(AluOp, Reg8),
    AluHl(AluOp),
    AluD8(AluOp, u8),
    Rlca,
    Rrca,
    Rla,
    Rra,
    Daa,
    Cpl,
    Scf,
    Ccf,
    JpA16(u16),
    JpCc(Cond, u16),
    JpHl,
    JrE(i8),
    JrCc(Cond, i8),
    CallA16(u16),
    CallCc(Cond, u16),
    Ret,
    RetCc(Cond),
    Reti,
    Rst(u8),
    PushRr(PushPair),
    PopRr(PushPair),
    Di,
    Ei,
    Cb(CbOp, u8, CbTgt),
}

/// The register selected by a three-bit operand field (6, the (HL) slot,
/// never reaches this map).
pub open spec fn reg_of(i: int) -> Reg8 {
    if i == 0 {
        Reg8::B
    } else if i == 1 {
        Reg8::C
    } else if i == 2 {
        Reg8::D
    } else if i == 3 {
        Reg8::E
    } else if i == 4 {
        Reg8::H
    } else if i == 5 {
        Reg8::L
    } else {
        Reg8::A
    }
}

pub open spec fn rr_of(i: int) -> Reg16 {
    if i == 0 {
        Reg16::BC
    } else if i == 1 {
        Reg16::DE
    } else if i == 2 {
        Reg16::HL
    } else {
        Reg16::SP
    }
}

pub open spec fn pp_of(i: int) -> PushPair {
    if i == 0 {
        PushPair::BC
    } else if i == 1 {
        PushPair::DE
    } else if i == 2 {
        PushPair::HL
    } else {
        PushPair::AF
    }
}

pub open spec fn cond_of(i: int) -> Cond {
    if i == 0 {
        Cond::Nz
    } else if i == 1 {
        Cond::Z
    } else if i == 2 {
        Cond::Nc
    } else {
        Cond::C
    }
}

pub open spec fn alu_of(i: int) -> AluOp {
    if i == 0 {
        AluOp::Add
    } else if i == 1 {
        AluOp::Adc
    } else if i == 2 {
        AluOp::Sub
    } else if i == 3 {
        AluOp::Sbc
    } else if i == 4 {
        AluOp::And
    } else if i == 5 {
        AluOp::Xor
    } else if i == 6 {
        AluOp::Or
    } else {
        AluOp::Cp
    }
}

pub open spec fn rot_of(i: int) -> CbOp {
    if i == 0 {
        CbOp::Rlc
    } else if i == 1 {
        CbOp::Rrc
    } else if i == 2 {
        CbOp::Rl
    } else if i == 3 {
        CbOp::Rr
    } else if i == 4 {
        CbOp::Sla
    } else if i == 5 {
        CbOp::Sra
    } else if i == 6 {
        CbOp::Swap
    } else {
        CbOp::Srl
    }
}

/// The eleven unused encodings of the primary opcode space.
pub open spec fn spec_illegal(op: u8) -> bool {
    op == 0xD3 || op == 0xDB || op == 0xDD || op == 0xE3 || op == 0xE4 || op == 0xEB || op == 0xEC
        || op == 0xED || op == 0xF4 || op == 0xFC || op == 0xFD
}

/// Decodes one instruction from its opcode and the two bytes after it.
pub open spec fn spec_decode(op: u8, b1: u8, b2: u8) -> Instruction {
    let d16 = word_le(b1, b2);
    let e = b1 as i8;
    if op == 0x76 {
        Instruction::Halt
    } else if 0x40 <= op < 0x80 {
        if op % 8 == 6 {
            Instruction::LdRHl(reg_of((op - 0x40) / 8))
        } else if op / 8 == 14 {
            Instruction::LdHlR(reg_of((op % 8) as int))
        } else {
            Instruction::LdRR(reg_of((op - 0x40) / 8), reg_of((op % 8) as int))
        }
    } else if 0x80 <= op < 0xC0 {
        if op % 8 == 6 {
            Instruction::AluHl(alu_of((op - 0x80) / 8))
        } else {
            Instruction::AluR(alu_of((op - 0x80) / 8), reg_of((op % 8) as int))
        }
    } else if op < 0x40 {
        if op == 0x00 {
            Instruction::Nop
        } else if op == 0x10 {
            Instruction::Stop
        } else if op == 0x08 {
            Instruction::LdA16Sp(d16)
        } else if op == 0x18 {
            Instruction::JrE(e)
        } else if op % 8 == 0 {
            Instruction::JrCc(cond_of((op - 0x20) / 8), e)
        } else if op % 16 == 1 {
            Instruction::LdRrD16(rr_of((op / 16) as int), d16)
        } else if op % 16 == 9 {
            Instruction::AddHlRr(rr_of((op / 16) as int))
        } else if op == 0x02 {
            Instruction::LdBcA
        } else if op == 0x12 {
            Instruction::LdDeA
        } else if op == 0x22 {
            Instruction::LdHliA
        } else if op == 0x32 {
            Instruction::LdHldA
        } else if op == 0x0A {
            Instruction::LdABc
        } else if op == 0x1A {
            Instruction::LdADe
        } else if op == 0x2A {
            Instruction::LdAHli
        } else if op == 0x3A {
            Instruction::LdAHld
        } else if op % 16 == 3 {
            Instruction::IncRr(rr_of((op / 16) as int))
        } else if op % 16 == 0xB {
            Instruction::DecRr(rr_of((op / 16) as int))
        } else if op == 0x34 {
            Instruction::IncHlm
        } else if op % 8 == 4 {
            Instruction::IncR(reg_of((op / 8) as int))
        } else if op == 0x35 {
            Instruction::DecHlm
        } else if op % 8 == 5 {
            Instruction::DecR(reg_of((op / 8) as int))
        } else if op == 0x36 {
            Instruction::LdHlD8(b1)
        } else if op % 8 == 6 {
            Instruction::LdRD8(reg_of((op / 8) as int), b1)
        } else if op == 0x07 {
            Instruction::Rlca
        } else if op == 0x0F {
            Instruction::Rrca
        } else if op == 0x17 {
            Instruction::Rla
        } else if op == 0x1F {
            Instruction::Rra
        } else if op == 0x27 {
            Instruction::Daa
        } else if op == 0x2F {
            Instruction::Cpl
        } else if op == 0x37 {
            Instruction::Scf
        } else {
            Instruction::Ccf
        }
    } else {
        if op == 0xCB {
            let n = (b1 / 8 % 8) as u8;
            let tgt = if b1 % 8 == 6 {
                CbTgt::HlMem
            } else {
                CbTgt::Reg(reg_of((b1 % 8) as int))
            };
            if b1 < 0x40 {
                Instruction::Cb(rot_of(n as int), 0, tgt)
            } else if b1 < 0x80 {
                Instruction::Cb(CbOp::Bit, n, tgt)
            } else if b1 < 0xC0 {
                Instruction::Cb(CbOp::Res, n, tgt)
            } else {
                Instruction::Cb(CbOp::SetBit, n, tgt)
            }
        } else if op == 0xC3 {
            Instruction::JpA16(d16)
        } else if op == 0xC9 {
            Instruction::Ret
        } else if op == 0xD9 {
            Instruction::Reti
        } else if op == 0xCD {
            Instruction::CallA16(d16)
        } else if op == 0xE0 {
            Instruction::LdhA8A(b1)
        } else if op == 0xF0 {
            Instruction::LdhAA8(b1)
        } else if op == 0xE2 {
            Instruction::LdhCA
        } else if op == 0xF2 {
            Instruction::LdhAC
        } else if op == 0xE8 {
            Instruction::AddSpE(e)
        } else if op == 0xF8 {
            Instruction::LdHlSpE(e)
        } else if op == 0xE9 {
            Instruction::JpHl
        } else if op == 0xF9 {
            Instruction::LdSpHl
        } else if op == 0xEA {
            Instruction::LdA16A(d16)
        } else if op == 0xFA {
            Instruction::LdAA16(d16)
        } else if op == 0xF3 {
            Instruction::Di
        } else if op == 0xFB {
            Instruction::Ei
        } else if spec_illegal(op) {
            Instruction::IllegalOp
        } else if op % 8 == 0 && op < 0xE0 {
            Instruction::RetCc(cond_of((op - 0xC0) / 8))
        } else if op % 16 == 1 {
            Instruction::PopRr(pp_of((op - 0xC1) / 16))
        } else if op % 8 == 2 && op < 0xE0 {
            Instruction::JpCc(cond_of((op - 0xC0) / 8), d16)
        } else if op % 8 == 4 && op < 0xE0 {
            Instruction::CallCc(cond_of((op - 0xC0) / 8), d16)
        } else if op % 16 == 5 {
            Instruction::PushRr(pp_of((op - 0xC5) / 16))
        } else if op % 8 == 6 {
            Instruction::AluD8(alu_of((op - 0xC0) / 8), b1)
        } else {
            Instruction::Rst(((op - 0xC7) / 8 * 8) as u8)
        }
    }
}

/// The length in bytes of the instruction with opcode `op` (a CB-prefixed
/// instruction is two bytes in all).
pub open spec fn spec_len(op: u8) -> u16 {
    if op == 0xCB {
        2
    } else if op < 0x40 {
        if op % 16 == 1 || op == 0x08 {
            3
        } else if op == 0x00 {
            1
        } else if op % 8 == 6 || op == 0x10 || op == 0x18 || op % 8 == 0 {
            2
        } else {
            1
        }
    } else if op < 0xC0 {
        1
    } else {
        if (op % 8 == 2 && op < 0xE0) || op == 0xC3 || (op % 8 == 4 && op < 0xE0) || op == 0xCD
            || op == 0xEA || op == 0xFA {
            3
        } else if op % 8 == 6 || op == 0xE0 || op == 0xF0 || op == 0xE8 || op == 0xF8 {
            2
        } else {
            1
        }
    }
}

/// The cycle cost of the instruction with opcode `op`, given the following
/// byte (for the CB space) and the flag byte (conditional control transfers
/// cost more when taken).
pub open spec fn spec_cost(op: u8, b1: u8, f: u8) -> u8 {
    if op == 0xCB {
        if b1 % 8 == 6 {
            if 0x40 <= b1 < 0x80 {
                12
            } else {
                16
            }
        } else {
            8
        }
    } else if op < 0x40 {
        if op == 0x00 || op == 0x10 {
            4
        } else if op == 0x08 {
            20
        } else if op == 0x18 {
            12
        } else if op % 8 == 0 {
            if spec_cond(cond_of((op - 0x20) / 8), f) {
                12
            } else {
                8
            }
        } else if op % 16 == 1 {
            12
        } else if op == 0x34 || op == 0x35 || op == 0x36 {
            12
        } else if op % 16 == 9 || op % 16 == 2 || op % 16 == 0xA || op % 16 == 3 || op % 16 == 0xB
            || op % 8 == 6 {
            8
        } else {
            4
        }
    } else if op == 0x76 {
        4
    } else if op < 0xC0 {
        if op % 8 == 6 || (0x70 <= op < 0x78) {
            8
        } else {
            4
        }
    } else {
        if op % 8 == 0 && op < 0xE0 {
            if spec_cond(cond_of((op - 0xC0) / 8), f) {
                20
            } else {
                8
            }
        } else if op == 0xE0 || op == 0xF0 {
            12
        } else if op == 0xE8 {
            16
        } else if op == 0xF8 {
            12
        } else if op % 16 == 1 {
            12
        } else if op == 0xC3 || op == 0xC9 || op == 0xD9 {
            16
        } else if op == 0xE9 {
            4
        } else if op == 0xF9 {
            8
        } else if op == 0xE2 || op == 0xF2 {
            8
        } else if op % 8 == 2 && op < 0xE0 {
            if spec_cond(cond_of((op - 0xC0) / 8), f) {
                16
            } else {
                12
            }
        } else if op == 0xEA || op == 0xFA {
            16
        } else if op % 8 == 4 && op < 0xE0 {
            if spec_cond(cond_of((op - 0xC0) / 8), f) {
                24
            } else {
                12
            }
        } else if op == 0xCD {
            24
        } else if op % 16 == 5 {
            16
        } else if op % 8 == 6 {
            8
        } else if op == 0xF3 || op == 0xFB {
            4
        } else if spec_illegal(op) {
            4
        } else {
            16
        }
    }
}

/// The memory after a word is pushed with the stack pointer at `sp`:
/// the low byte lands at `sp - 2`, the high byte at `sp - 1`.
pub open spec fn spec_push_mem(sp: u16, v: u16, mem: Seq<u8>) -> Seq<u8> {
    let a = wrap16(sp - 2);
    mem.update(a as int, lo8(v)).update(wrap16(a + 1) as int, hi8(v))
}

/// The word a pop reads with the stack pointer at `sp`.
pub open spec fn spec_pop_val(sp: u16, mem: Seq<u8>) -> u16 {
    word_le(mem[sp as int], mem[wrap16(sp + 1) as int])
}

/// A fatal decoding error: one of the unused encodings was fetched.
#[derive(Clone, Copy, Debug, PartialEq, Eq, Structural)]
pub enum EmuError {
    IllegalOpcode { opcode: u8, pc: u16 },
}

/// The one-instruction delay of EI: a pending enable becomes effective once
/// the following instruction has run.
pub open spec fn spec_ime_step(i: ImeState) -> ImeState {
    match i {
        ImeState::PendingEnable => ImeState::Enabled,
        _ => i,
    }
}

/// The bookkeeping every instruction performs: PC advances by the
/// instruction length, both cycle counters by its cost, and a pending
/// interrupt enable becomes effective.
pub open spec fn spec_base(pre: LR35902) -> LR35902 {
    let cost = spec_cost(pre.opcode, pre.bytes@[1], pre.f);
    LR35902 {
        pc: wrap16(pre.pc + spec_len(pre.opcode)),
        clocks: Clocks {
            total: (pre.clocks.total + cost) as usize,
            current: (pre.clocks.current + cost) as usize,
        },
        ime: spec_ime_step(pre.ime),
        ..pre
    }
}

/// What `execute` may assume of the machine: a well-formed flag byte, a
/// well-formed bus, and room in the cycle counters for one more instruction
/// (no instruction costs more than 24 cycles).
pub open spec fn exec_pre(cpu: LR35902, mmu: MMU) -> bool {
    &&& wf_flags(cpu.f)
    &&& mmu.wf()
    &&& cpu.clocks.total + 24 <= usize::MAX
    &&& cpu.clocks.current + 24 <= usize::MAX
}

/// The machine state and memory after the pending instruction runs: the
/// observational contract of `execute`, one arm per instruction family.
pub open spec fn spec_exec_state(pre: LR35902, mem: Seq<u8>) -> (LR35902, Seq<u8>) {
    let b = spec_base(pre);
    let hl = spec_hl(pre);
    match spec_decode(pre.opcode, pre.bytes@[1], pre.bytes@[2]) {
        Instruction::Nop => (b, mem),
        Instruction::Stop => (b, mem),
        Instruction::Halt => (LR35902 { halted: true, ..b }, mem),
        Instruction::IllegalOp => (pre, mem),
        Instruction::LdRR(d, s) => (spec_set_r8(b, d, spec_r8(pre, s)), mem),
        Instruction::LdRHl(d) => (spec_set_r8(b, d, mem[hl as int]), mem),
        Instruction::LdHlR(s) => (b, mem.update(hl as int, spec_r8(pre, s))),
        Instruction::LdRD8(d, v) => (spec_set_r8(b, d, v), mem),
        Instruction::LdHlD8(v) => (b, mem.update(hl as int, v)),
        Instruction::LdABc => (LR35902 { a: mem[spec_rr(pre, Reg16::BC) as int], ..b }, mem),
        Instruction::LdADe => (LR35902 { a: mem[spec_rr(pre, Reg16::DE) as int], ..b }, mem),
        Instruction::LdAHli => (
            LR35902 { a: mem[hl as int], h: hi8(wrap16(hl + 1)), l: lo8(wrap16(hl + 1)), ..b },
            mem,
        ),
        Instruction::LdAHld => (
            LR35902 { a: mem[hl as int], h: hi8(wrap16(hl - 1)), l: lo8(wrap16(hl - 1)), ..b },
            mem,
        ),
        Instruction::LdBcA => (b, mem.update(spec_rr(pre, Reg16::BC) as int, pre.a)),
        Instruction::LdDeA => (b, mem.update(spec_rr(pre, Reg16::DE) as int, pre.a)),
        Instruction::LdHliA => (
            LR35902 { h: hi8(wrap16(hl + 1)), l: lo8(wrap16(hl + 1)), ..b },
            mem.update(hl as int, pre.a),
        ),
        Instruction::LdHldA => (
            LR35902 { h: hi8(wrap16(hl - 1)), l: lo8(wrap16(hl - 1)), ..b },
            mem.update(hl as int, pre.a),
        ),
        Instruction::LdAA16(a) => (LR35902 { a: mem[a as int], ..b }, mem),
        Instruction::LdA16A(a) => (b, mem.update(a as int, pre.a)),
        Instruction::LdhAA8(o) => (LR35902 { a: mem[0xFF00 + o], ..b }, mem),
        Instruction::LdhA8A(o) => (b, mem.update(0xFF00 + o, pre.a)),
        Instruction::LdhAC => (LR35902 { a: mem[0xFF00 + pre.c], ..b }, mem),
        Instruction::LdhCA => (b, mem.update(0xFF00 + pre.c, pre.a)),
        Instruction::LdRrD16(rr, v) => (spec_set_rr(b, rr, v), mem),
        Instruction::LdA16Sp(a) => (
            b,
            mem.update(a as int, lo8(pre.sp)).update(wrap16(a + 1) as int, hi8(pre.sp)),
        ),
        Instruction::LdSpHl => (LR35902 { sp: hl, ..b }, mem),
        Instruction::LdHlSpE(e) => {
            let r = wrap16(pre.sp + e);
            let half = pre.sp % 16 + (e as u8) % 16 > 15;
            let carry = pre.sp % 256 + (e as u8) > 255;
            (
                LR35902 { h: hi8(r), l: lo8(r), f: flags_byte(false, false, half, carry), ..b },
                mem,
            )
        },
        Instruction::AddSpE(e) => {
            let r = wrap16(pre.sp + e);
            let half = pre.sp % 16 + (e as u8) % 16 > 15;
            let carry = pre.sp % 256 + (e as u8) > 255;
            (LR35902 { sp: r, f: flags_byte(false, false, half, carry), ..b }, mem)
        },
        Instruction::IncR(r) => {
            let v = spec_r8(pre, r);
            let res = spec_inc8(v);
            (
                LR35902 {
                    f: flags_byte(res == 0, false, v % 16 == 15, flag_c(pre.f)),
                    ..spec_set_r8(b, r, res)
                },
                mem,
            )
        },
        Instruction::DecR(r) => {
            let v = spec_r8(pre, r);
            let res = spec_dec8(v);
            (
                LR35902 {
                    f: flags_byte(res == 0, true, v % 16 == 0, flag_c(pre.f)),
                    ..spec_set_r8(b, r, res)
                },
                mem,
            )
        },
        Instruction::IncHlm => {
            let v = mem[hl as int];
            let res = spec_inc8(v);
            (
                LR35902 { f: flags_byte(res == 0, false, v % 16 == 15, flag_c(pre.f)), ..b },
                mem.update(hl as int, res),
            )
        },
        Instruction::DecHlm => {
            let v = mem[hl as int];
            let res = spec_dec8(v);
            (
                LR35902 { f: flags_byte(res == 0, true, v % 16 == 0, flag_c(pre.f)), ..b },
                mem.update(hl as int, res),
            )
        },
        Instruction::IncRr(rr) => (spec_set_rr(b, rr, wrap16(spec_rr(pre, rr) + 1)), mem),
        Instruction::DecRr(rr) => (spec_set_rr(b, rr, wrap16(spec_rr(pre, rr) - 1)), mem),
        Instruction::AddHlRr(rr) => {
            let v = spec_rr(pre, rr);
            let r = wrap16(hl + v);
            let half = hl % 4096 + v % 4096 > 4095;
            let carry = hl + v > 65535;
            (
                LR35902 {
                    h: hi8(r),
                    l: lo8(r),
                    f: flags_byte(flag_z(pre.f), false, half, carry),
                    ..b
                },
                mem,
            )
        },
        Instruction::AluR(op, r) => (spec_alu_apply(b, op, spec_r8(pre, r)), mem),
        Instruction::AluHl(op) => (spec_alu_apply(b, op, mem[hl as int]), mem),
        Instruction::AluD8(op, v) => (spec_alu_apply(b, op, v), mem),
        Instruction::Rlca => (
            LR35902 {
                a: spec_rlc(pre.a),
                f: flags_byte(false, false, false, spec_bit(pre.a, 7)),
                ..b
            },
            mem,
        ),
        Instruction::Rrca => (
            LR35902 {
                a: spec_rrc(pre.a),
                f: flags_byte(false, false, false, spec_bit(pre.a, 0)),
                ..b
            },
            mem,
        ),
        Instruction::Rla => (
            LR35902 {
                a: spec_rl(pre.a, flag_c(pre.f)),
                f: flags_byte(false, false, false, spec_bit(pre.a, 7)),
                ..b
            },
            mem,
        ),
        Instruction::Rra => (
            LR35902 {
                a: spec_rr8(pre.a, flag_c(pre.f)),
                f: flags_byte(false, false, false, spec_bit(pre.a, 0)),
                ..b
            },
            mem,
        ),
        Instruction::Daa => {
            let (a2, c2) = spec_daa(pre.a, flag_n(pre.f), flag_h(pre.f), flag_c(pre.f));
            (LR35902 { a: a2, f: flags_byte(a2 == 0, flag_n(pre.f), false, c2), ..b }, mem)
        },
        Instruction::Cpl => (
            LR35902 {
                a: (255 - pre.a) as u8,
                f: flags_byte(flag_z(pre.f), true, true, flag_c(pre.f)),
                ..b
            },
            mem,
        ),
        Instruction::Scf => (
            LR35902 { f: flags_byte(flag_z(pre.f), false, false, true), ..b },
            mem,
        ),
        Instruction::Ccf => (
            LR35902 { f: flags_byte(flag_z(pre.f), false, false, !flag_c(pre.f)), ..b },
            mem,
        ),
        Instruction::JpA16(a) => (LR35902 { pc: a, ..b }, mem),
        Instruction::JpCc(cc, a) => if spec_cond(cc, pre.f) {
            (LR35902 { pc: a, ..b }, mem)
        } else {
            (b, mem)
        },
        Instruction::JpHl => (LR35902 { pc: hl, ..b }, mem),
        Instruction::JrE(e) => (LR35902 { pc: wrap16(b.pc + e), ..b }, mem),
        Instruction::JrCc(cc, e) => if spec_cond(cc, pre.f) {
            (LR35902 { pc: wrap16(b.pc + e), ..b }, mem)
        } else {
            (b, mem)
        },
        Instruction::CallA16(a) => (
            LR35902 { pc: a, sp: wrap16(pre.sp - 2), ..b },
            spec_push_mem(pre.sp, b.pc, mem),
        ),
        Instruction::CallCc(cc, a) => if spec_cond(cc, pre.f) {
            (LR35902 { pc: a, sp: wrap16(pre.sp - 2), ..b }, spec_push_mem(pre.sp, b.pc, mem))
        } else {
            (b, mem)
        },
        Instruction::Ret => (
            LR35902 { pc: spec_pop_val(pre.sp, mem), sp: wrap16(pre.sp + 2), ..b },
            mem,
        ),
        Instruction::RetCc(cc) => if spec_cond(cc, pre.f) {
            (LR35902 { pc: spec_pop_val(pre.sp, mem), sp: wrap16(pre.sp + 2), ..b }, mem)
        } else {
            (b, mem)
        },
        Instruction::Reti => (
            LR35902 {
                pc: spec_pop_val(pre.sp, mem),
                sp: wrap16(pre.sp + 2),
                ime: ImeState::Enabled,
                ..b
            },
            mem,
        ),
        Instruction::Rst(v) => (
            LR35902 { pc: v as u16, sp: wrap16(pre.sp - 2), ..b },
            spec_push_mem(pre.sp, b.pc, mem),
        ),
        Instruction::PushRr(pp) => (
            LR35902 { sp: wrap16(pre.sp - 2), ..b },
            spec_push_mem(pre.sp, spec_pp(pre, pp), mem),
        ),
        Instruction::PopRr(pp) => (
            spec_set_pp(LR35902 { sp: wrap16(pre.sp + 2), ..b }, pp, spec_pop_val(pre.sp, mem)),
            mem,
        ),
        Instruction::Di => (LR35902 { ime: ImeState::Disabled, ..b }, mem),
        Instruction::Ei => (LR35902 { ime: ImeState::PendingEnable, ..b }, mem),
        Instruction::Cb(op, n, tgt) => {
            let v = match tgt {
                CbTgt::Reg(r) => spec_r8(pre, r),
                CbTgt::HlMem => mem[hl as int],
            };
            let rot = spec_cb_result(op, v, n, flag_c(pre.f));
            let newf = spec_cb_flags(op, v, n, pre.f);
            let cpu1 = LR35902 { f: newf, ..b };
            match op {
                CbOp::Bit => (cpu1, mem),
                _ => match tgt {
                    CbTgt::Reg(r) => (spec_set_r8(cpu1, r, rot), mem),
                    CbTgt::HlMem => (cpu1, mem.update(hl as int, rot)),
                },
            }
        },
    }
}

/// The value a CB-prefixed operation writes back (unused for BIT).
pub open spec fn spec_cb_result(op: CbOp, v: u8, n: u8, cin: bool) -> u8 {
    match op {
        CbOp::Rlc => spec_rlc(v),
        CbOp::Rrc => spec_rrc(v),
        CbOp::Rl => spec_rl(v, cin),
        CbOp::Rr => spec_rr8(v, cin),
        CbOp::Sla => spec_sla(v),
        CbOp::Sra => spec_sra(v),
        CbOp::Srl => spec_srl(v),
        CbOp::Swap => spec_swap(v),
        CbOp::Bit => v,
        CbOp::Res => spec_res_bit(v, n),
        CbOp::SetBit => spec_set_bit(v, n),
    }
}

/// The flag byte after a CB-prefixed operation on value `v`.
pub open spec fn spec_cb_flags(op: CbOp, v: u8, n: u8, f: u8) -> u8 {
    match op {
        CbOp::Rlc => flags_byte(spec_rlc(v) == 0, false, false, spec_bit(v, 7)),
        CbOp::Rrc => flags_byte(spec_rrc(v) == 0, false, false, spec_bit(v, 0)),
        CbOp::Rl => flags_byte(spec_rl(v, flag_c(f)) == 0, false, false, spec_bit(v, 7)),
        CbOp::Rr => flags_byte(spec_rr8(v, flag_c(f)) == 0, false, false, spec_bit(v, 0)),
        CbOp::Sla => flags_byte(spec_sla(v) == 0, false, false, spec_bit(v, 7)),
        CbOp::Sra => flags_byte(spec_sra(v) == 0, false, false, spec_bit(v, 0)),
        CbOp::Srl => flags_byte(spec_srl(v) == 0, false, false, spec_bit(v, 0)),
        CbOp::Swap => flags_byte(spec_swap(v) == 0, false, false, false),
        CbOp::Bit => flags_byte(!spec_bit(v, n), false, true, flag_c(f)),
        CbOp::Res => f,
        CbOp::SetBit => f,
    }
}

/// Length in bytes of the instruction with opcode `op`.
pub fn instr_len(op: u8) -> (r: u16)
    ensures
        r == spec_len(op),
        1 <= r <= 3,
{
    if op == 0xCB {
        2
    } else if op < 0x40 {
        if op % 16 == 1 || op == 0x08 {
            3
        } else if op == 0x00 {
            1
        } else if op % 8 == 6 || op == 0x10 || op == 0x18 || op % 8 == 0 {
            2
        } else {
            1
        }
    } else if op < 0xC0 {
        1
    } else {
        if (op % 8 == 2 && op < 0xE0) || op == 0xC3 || (op % 8 == 4 && op < 0xE0) || op == 0xCD
            || op == 0xEA || op == 0xFA {
            3
        } else if op % 8 == 6 || op == 0xE0 || op == 0xF0 || op == 0xE8 || op == 0xF8 {
            2
        } else {
            1
        }
    }
}

/// Whether a branch condition holds of a flag byte.
pub fn cond_holds(cc: Cond, f: u8) -> (b: bool)
    ensures
        b == spec_cond(cc, f),
{
    match cc {
        Cond::Nz => !(f / 128 % 2 == 1),
        Cond::Z => f / 128 % 2 == 1,
        Cond::Nc => !(f / 16 % 2 == 1),
        Cond::C => f / 16 % 2 == 1,
    }
}

/// The condition selected by a two-bit field.
pub fn cond_of_idx(i: u8) -> (cc: Cond)
    ensures
        cc == cond_of(i as int),
{
    if i == 0 {
        Cond::Nz
    } else if i == 1 {
        Cond::Z
    } else if i == 2 {
        Cond::Nc
    } else {
        Cond::C
    }
}

/// Cycle cost of the instruction with opcode `op`, given the byte after it
/// and the flag byte.
pub fn instr_cost(op: u8, b1: u8, f: u8) -> (r: u8)
    ensures
        r == spec_cost(op, b1, f),
        r <= 24,
{
    if op == 0xCB {
        if b1 % 8 == 6 {
            if 0x40 <= b1 && b1 < 0x80 {
                12
            } else {
                16
            }
        } else {
            8
        }
    } else if op < 0x40 {
        if op == 0x00 || op == 0x10 {
            4
        } else if op == 0x08 {
            20
        } else if op == 0x18 {
            12
        } else if op % 8 == 0 {
            if cond_holds(cond_of_idx((op - 0x20) / 8), f) {
                12
            } else {
                8
            }
        } else if op % 16 == 1 {
            12
        } else if op == 0x34 || op == 0x35 || op == 0x36 {
            12
        } else if op % 16 == 9 || op % 16 == 2 || op % 16 == 0xA || op % 16 == 3 || op % 16 == 0xB
            || op % 8 == 6 {
            8
        } else {
            4
        }
    } else if op == 0x76 {
        4
    } else if op < 0xC0 {
        if op % 8 == 6 || (0x70 <= op && op < 0x78) {
            8
        } else {
            4
        }
    } else {
        if op % 8 == 0 && op < 0xE0 {
            if cond_holds(cond_of_idx((op - 0xC0) / 8), f) {
                20
            } else {
                8
            }
        } else if op == 0xE0 || op == 0xF0 {
            12
        } else if op == 0xE8 {
            16
        } else if op == 0xF8 {
            12
        } else if op % 16 == 1 {
            12
        } else if op == 0xC3 || op == 0xC9 || op == 0xD9 {
            16
        } else if op == 0xE9 {
            4
        } else if op == 0xF9 {
            8
        } else if op == 0xE2 || op == 0xF2 {
            8
        } else if op % 8 == 2 && op < 0xE0 {
            if cond_holds(cond_of_idx((op - 0xC0) / 8), f) {
                16
            } else {
                12
            }
        } else if op == 0xEA || op == 0xFA {
            16
        } else if op % 8 == 4 && op < 0xE0 {
            if cond_holds(cond_of_idx((op - 0xC0) / 8), f) {
                24
            } else {
                12
            }
        } else if op == 0xCD {
            24
        } else if op % 16 == 5 {
            16
        } else if op % 8 == 6 {
            8
        } else if op == 0xF3 || op == 0xFB {
            4
        } else if is_illegal_opcode(op) {
            4
        } else {
            16
        }
    }
}

/// Recognizes the eleven unused encodings.
pub fn is_illegal_opcode(op: u8) -> (b: bool)
    ensures
        b == spec_illegal(op),
{
    op == 0xD3 || op == 0xDB || op == 0xDD || op == 0xE3 || op == 0xE4 || op == 0xEB || op == 0xEC
        || op == 0xED || op == 0xF4 || op == 0xFC || op == 0xFD
}

/// The register selected by a three-bit operand field (index 6, the (HL)
/// slot, is handled by the callers before this map is consulted).
pub fn reg_of_idx(i: u8) -> (r: Reg8)
    ensures
        r == reg_of(i as int),
{
    if i == 0 {
        Reg8::B
    } else if i == 1 {
        Reg8::C
    } else if i == 2 {
        Reg8::D
    } else if i == 3 {
        Reg8::E
    } else if i == 4 {
        Reg8::H
    } else if i == 5 {
        Reg8::L
    } else {
        Reg8::A
    }
}

pub fn rr_of_idx(i: u8) -> (rr: Reg16)
    ensures
        rr == rr_of(i as int),
{
    if i == 0 {
        Reg16::BC
    } else if i == 1 {
        Reg16::DE
    } else if i == 2 {
        Reg16::HL
    } else {
        Reg16::SP
    }
}

pub fn pp_of_idx(i: u8) -> (pp: PushPair)
    ensures
        pp == pp_of(i as int),
{
    if i == 0 {
        PushPair::BC
    } else if i == 1 {
        PushPair::DE
    } else if i == 2 {
        PushPair::HL
    } else {
        PushPair::AF
    }
}

pub fn alu_of_idx(i: u8) -> (op: AluOp)
    ensures
        op == alu_of(i as int),
{
    if i == 0 {
        AluOp::Add
    } else if i == 1 {
        AluOp::Adc
    } else if i == 2 {
        AluOp::Sub
    } else if i == 3 {
        AluOp::Sbc
    } else if i == 4 {
        AluOp::And
    } else if i == 5 {
        AluOp::Xor
    } else if i == 6 {
        AluOp::Or
    } else {
        AluOp::Cp
    }
}

/// `base` displaced by the signed byte `off`, wrapping in the 16-bit range:
/// the target of a relative jump, and the sum of `ADD SP, r8`.
pub fn displace16(base: u16, off: u8) -> (t: u16)
    ensures
        t == wrap16(base + (off as i8)),
{
    proof {
        assert(off < 128 ==> off as i8 == off as int) by (bit_vector);
        assert(off >= 128 ==> off as i8 == off - 256) by (bit_vector);
    }
    if off < 128 {
        if base as u32 + off as u32 > 0xFFFF {
            (base as u32 + off as u32 - 0x10000) as u16
        } else {
            base + off as u16
        }
    } else {
        let mag: u16 = 256 - off as u16;
        if base >= mag {
            base - mag
        } else {
            (base as u32 + 0x10000 - mag as u32) as u16
        }
    }
}

impl LR35902 {
    pub fn get_pp(&self, pp: PushPair) -> (v: u16)
        ensures
            v == spec_pp(*self, pp),
    {
        match pp {
            PushPair::BC => self.b as u16 * 256 + self.c as u16,
            PushPair::DE => self.d as u16 * 256 + self.e as u16,
            PushPair::HL => self.h as u16 * 256 + self.l as u16,
            PushPair::AF => self.a as u16 * 256 + self.f as u16,
        }
    }

    pub fn set_pp(&mut self, pp: PushPair, v: u16)
        ensures
            *final(self) == spec_set_pp(*old(self), pp, v),
    {
        match pp {
            PushPair::BC => {
                self.b = (v / 256) as u8;
                self.c = (v % 256) as u8;
            },
            PushPair::DE => {
                self.d = (v / 256) as u8;
                self.e = (v % 256) as u8;
            },
            PushPair::HL => {
                self.h = (v / 256) as u8;
                self.l = (v % 256) as u8;
            },
            PushPair::AF => {
                self.a = (v / 256) as u8;
                self.f = (v % 256) as u8 / 16 * 16;
            },
        }
    }

    /// Advances PC by the instruction length, the cycle counters by its
    /// cost, and a pending interrupt enable to effective.
    fn step_base(&mut self)
        requires
            old(self).clocks.total + 24 <= usize::MAX,
            old(self).clocks.current + 24 <= usize::MAX,
        ensures
            *final(self) == spec_base(*old(self)),
    {
        let len = instr_len(self.opcode);
        let cost = instr_cost(self.opcode, self.bytes[1], self.f);
        self.pc = if self.pc as u32 + len as u32 > 0xFFFF {
            (self.pc as u32 + len as u32 - 0x10000) as u16
        } else {
            self.pc + len
        };
        self.clocks.add(cost);
        self.ime = match self.ime {
            ImeState::PendingEnable => ImeState::Enabled,
            x => x,
        };
    }

    /// Executes one instruction of the 0x00..0x40 region.
    fn ex_q0(&mut self, mmu: &mut MMU)
        requires
            exec_pre(*old(self), *old(mmu)),
            old(self).opcode < 0x40,
        ensures
            final(mmu).wf(),
            wf_flags(final(self).f),
            (*final(self), final(mmu)@) == spec_exec_state(*old(self), old(mmu)@),
    {
        if self.opcode % 8 <= 3 {
            self.ex_q0_low(mmu);
        } else {
            self.ex_q0_high(mmu);
        }
    }

    /// The 0x00..0x40 instructions whose opcode has a low operand column:
    /// the relative jumps, the 16-bit loads and arithmetic, and the loads
    /// through (BC), (DE) and (HL+-).
    fn ex_q0_low(&mut self, mmu: &mut MMU)
        requires
            exec_pre(*old(self), *old(mmu)),
            old(self).opcode < 0x40,
            old(self).opcode % 8 <= 3,
        ensures
            final(mmu).wf(),
            wf_flags(final(self).f),
            (*final(self), final(mmu)@) == spec_exec_state(*old(self), old(mmu)@),
    {
        if self.opcode % 8 == 0 {
            self.ex_q0_col0(mmu);
        } else {
            self.ex_q0_col123(mmu);
        }
    }

    /// NOP, STOP, LD (a16),SP and the relative jumps.
    fn ex_q0_col0(&mut self, mmu: &mut MMU)
        requires
            exec_pre(*old(self), *old(mmu)),
            old(self).opcode < 0x40,
            old(self).opcode % 8 == 0,
        ensures
            final(mmu).wf(),
            wf_flags(final(self).f),
            (*final(self), final(mmu)@) == spec_exec_state(*old(self), old(mmu)@),
    {
        if self.opcode == 0x00 || self.opcode == 0x10 || self.opcode == 0x08 {
            self.ex_q0_misc0(mmu);
        } else {
            self.ex_q0_jr(mmu);
        }
    }

    /// NOP, STOP (a two-byte NOP here) and LD (a16),SP.
    #[verifier::rlimit(100)]
    fn ex_q0_misc0(&mut self, mmu: &mut MMU)
        requires
            exec_pre(*old(self), *old(mmu)),
            old(self).opcode == 0x00 || old(self).opcode == 0x10 || old(self).opcode == 0x08,
        ensures
            final(mmu).wf(),
            wf_flags(final(self).f),
            (*final(self), final(mmu)@) == spec_exec_state(*old(self), old(mmu)@),
    {
        let op = self.opcode;
        let b1 = self.bytes[1];
        let d16: u16 = self.bytes[2] as u16 * 256 + b1 as u16;
        let sp0 = self.sp;
        self.step_base();
        if op == 0x00 || op == 0x10 {
            // NOP, and STOP treated as a two-byte NOP
        } else {
            // LD (a16),SP: SP little-endian at the immediate address
            mmu.write_byte(d16 as usize, (sp0 % 256) as u8);
            let second: usize = if d16 == 0xFFFF {
                0
            } else {
                d16 as usize + 1
            };
            mmu.write_byte(second, (sp0 / 256) as u8);
        }
    }

    /// JR r8 and JR cc,r8.
    #[verifier::rlimit(100)]
    fn ex_q0_jr(&mut self, mmu: &mut MMU)
        requires
            exec_pre(*old(self), *old(mmu)),
            old(self).opcode < 0x40,
            old(self).opcode % 8 == 0,
            old(self).opcode != 0x00,
            old(self).opcode != 0x10,
            old(self).opcode != 0x08,
        ensures
            final(mmu).wf(),
            wf_flags(final(self).f),
            (*final(self), final(mmu)@) == spec_exec_state(*old(self), old(mmu)@),
    {
        let op = self.opcode;
        let b1 = self.bytes[1];
        let f0 = self.f;
        self.step_base();
        if op == 0x18 {
            // JR r8
            self.pc = displace16(self.pc, b1);
        } else {
            // JR cc,r8
            let cc = cond_of_idx((op - 0x20) / 8);
            if cond_holds(cc, f0) {
                self.pc = displace16(self.pc, b1);
            }
        }
    }

    /// The 16-bit loads and arithmetic and the loads through (BC), (DE)
    /// and (HL+-).
    fn ex_q0_col123(&mut self, mmu: &mut MMU)
        requires
            exec_pre(*old(self), *old(mmu)),
            old(self).opcode < 0x40,
            1 <= old(self).opcode % 8 <= 3,
        ensures
            final(mmu).wf(),
            wf_flags(final(self).f),
            (*final(self), final(mmu)@) == spec_exec_state(*old(self), old(mmu)@),
    {
        if self.opcode % 8 == 1 {
            self.ex_q0_col1(mmu);
        } else if self.opcode % 8 == 2 {
            self.ex_q0_col2(mmu);
        } else {
            self.ex_q0_col3(mmu);
        }
    }

    /// LD rr,d16 and ADD HL,rr.
    #[verifier::rlimit(100)]
    fn ex_q0_col1(&mut self, mmu: &mut MMU)
        requires
            exec_pre(*old(self), *old(mmu)),
            old(self).opcode < 0x40,
            old(self).opcode % 8 == 1,
        ensures
            final(mmu).wf(),
            wf_flags(final(self).f),
            (*final(self), final(mmu)@) == spec_exec_state(*old(self), old(mmu)@),
    {
        let op = self.opcode;
        let b1 = self.bytes[1];
        let d16: u16 = self.bytes[2] as u16 * 256 + b1 as u16;
        let zflag = self.get_flag(Flag::Z);
        let hl0 = self.get_rr(Reg16::HL);
        self.step_base();
        if op % 16 == 1 {
            // LD rr,d16
            let rr = rr_of_idx(op / 16);
            self.set_rr(rr, d16);
        } else {
            // ADD HL,rr
            let v = self.get_rr(rr_of_idx(op / 16));
            let sum: u32 = hl0 as u32 + v as u32;
            let r: u16 = if sum > 0xFFFF {
                (sum - 0x10000) as u16
            } else {
                sum as u16
            };
            let half = hl0 % 4096 + v % 4096 > 4095;
            self.h = (r / 256) as u8;
            self.l = (r % 256) as u8;
            self.f = compose_flags(zflag, false, half, sum > 0xFFFF);
        }
    }

    /// The accumulator loads through (BC), (DE), (HL+) and (HL-).
    #[verifier::rlimit(100)]
    fn ex_q0_col2(&mut self, mmu: &mut MMU)
        requires
            exec_pre(*old(self), *old(mmu)),
            old(self).opcode < 0x40,
            old(self).opcode % 8 == 2,
        ensures
            final(mmu).wf(),
            wf_flags(final(self).f),
            (*final(self), final(mmu)@) == spec_exec_state(*old(self), old(mmu)@),
    {
        let op = self.opcode;
        let hl0 = self.get_rr(Reg16::HL);
        let a0 = self.a;
        self.step_base();
        if op == 0x02 {
            let at = self.get_rr(Reg16::BC);
            mmu.write_byte(at as usize, a0);
        } else if op == 0x12 {
            let at = self.get_rr(Reg16::DE);
            mmu.write_byte(at as usize, a0);
        } else if op == 0x22 || op == 0x32 {
            // LD (HL+),A / LD (HL-),A
            mmu.write_byte(hl0 as usize, a0);
            let nhl: u16 = if op == 0x22 {
                if hl0 == 0xFFFF {
                    0
                } else {
                    hl0 + 1
                }
            } else {
                if hl0 == 0 {
                    0xFFFF
                } else {
                    hl0 - 1
                }
            };
            self.h = (nhl / 256) as u8;
            self.l = (nhl % 256) as u8;
        } else if op == 0x0A {
            let at = self.get_rr(Reg16::BC);
            self.a = mmu.read_byte(at as usize);
        } else if op == 0x1A {
            let at = self.get_rr(Reg16::DE);
            self.a = mmu.read_byte(at as usize);
        } else if op == 0x2A || op == 0x3A {
            // LD A,(HL+) / LD A,(HL-)
            self.a = mmu.read_byte(hl0 as usize);
            let nhl: u16 = if op == 0x2A {
                if hl0 == 0xFFFF {
                    0
                } else {
                    hl0 + 1
                }
            } else {
                if hl0 == 0 {
                    0xFFFF
                } else {
                    hl0 - 1
                }
            };
            self.h = (nhl / 256) as u8;
            self.l = (nhl % 256) as u8;
        }
    }

    /// INC rr and DEC rr; no flags are touched.
    #[verifier::rlimit(100)]
    fn ex_q0_col3(&mut self, mmu: &mut MMU)
        requires
            exec_pre(*old(self), *old(mmu)),
            old(self).opcode < 0x40,
            old(self).opcode % 8 == 3,
        ensures
            final(mmu).wf(),
            wf_flags(final(self).f),
            (*final(self), final(mmu)@) == spec_exec_state(*old(self), old(mmu)@),
    {
        let op = self.opcode;
        self.step_base();
        if op % 16 == 3 {
            // INC rr
            let rr = rr_of_idx(op / 16);
            let v = self.get_rr(rr);
            self.set_rr(
                rr,
                if v == 0xFFFF {
                    0
                } else {
                    v + 1
                },
            );
        } else {
            // DEC rr
            let rr = rr_of_idx(op / 16);
            let v = self.get_rr(rr);
            self.set_rr(
                rr,
                if v == 0 {
                    0xFFFF
                } else {
                    v - 1
                },
            );
        }
    }

    /// The 0x00..0x40 instructions whose opcode has a high operand column:
    /// 8-bit INC and DEC, the 8-bit immediate loads, the accumulator
    /// rotates, DAA, CPL, SCF and CCF.
    fn ex_q0_high(&mut self, mmu: &mut MMU)
        requires
            exec_pre(*old(self), *old(mmu)),
            old(self).opcode < 0x40,
            old(self).opcode % 8 >= 4,
        ensures
            final(mmu).wf(),
            wf_flags(final(self).f),
            (*final(self), final(mmu)@) == spec_exec_state(*old(self), old(mmu)@),
    {
        if self.opcode % 8 <= 5 {
            self.ex_q0_incdec(mmu);
        } else {
            self.ex_q0_imm_rot(mmu);
        }
    }

    /// 8-bit INC and DEC, on a register or on the byte at (HL).
    fn ex_q0_incdec(&mut self, mmu: &mut MMU)
        requires
            exec_pre(*old(self), *old(mmu)),
            old(self).opcode < 0x40,
            4 <= old(self).opcode % 8 <= 5,
        ensures
            final(mmu).wf(),
            wf_flags(final(self).f),
            (*final(self), final(mmu)@) == spec_exec_state(*old(self), old(mmu)@),
    {
        if self.opcode % 8 == 4 {
            self.ex_q0_inc8(mmu);
        } else {
            self.ex_q0_dec8(mmu);
        }
    }

    /// 8-bit INC: H on a carry out of bit 3, Z from the result, N cleared,
    /// C untouched.
    #[verifier::rlimit(100)]
    fn ex_q0_inc8(&mut self, mmu: &mut MMU)
        requires
            exec_pre(*old(self), *old(mmu)),
            old(self).opcode < 0x40,
            old(self).opcode % 8 == 4,
        ensures
            final(mmu).wf(),
            wf_flags(final(self).f),
            (*final(self), final(mmu)@) == spec_exec_state(*old(self), old(mmu)@),
    {
        let op = self.opcode;
        let cflag = self.get_flag(Flag::C);
        let hl0 = self.get_rr(Reg16::HL);
        self.step_base();
        if op == 0x34 {
            // INC (HL)
            let v = mmu.read_byte(hl0 as usize);
            let res: u8 = if v == 255 {
                0
            } else {
                v + 1
            };
            self.f = compose_flags(res == 0, false, v % 16 == 15, cflag);
            mmu.write_byte(hl0 as usize, res);
        } else {
            // INC r
            let r = reg_of_idx(op / 8);
            let v = self.get_r8(r);
            let res: u8 = if v == 255 {
                0
            } else {
                v + 1
            };
            self.set_r8(r, res);
            self.f = compose_flags(res == 0, false, v % 16 == 15, cflag);
        }
    }

    /// 8-bit DEC: N set, H on a borrow from bit 4, Z from the result, C
    /// untouched.
    #[verifier::rlimit(100)]
    fn ex_q0_dec8(&mut self, mmu: &mut MMU)
        requires
            exec_pre(*old(self), *old(mmu)),
            old(self).opcode < 0x40,
            old(self).opcode % 8 == 5,
        ensures
            final(mmu).wf(),
            wf_flags(final(self).f),
            (*final(self), final(mmu)@) == spec_exec_state(*old(self), old(mmu)@),
    {
        let op = self.opcode;
        let cflag = self.get_flag(Flag::C);
        let hl0 = self.get_rr(Reg16::HL);
        self.step_base();
        if op == 0x35 {
            // DEC (HL)
            let v = mmu.read_byte(hl0 as usize);
            let res: u8 = if v == 0 {
                255
            } else {
                v - 1
            };
            self.f = compose_flags(res == 0, true, v % 16 == 0, cflag);
            mmu.write_byte(hl0 as usize, res);
        } else {
            // DEC r
            let r = reg_of_idx(op / 8);
            let v = self.get_r8(r);
            let res: u8 = if v == 0 {
                255
            } else {
                v - 1
            };
            self.set_r8(r, res);
            self.f = compose_flags(res == 0, true, v % 16 == 0, cflag);
        }
    }

    /// The 8-bit immediate loads, the accumulator rotates, DAA, CPL, SCF
    /// and CCF.
    fn ex_q0_imm_rot(&mut self, mmu: &mut MMU)
        requires
            exec_pre(*old(self), *old(mmu)),
            old(self).opcode < 0x40,
            old(self).opcode % 8 >= 6,
        ensures
            final(mmu).wf(),
            wf_flags(final(self).f),
            (*final(self), final(mmu)@) == spec_exec_state(*old(self), old(mmu)@),
    {
        if self.opcode % 8 == 6 {
            self.ex_q0_ld_d8(mmu);
        } else {
            self.ex_q0_rot(mmu);
        }
    }

    /// The 8-bit immediate loads.
    #[verifier::rlimit(100)]
    fn ex_q0_ld_d8(&mut self, mmu: &mut MMU)
        requires
            exec_pre(*old(self), *old(mmu)),
            old(self).opcode < 0x40,
            old(self).opcode % 8 == 6,
        ensures
            final(mmu).wf(),
            wf_flags(final(self).f),
            (*final(self), final(mmu)@) == spec_exec_state(*old(self), old(mmu)@),
    {
        let op = self.opcode;
        let b1 = self.bytes[1];
        let hl0 = self.get_rr(Reg16::HL);
        self.step_base();
        if op == 0x36 {
            // LD (HL),d8
            mmu.write_byte(hl0 as usize, b1);
        } else {
            // LD r,d8
            let r = reg_of_idx(op / 8);
            self.set_r8(r, b1);
        }
    }

    /// The accumulator rotates, DAA, CPL, SCF and CCF.
    fn ex_q0_rot(&mut self, mmu: &mut MMU)
        requires
            exec_pre(*old(self), *old(mmu)),
            old(self).opcode < 0x40,
            old(self).opcode % 8 == 7,
        ensures
            final(mmu).wf(),
            wf_flags(final(self).f),
            (*final(self), final(mmu)@) == spec_exec_state(*old(self), old(mmu)@),
    {
        if self.opcode < 0x20 {
            self.ex_q0_rot_a(mmu);
        } else {
            self.ex_q0_acc_misc(mmu);
        }
    }

    /// RLCA, RRCA, RLA and RRA: the Z flag is always cleared.
    #[verifier::rlimit(100)]
    fn ex_q0_rot_a(&mut self, mmu: &mut MMU)
        requires
            exec_pre(*old(self), *old(mmu)),
            old(self).opcode < 0x20,
            old(self).opcode % 8 == 7,
        ensures
            final(mmu).wf(),
            wf_flags(final(self).f),
            (*final(self), final(mmu)@) == spec_exec_state(*old(self), old(mmu)@),
    {
        let op = self.opcode;
        let cflag = self.get_flag(Flag::C);
        let a0 = self.a;
        self.step_base();
        if op == 0x07 {
            // RLCA
            self.a = a0 % 128 * 2 + a0 / 128;
            self.f = compose_flags(false, false, false, a0 / 128 % 2 == 1);
        } else if op == 0x0F {
            // RRCA
            self.a = a0 / 2 + a0 % 2 * 128;
            self.f = compose_flags(false, false, false, a0 % 2 == 1);
        } else if op == 0x17 {
            // RLA
            self.a = a0 % 128 * 2 + (if cflag {
                1
            } else {
                0
            });
            self.f = compose_flags(false, false, false, a0 / 128 % 2 == 1);
        } else {
            // RRA (0x1F)
            self.a = a0 / 2 + (if cflag {
                128
            } else {
                0
            });
            self.f = compose_flags(false, false, false, a0 % 2 == 1);
        }
    }

    /// DAA, CPL, SCF and CCF.
    fn ex_q0_acc_misc(&mut self, mmu: &mut MMU)
        requires
            exec_pre(*old(self), *old(mmu)),
            0x20 <= old(self).opcode < 0x40,
            old(self).opcode % 8 == 7,
        ensures
            final(mmu).wf(),
            wf_flags(final(self).f),
            (*final(self), final(mmu)@) == spec_exec_state(*old(self), old(mmu)@),
    {
        if self.opcode == 0x27 {
            self.ex_q0_daa(mmu);
        } else {
            self.ex_q0_flag_misc(mmu);
        }
    }

    /// DAA: the standard four-way BCD adjustment on the N and C flags.
    #[verifier::rlimit(100)]
    fn ex_q0_daa(&mut self, mmu: &mut MMU)
        requires
            exec_pre(*old(self), *old(mmu)),
            old(self).opcode == 0x27,
        ensures
            final(mmu).wf(),
            wf_flags(final(self).f),
            (*final(self), final(mmu)@) == spec_exec_state(*old(self), old(mmu)@),
    {
        let op = self.opcode;
        let cflag = self.get_flag(Flag::C);
        let zflag = self.get_flag(Flag::Z);
        let hflag = self.get_flag(Flag::H);
        let nflag = self.get_flag(Flag::N);
        let a0 = self.a;
        self.step_base();
        if op == 0x27 {
            // DAA
            if !nflag {
                let c1 = cflag || a0 > 0x99;
                let a1: u8 = if c1 {
                    if a0 >= 0xA0 {
                        a0 - 0xA0
                    } else {
                        a0 + 0x60
                    }
                } else {
                    a0
                };
                let a2: u8 = if hflag || a1 % 16 > 9 {
                    if a1 >= 0xFA {
                        a1 - 0xFA
                    } else {
                        a1 + 6
                    }
                } else {
                    a1
                };
                self.a = a2;
                self.f = compose_flags(a2 == 0, nflag, false, c1);
            } else {
                let a1: u8 = if cflag {
                    if a0 >= 0x60 {
                        a0 - 0x60
                    } else {
                        a0 + 0xA0
                    }
                } else {
                    a0
                };
                let a2: u8 = if hflag {
                    if a1 >= 6 {
                        a1 - 6
                    } else {
                        a1 + 0xFA
                    }
                } else {
                    a1
                };
                self.a = a2;
                self.f = compose_flags(a2 == 0, nflag, false, cflag);
            }
        }
    }

    /// CPL, SCF and CCF.
    #[verifier::rlimit(100)]
    fn ex_q0_flag_misc(&mut self, mmu: &mut MMU)
        requires
            exec_pre(*old(self), *old(mmu)),
            0x20 <= old(self).opcode < 0x40,
            old(self).opcode % 8 == 7,
            old(self).opcode != 0x27,
        ensures
            final(mmu).wf(),
            wf_flags(final(self).f),
            (*final(self), final(mmu)@) == spec_exec_state(*old(self), old(mmu)@),
    {
        let op = self.opcode;
        let cflag = self.get_flag(Flag::C);
        let zflag = self.get_flag(Flag::Z);
        let a0 = self.a;
        self.step_base();
        if op == 0x2F {
            // CPL
            self.a = 255 - a0;
            self.f = compose_flags(zflag, true, true, cflag);
        } else if op == 0x37 {
            // SCF
            self.f = compose_flags(zflag, false, false, true);
        } else {
            // CCF (0x3F)
            self.f = compose_flags(zflag, false, false, !cflag);
        }
    }

    /// Executes one instruction of the 0x40..0x80 region: the 8-bit loads
    /// and HALT.
    fn ex_q1(&mut self, mmu: &mut MMU)
        requires
            exec_pre(*old(self), *old(mmu)),
            0x40 <= old(self).opcode < 0x80,
        ensures
            final(mmu).wf(),
            wf_flags(final(self).f),
            (*final(self), final(mmu)@) == spec_exec_state(*old(self), old(mmu)@),
    {
        let op = self.opcode;
        if op == 0x76 {
            self.step_base();
            self.halted = true;
        } else {
            let src = op % 8;
            let dst = (op - 0x40) / 8;
            let hl0 = self.get_rr(Reg16::HL);
            let v: u8 = if src == 6 {
                mmu.read_byte(hl0 as usize)
            } else {
                self.get_r8(reg_of_idx(src))
            };
            self.step_base();
            if dst == 6 {
                mmu.write_byte(hl0 as usize, v);
            } else {
                self.set_r8(reg_of_idx(dst), v);
            }
        }
    }

    /// Executes one instruction of the 0x80..0xC0 region: the ALU block.
    fn ex_q2(&mut self, mmu: &mut MMU)
        requires
            exec_pre(*old(self), *old(mmu)),
            0x80 <= old(self).opcode < 0xC0,
        ensures
            final(mmu).wf(),
            wf_flags(final(self).f),
            (*final(self), final(mmu)@) == spec_exec_state(*old(self), old(mmu)@),
    {
        let op = self.opcode;
        let aluop = alu_of_idx((op - 0x80) / 8);
        let v: u8 = if op % 8 == 6 {
            let hl0 = self.get_rr(Reg16::HL);
            mmu.read_byte(hl0 as usize)
        } else {
            self.get_r8(reg_of_idx(op % 8))
        };
        self.step_base();
        self.alu_apply(aluop, v);
    }

    /// Executes one CB-prefixed instruction: rotates, shifts, SWAP, and the
    /// BIT, RES and SET bit operations.
    fn ex_cb(&mut self, mmu: &mut MMU)
        requires
            exec_pre(*old(self), *old(mmu)),
            old(self).opcode == 0xCB,
        ensures
            final(mmu).wf(),
            wf_flags(final(self).f),
            (*final(self), final(mmu)@) == spec_exec_state(*old(self), old(mmu)@),
    {
        if self.bytes[1] < 0x40 {
            self.ex_cb_rot(mmu);
        } else {
            self.ex_cb_bit(mmu);
        }
    }

    /// The CB-prefixed rotates, shifts and SWAP.
    #[verifier::rlimit(100)]
    fn ex_cb_rot(&mut self, mmu: &mut MMU)
        requires
            exec_pre(*old(self), *old(mmu)),
            old(self).opcode == 0xCB,
            old(self).bytes@[1] < 0x40,
        ensures
            final(mmu).wf(),
            wf_flags(final(self).f),
            (*final(self), final(mmu)@) == spec_exec_state(*old(self), old(mmu)@),
    {
        let b1 = self.bytes[1];
        let tgt = b1 % 8;
        let n = b1 / 8 % 8;
        let hl0 = self.get_rr(Reg16::HL);
        let cflag = self.get_flag(Flag::C);
        let v: u8 = if tgt == 6 {
            mmu.read_byte(hl0 as usize)
        } else {
            self.get_r8(reg_of_idx(tgt))
        };
        self.step_base();
        {
            let (res, carry): (u8, bool) = match n {
                0 => (v % 128 * 2 + v / 128, v / 128 % 2 == 1),
                1 => (v / 2 + v % 2 * 128, v % 2 == 1),
                2 => (
                    v % 128 * 2 + (if cflag {
                        1
                    } else {
                        0
                    }),
                    v / 128 % 2 == 1,
                ),
                3 => (
                    v / 2 + (if cflag {
                        128
                    } else {
                        0
                    }),
                    v % 2 == 1,
                ),
                4 => (v % 128 * 2, v / 128 % 2 == 1),
                5 => (v / 2 + v / 128 * 128, v % 2 == 1),
                6 => (v % 16 * 16 + v / 16, false),
                _ => (v / 2, v % 2 == 1),
            };
            self.f = compose_flags(res == 0, false, false, carry);
            if tgt == 6 {
                mmu.write_byte(hl0 as usize, res);
            } else {
                self.set_r8(reg_of_idx(tgt), res);
            }
        }
    }

    /// The CB-prefixed BIT, RES and SET operations.
    #[verifier::rlimit(100)]
    fn ex_cb_bit(&mut self, mmu: &mut MMU)
        requires
            exec_pre(*old(self), *old(mmu)),
            old(self).opcode == 0xCB,
            old(self).bytes@[1] >= 0x40,
        ensures
            final(mmu).wf(),
            wf_flags(final(self).f),
            (*final(self), final(mmu)@) == spec_exec_state(*old(self), old(mmu)@),
    {
        let b1 = self.bytes[1];
        let tgt = b1 % 8;
        let n = b1 / 8 % 8;
        let hl0 = self.get_rr(Reg16::HL);
        let cflag = self.get_flag(Flag::C);
        let v: u8 = if tgt == 6 {
            mmu.read_byte(hl0 as usize)
        } else {
            self.get_r8(reg_of_idx(tgt))
        };
        self.step_base();
        if b1 < 0x80 {
            // BIT n: Z is the complement of the tested bit, C is unchanged
            let bit = test_bit(v, n);
            self.f = compose_flags(!bit, false, true, cflag);
        } else if b1 < 0xC0 {
            // RES n: no flags
            let res = clear_bit(v, n);
            if tgt == 6 {
                mmu.write_byte(hl0 as usize, res);
            } else {
                self.set_r8(reg_of_idx(tgt), res);
            }
        } else {
            // SET n: no flags
            let res = put_bit(v, n);
            if tgt == 6 {
                mmu.write_byte(hl0 as usize, res);
            } else {
                self.set_r8(reg_of_idx(tgt), res);
            }
        }
    }

    /// Executes one instruction of the 0xC0..0x100 region other than the CB
    /// prefix: control transfer, the stack, the high-page loads, DI and EI.
    fn ex_q3(&mut self, mmu: &mut MMU)
        requires
            exec_pre(*old(self), *old(mmu)),
            0xC0 <= old(self).opcode,
            old(self).opcode != 0xCB,
            !spec_illegal(old(self).opcode),
        ensures
            final(mmu).wf(),
            wf_flags(final(self).f),
            (*final(self), final(mmu)@) == spec_exec_state(*old(self), old(mmu)@),
    {
        if self.opcode % 8 <= 3 {
            self.ex_q3_low(mmu);
        } else {
            self.ex_q3_high(mmu);
        }
    }

    /// The 0xC0.. instructions with a low operand column: returns, jumps,
    /// POP, the high-page and absolute accumulator loads, the stack-pointer
    /// arithmetic, DI and EI.
    fn ex_q3_low(&mut self, mmu: &mut MMU)
        requires
            exec_pre(*old(self), *old(mmu)),
            0xC0 <= old(self).opcode,
            old(self).opcode != 0xCB,
            !spec_illegal(old(self).opcode),
            old(self).opcode % 8 <= 3,
        ensures
            final(mmu).wf(),
            wf_flags(final(self).f),
            (*final(self), final(mmu)@) == spec_exec_state(*old(self), old(mmu)@),
    {
        if self.opcode % 8 == 0 {
            self.ex_q3_col0(mmu);
        } else if self.opcode % 8 == 1 {
            self.ex_q3_col1(mmu);
        } else {
            self.ex_q3_col23(mmu);
        }
    }

    /// Conditional returns, the high-page immediate loads and the
    /// stack-pointer arithmetic.
    fn ex_q3_col0(&mut self, mmu: &mut MMU)
        requires
            exec_pre(*old(self), *old(mmu)),
            0xC0 <= old(self).opcode,
            !spec_illegal(old(self).opcode),
            old(self).opcode % 8 == 0,
        ensures
            final(mmu).wf(),
            wf_flags(final(self).f),
            (*final(self), final(mmu)@) == spec_exec_state(*old(self), old(mmu)@),
    {
        if self.opcode < 0xE0 {
            self.ex_q3_ret_cc(mmu);
        } else if self.opcode == 0xE0 || self.opcode == 0xF0 {
            self.ex_q3_ldh_imm(mmu);
        } else {
            self.ex_q3_sp_e(mmu);
        }
    }

    /// RET cc.
    #[verifier::rlimit(100)]
    fn ex_q3_ret_cc(&mut self, mmu: &mut MMU)
        requires
            exec_pre(*old(self), *old(mmu)),
            0xC0 <= old(self).opcode < 0xE0,
            old(self).opcode % 8 == 0,
        ensures
            final(mmu).wf(),
            wf_flags(final(self).f),
            (*final(self), final(mmu)@) == spec_exec_state(*old(self), old(mmu)@),
    {
        let op = self.opcode;
        let f0 = self.f;
        self.step_base();
        let cc = cond_of_idx((op - 0xC0) / 8);
        if cond_holds(cc, f0) {
            let v = self.pop(mmu);
            self.pc = v;
        }
    }

    /// LDH (a8),A and LDH A,(a8).
    #[verifier::rlimit(100)]
    fn ex_q3_ldh_imm(&mut self, mmu: &mut MMU)
        requires
            exec_pre(*old(self), *old(mmu)),
            old(self).opcode == 0xE0 || old(self).opcode == 0xF0,
        ensures
            final(mmu).wf(),
            wf_flags(final(self).f),
            (*final(self), final(mmu)@) == spec_exec_state(*old(self), old(mmu)@),
    {
        let op = self.opcode;
        let b1 = self.bytes[1];
        let a0 = self.a;
        self.step_base();
        if op == 0xE0 {
            // LDH (a8),A
            mmu.write_byte(0xFF00 + b1 as usize, a0);
        } else {
            // LDH A,(a8)
            self.a = mmu.read_byte(0xFF00 + b1 as usize);
        }
    }

    /// ADD SP,r8 and LD HL,SP+r8: flags from the unsigned low-byte add.
    #[verifier::rlimit(100)]
    fn ex_q3_sp_e(&mut self, mmu: &mut MMU)
        requires
            exec_pre(*old(self), *old(mmu)),
            old(self).opcode == 0xE8 || old(self).opcode == 0xF8,
        ensures
            final(mmu).wf(),
            wf_flags(final(self).f),
            (*final(self), final(mmu)@) == spec_exec_state(*old(self), old(mmu)@),
    {
        let op = self.opcode;
        let b1 = self.bytes[1];
        let sp0 = self.sp;
        self.step_base();
        proof {
            assert((b1 as i8) as u8 == b1) by (bit_vector);
        }
        let r = displace16(sp0, b1);
        let half = sp0 % 16 + (b1 % 16) as u16 > 15;
        let carry = sp0 % 256 + b1 as u16 > 255;
        if op == 0xE8 {
            self.sp = r;
        } else {
            self.h = (r / 256) as u8;
            self.l = (r % 256) as u8;
        }
        self.f = compose_flags(false, false, half, carry);
    }

    /// POP, RET, RETI, JP (HL) and LD SP,HL.
    fn ex_q3_col1(&mut self, mmu: &mut MMU)
        requires
            exec_pre(*old(self), *old(mmu)),
            0xC0 <= old(self).opcode,
            !spec_illegal(old(self).opcode),
            old(self).opcode % 8 == 1,
        ensures
            final(mmu).wf(),
            wf_flags(final(self).f),
            (*final(self), final(mmu)@) == spec_exec_state(*old(self), old(mmu)@),
    {
        if self.opcode % 16 == 1 {
            self.ex_q3_pop(mmu);
        } else {
            self.ex_q3_ret_jp(mmu);
        }
    }

    /// POP rr.
    #[verifier::rlimit(100)]
    fn ex_q3_pop(&mut self, mmu: &mut MMU)
        requires
            exec_pre(*old(self), *old(mmu)),
            0xC0 <= old(self).opcode,
            old(self).opcode % 16 == 1,
        ensures
            final(mmu).wf(),
            wf_flags(final(self).f),
            (*final(self), final(mmu)@) == spec_exec_state(*old(self), old(mmu)@),
    {
        let op = self.opcode;
        self.step_base();
        let pp = pp_of_idx((op - 0xC1) / 16);
        let v = self.pop(mmu);
        self.set_pp(pp, v);
    }

    /// RET, RETI, JP (HL) and LD SP,HL.
    #[verifier::rlimit(100)]
    fn ex_q3_ret_jp(&mut self, mmu: &mut MMU)
        requires
            exec_pre(*old(self), *old(mmu)),
            0xC0 <= old(self).opcode,
            !spec_illegal(old(self).opcode),
            old(self).opcode % 16 == 9,
        ensures
            final(mmu).wf(),
            wf_flags(final(self).f),
            (*final(self), final(mmu)@) == spec_exec_state(*old(self), old(mmu)@),
    {
        let op = self.opcode;
        let hl0 = self.get_rr(Reg16::HL);
        self.step_base();
        if op == 0xC9 || op == 0xD9 {
            // RET / RETI
            let v = self.pop(mmu);
            self.pc = v;
            if op == 0xD9 {
                self.ime = ImeState::Enabled;
            }
        } else if op == 0xE9 {
            self.pc = hl0;
        } else {
            // LD SP,HL (0xF9)
            self.sp = hl0;
        }
    }

    /// JP, conditional JP, the (C)- and a16-addressed accumulator loads,
    /// DI and EI.
    fn ex_q3_col23(&mut self, mmu: &mut MMU)
        requires
            exec_pre(*old(self), *old(mmu)),
            0xC0 <= old(self).opcode,
            old(self).opcode != 0xCB,
            !spec_illegal(old(self).opcode),
            2 <= old(self).opcode % 8 <= 3,
        ensures
            final(mmu).wf(),
            wf_flags(final(self).f),
            (*final(self), final(mmu)@) == spec_exec_state(*old(self), old(mmu)@),
    {
        if self.opcode % 8 == 2 {
            self.ex_q3_col2(mmu);
        } else {
            self.ex_q3_col3(mmu);
        }
    }

    /// Conditional JP and the (C)- and a16-addressed accumulator loads.
    #[verifier::rlimit(100)]
    fn ex_q3_col2(&mut self, mmu: &mut MMU)
        requires
            exec_pre(*old(self), *old(mmu)),
            0xC0 <= old(self).opcode,
            old(self).opcode % 8 == 2,
        ensures
            final(mmu).wf(),
            wf_flags(final(self).f),
            (*final(self), final(mmu)@) == spec_exec_state(*old(self), old(mmu)@),
    {
        let op = self.opcode;
        let d16: u16 = self.bytes[2] as u16 * 256 + self.bytes[1] as u16;
        let a0 = self.a;
        let c0 = self.c;
        let f0 = self.f;
        self.step_base();
        if op < 0xE0 {
            // JP cc,a16
            let cc = cond_of_idx((op - 0xC0) / 8);
            if cond_holds(cc, f0) {
                self.pc = d16;
            }
        } else if op == 0xE2 {
            // LD (C),A
            mmu.write_byte(0xFF00 + c0 as usize, a0);
        } else if op == 0xF2 {
            // LD A,(C)
            self.a = mmu.read_byte(0xFF00 + c0 as usize);
        } else if op == 0xEA {
            mmu.write_byte(d16 as usize, a0);
        } else {
            // LD A,(a16) (0xFA)
            self.a = mmu.read_byte(d16 as usize);
        }
    }

    /// JP a16, DI and EI.
    #[verifier::rlimit(100)]
    fn ex_q3_col3(&mut self, mmu: &mut MMU)
        requires
            exec_pre(*old(self), *old(mmu)),
            0xC0 <= old(self).opcode,
            old(self).opcode != 0xCB,
            !spec_illegal(old(self).opcode),
            old(self).opcode % 8 == 3,
        ensures
            final(mmu).wf(),
            wf_flags(final(self).f),
            (*final(self), final(mmu)@) == spec_exec_state(*old(self), old(mmu)@),
    {
        let op = self.opcode;
        let d16: u16 = self.bytes[2] as u16 * 256 + self.bytes[1] as u16;
        self.step_base();
        if op == 0xC3 {
            self.pc = d16;
        } else if op == 0xF3 {
            self.ime = ImeState::Disabled;
        } else {
            // EI (0xFB)
            self.ime = ImeState::PendingEnable;
        }
    }

    /// The 0xC0.. instructions with a high operand column: calls, PUSH,
    /// the immediate ALU operations and RST.
    fn ex_q3_high(&mut self, mmu: &mut MMU)
        requires
            exec_pre(*old(self), *old(mmu)),
            0xC0 <= old(self).opcode,
            !spec_illegal(old(self).opcode),
            old(self).opcode % 8 >= 4,
        ensures
            final(mmu).wf(),
            wf_flags(final(self).f),
            (*final(self), final(mmu)@) == spec_exec_state(*old(self), old(mmu)@),
    {
        if self.opcode % 8 <= 5 {
            self.ex_q3_call_push(mmu);
        } else {
            self.ex_q3_alu_rst(mmu);
        }
    }

    /// CALL, conditional CALL and PUSH.
    fn ex_q3_call_push(&mut self, mmu: &mut MMU)
        requires
            exec_pre(*old(self), *old(mmu)),
            0xC0 <= old(self).opcode,
            !spec_illegal(old(self).opcode),
            4 <= old(self).opcode % 8 <= 5,
        ensures
            final(mmu).wf(),
            wf_flags(final(self).f),
            (*final(self), final(mmu)@) == spec_exec_state(*old(self), old(mmu)@),
    {
        if self.opcode % 8 == 4 {
            self.ex_q3_call_cc(mmu);
        } else {
            self.ex_q3_cd_push(mmu);
        }
    }

    /// CALL cc,a16: pushes the address of the next instruction when taken.
    #[verifier::rlimit(100)]
    fn ex_q3_call_cc(&mut self, mmu: &mut MMU)
        requires
            exec_pre(*old(self), *old(mmu)),
            0xC0 <= old(self).opcode,
            !spec_illegal(old(self).opcode),
            old(self).opcode % 8 == 4,
        ensures
            final(mmu).wf(),
            wf_flags(final(self).f),
            (*final(self), final(mmu)@) == spec_exec_state(*old(self), old(mmu)@),
    {
        let op = self.opcode;
        let d16: u16 = self.bytes[2] as u16 * 256 + self.bytes[1] as u16;
        let f0 = self.f;
        proof {
            assert(op == 0xC4 || op == 0xCC || op == 0xD4 || op == 0xDC);
            assert(spec_decode(op, old(self).bytes@[1], old(self).bytes@[2])
                == Instruction::CallCc(cond_of(((op - 0xC0) / 8) as int), d16));
        }
        self.step_base();
        let cc = cond_of_idx((op - 0xC0) / 8);
        if cond_holds(cc, f0) {
            let ret = self.pc;
            self.push(mmu, ret);
            self.pc = d16;
        }
    }

    /// CALL a16 and PUSH.
    #[verifier::rlimit(100)]
    fn ex_q3_cd_push(&mut self, mmu: &mut MMU)
        requires
            exec_pre(*old(self), *old(mmu)),
            0xC0 <= old(self).opcode,
            !spec_illegal(old(self).opcode),
            old(self).opcode % 8 == 5,
        ensures
            final(mmu).wf(),
            wf_flags(final(self).f),
            (*final(self), final(mmu)@) == spec_exec_state(*old(self), old(mmu)@),
    {
        let op = self.opcode;
        let d16: u16 = self.bytes[2] as u16 * 256 + self.bytes[1] as u16;
        self.step_base();
        if op == 0xCD {
            // CALL a16
            let ret = self.pc;
            self.push(mmu, ret);
            self.pc = d16;
        } else {
            // PUSH rr
            let pp = pp_of_idx((op - 0xC5) / 16);
            let v = self.get_pp(pp);
            self.push(mmu, v);
        }
    }

    /// The immediate ALU operations and RST.
    fn ex_q3_alu_rst(&mut self, mmu: &mut MMU)
        requires
            exec_pre(*old(self), *old(mmu)),
            0xC0 <= old(self).opcode,
            !spec_illegal(old(self).opcode),
            old(self).opcode % 8 >= 6,
        ensures
            final(mmu).wf(),
            wf_flags(final(self).f),
            (*final(self), final(mmu)@) == spec_exec_state(*old(self), old(mmu)@),
    {
        if self.opcode % 8 == 6 {
            self.ex_q3_alu_d8(mmu);
        } else {
            self.ex_q3_rst(mmu);
        }
    }

    /// The immediate ALU operations.
    #[verifier::rlimit(100)]
    fn ex_q3_alu_d8(&mut self, mmu: &mut MMU)
        requires
            exec_pre(*old(self), *old(mmu)),
            0xC0 <= old(self).opcode,
            old(self).opcode % 8 == 6,
        ensures
            final(mmu).wf(),
            wf_flags(final(self).f),
            (*final(self), final(mmu)@) == spec_exec_state(*old(self), old(mmu)@),
    {
        let op = self.opcode;
        let b1 = self.bytes[1];
        self.step_base();
        let aluop = alu_of_idx((op - 0xC0) / 8);
        self.alu_apply(aluop, b1);
    }

    /// RST: push the next address, jump to the fixed vector.
    #[verifier::rlimit(100)]
    fn ex_q3_rst(&mut self, mmu: &mut MMU)
        requires
            exec_pre(*old(self), *old(mmu)),
            0xC0 <= old(self).opcode,
            old(self).opcode % 8 == 7,
        ensures
            final(mmu).wf(),
            wf_flags(final(self).f),
            (*final(self), final(mmu)@) == spec_exec_state(*old(self), old(mmu)@),
    {
        let op = self.opcode;
        self.step_base();
        proof {
            assert(op == 0xC7 || op == 0xCF || op == 0xD7 || op == 0xDF || op == 0xE7 || op == 0xEF
                || op == 0xF7 || op == 0xFF);
        }
        let ret = self.pc;
        self.push(mmu, ret);
        self.pc = (op - 0xC7) as u16;
    }

    /// Executes the pending instruction: the observable effects are exactly
    /// those of `spec_exec_state`, or an `IllegalOpcode` error, with the
    /// machine unchanged, when the pending opcode is one of the eleven
    /// unused encodings. The flag byte keeps its low nibble zero, and PC
    /// stays within the 16-bit range.
    pub fn execute(&mut self, mmu: &mut MMU) -> (r: Result<(), EmuError>)
        requires
            exec_pre(*old(self), *old(mmu)),
        ensures
            final(mmu).wf(),
            wf_flags(final(self).f),
            final(self).pc < 0x10000,
            (match r {
                Ok(()) => !spec_illegal(old(self).opcode) && (*final(self), final(mmu)@)
                    == spec_exec_state(*old(self), old(mmu)@),
                Err(e) => spec_illegal(old(self).opcode) && *final(self) == *old(self)
                    && final(mmu)@ == old(mmu)@ && e == (EmuError::IllegalOpcode {
                    opcode: old(self).opcode,
                    pc: old(self).pc,
                }),
            }),
    {
        let op = self.opcode;
        if is_illegal_opcode(op) {
            return Err(EmuError::IllegalOpcode { opcode: op, pc: self.pc });
        }
        if op == 0xCB {
            self.ex_cb(mmu);
        } else if op < 0x40 {
            self.ex_q0(mmu);
        } else if op < 0x80 {
            self.ex_q1(mmu);
        } else if op < 0xC0 {
            self.ex_q2(mmu);
        } else {
            self.ex_q3(mmu);
        }
        Ok(())
    }

    /// Reads the four bytes at PC, decodes the opcode and computes the
    /// timing of the now-pending instruction.
    fn prefetch(&mut self, mmu: &MMU)
        requires
            mmu.wf(),
        ensures
            *final(self) == spec_prefetch(*old(self), mmu@),
    {
        let bytes = mmu.read_ahead(self.pc as usize);
        self.bytes = bytes;
        self.opcode = bytes[0];
        self.pending_clocks = instr_cost(bytes[0], bytes[1], self.f);
        proof {
            let pre = *old(self);
            let mem = mmu@;
            assert(bytes@ =~= (spec_prefetch(pre, mem).bytes)@);
            assert(bytes == spec_prefetch(pre, mem).bytes);
        }
    }

    /// Primes the first-instruction prefetch by reading four bytes at PC.
    pub fn init(&mut self, mmu: &mut MMU)
        requires
            old(mmu).wf(),
        ensures
            final(mmu).wf(),
            final(mmu)@ == old(mmu)@,
            *final(self) == spec_prefetch(*old(self), old(mmu)@),
    {
        self.prefetch(mmu);
    }

    /// Advances the CPU by `clocks` machine cycles of credit. A halted CPU
    /// does nothing. Otherwise the credit accumulates; once the pending
    /// instruction's cost is paid, that instruction executes (exactly as
    /// `spec_exec_state` says) and the next one is prefetched and decoded
    /// to compute its timing. The flag byte keeps its low nibble zero and
    /// PC stays within the 16-bit range.
    pub fn step(&mut self, mmu: &mut MMU, clocks: u8) -> (r: Result<(), EmuError>)
        requires
            exec_pre(*old(self), *old(mmu)),
            old(self).credit + clocks <= 255,
        ensures
            final(mmu).wf(),
            wf_flags(final(self).f),
            final(self).pc < 0x10000,
            old(self).halted ==> *final(self) == *old(self) && final(mmu)@ == old(mmu)@ && r
                == Ok::<(), EmuError>(()),
            !old(self).halted && old(self).credit + clocks < old(self).pending_clocks
                ==> *final(self) == (LR35902 {
                credit: (old(self).credit + clocks) as u8,
                ..*old(self)
            }) && final(mmu)@ == old(mmu)@ && r == Ok::<(), EmuError>(()),
            !old(self).halted && old(self).credit + clocks >= old(self).pending_clocks ==> ({
                let paid = LR35902 {
                    credit: (old(self).credit + clocks - old(self).pending_clocks) as u8,
                    ..*old(self)
                };
                if spec_illegal(old(self).opcode) {
                    r == Err::<(), EmuError>(
                        EmuError::IllegalOpcode { opcode: old(self).opcode, pc: old(self).pc },
                    ) && *final(self) == paid && final(mmu)@ == old(mmu)@
                } else {
                    let (cpu1, mem1) = spec_exec_state(paid, old(mmu)@);
                    r == Ok::<(), EmuError>(()) && *final(self) == spec_prefetch(cpu1, mem1)
                        && final(mmu)@ == mem1
                }
            }),
    {
        if self.halted {
            return Ok(());
        }
        self.credit = self.credit + clocks;
        if self.credit >= self.pending_clocks {
            self.credit = self.credit - self.pending_clocks;
            match self.execute(mmu) {
                Ok(()) => {},
                Err(e) => {
                    return Err(e);
                },
            }
            self.prefetch(mmu);
        }
        Ok(())
    }
}

/// The machine after the four bytes at PC are fetched: they become the
/// pending bytes, their first byte the pending opcode, and its cost the
/// pending cycle debt.
pub open spec fn spec_prefetch(cpu: LR35902, mem: Seq<u8>) -> LR35902 {
    let b0 = mem[cpu.pc as int];
    let b1 = mem[wrap16(cpu.pc + 1) as int];
    let b2 = mem[wrap16(cpu.pc + 2) as int];
    let b3 = mem[wrap16(cpu.pc + 3) as int];
    LR35902 {
        bytes: [b0, b1, b2, b3],
        opcode: b0,
        pending_clocks: spec_cost(b0, b1, cpu.f),
        ..cpu
    }
}

/// Stack symmetry: a push followed by a pop, with no stack operation in
/// between, reads back the pushed word, and the stack pointer returns to
/// its prior value.
pub proof fn lemma_stack_symmetry(sp: u16, v: u16, mem: Seq<u8>)
    requires
        mem.len() == MEMORY_SIZE,
    ensures
        spec_pop_val(wrap16(sp - 2), spec_push_mem(sp, v, mem)) == v,
        wrap16(wrap16(sp - 2) + 2) == sp,
{
    let a = wrap16(sp - 2);
    let mem1 = spec_push_mem(sp, v, mem);
    assert(mem1[a as int] == lo8(v));
    assert(mem1[wrap16(a + 1) as int] == hi8(v));
    assert(hi8(v) * 256 + lo8(v) == v) by {
        assert(v / 256 * 256 + v % 256 == v);
    }
}

/// INC/DEC parity: decrementing an incremented byte, or incrementing a
/// decremented one, restores it. The half-carry of INC is set exactly on a
/// low nibble of 15, that of DEC exactly on a low nibble of 0; both facts
/// are the `ensures` of the INC and DEC arms of `spec_exec_state`.
pub proof fn lemma_inc_dec_parity(v: u8)
    ensures
        spec_dec8(spec_inc8(v)) == v,
        spec_inc8(spec_dec8(v)) == v,
{
}

/// Each flag reads back from an assembled flag byte.
pub proof fn lemma_flags_byte_props(z: bool, n: bool, h: bool, c: bool)
    ensures
        flag_z(flags_byte(z, n, h, c)) == z,
        flag_n(flags_byte(z, n, h, c)) == n,
        flag_h(flags_byte(z, n, h, c)) == h,
        flag_c(flags_byte(z, n, h, c)) == c,
        wf_flags(flags_byte(z, n, h, c)),
{
}

/// The flag effects of 8-bit INC and DEC sit exactly on the documented
/// boundaries: INC raises the half-carry precisely when the low nibble was
/// 15, DEC precisely when it was 0; Z comes precisely from a zero result,
/// N tells the two apart, and C is untouched by both.
#[verifier::rlimit(100)]
pub proof fn lemma_inc_dec_flag_boundaries(pre: LR35902, mem: Seq<u8>, r: Reg8)
    ensures
        spec_decode(pre.opcode, pre.bytes@[1], pre.bytes@[2]) == Instruction::IncR(r) ==> ({
            let v = spec_r8(pre, r);
            let f2 = spec_exec_state(pre, mem).0.f;
            &&& flag_h(f2) <==> v % 16 == 15
            &&& flag_z(f2) <==> spec_inc8(v) == 0
            &&& !flag_n(f2)
            &&& flag_c(f2) == flag_c(pre.f)
        }),
        spec_decode(pre.opcode, pre.bytes@[1], pre.bytes@[2]) == Instruction::DecR(r) ==> ({
            let v = spec_r8(pre, r);
            let f2 = spec_exec_state(pre, mem).0.f;
            &&& flag_h(f2) <==> v % 16 == 0
            &&& flag_z(f2) <==> spec_dec8(v) == 0
            &&& flag_n(f2)
            &&& flag_c(f2) == flag_c(pre.f)
        }),
{
    let v = spec_r8(pre, r);
    lemma_flags_byte_props(spec_inc8(v) == 0, false, v % 16 == 15, flag_c(pre.f));
    lemma_flags_byte_props(spec_dec8(v) == 0, true, v % 16 == 0, flag_c(pre.f));
}

/// Little-endian round trip: a word written at `a` reads back unchanged
/// from `a`, for every address with room for both bytes.
pub proof fn lemma_word_round_trip(a: int, w: u16, mem: Seq<u8>)
    requires
        mem.len() == MEMORY_SIZE,
        0 <= a,
        a + 1 < MEMORY_SIZE,
    ensures
        ({
            let mem1 = mem.update(a, lo8(w)).update(a + 1, hi8(w));
            mem1[a] + mem1[a + 1] * 256 == w
        }),
{
    assert(w / 256 * 256 + w % 256 == w);
}

/// Load transparency: an 8-bit register load leaves its source unchanged,
/// and afterwards the destination holds the source's value.
pub proof fn lemma_load_transparency(pre: LR35902, mem: Seq<u8>, d: Reg8, s: Reg8)
    requires
        spec_decode(pre.opcode, pre.bytes@[1], pre.bytes@[2]) == Instruction::LdRR(d, s),
    ensures
        spec_r8(spec_exec_state(pre, mem).0, s) == spec_r8(pre, s),
        spec_r8(spec_exec_state(pre, mem).0, d) == spec_r8(pre, s),
{
}

} // verus!
