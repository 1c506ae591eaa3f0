//! The register file: six 16-bit cells. AF, BC, DE and HL each split into a
//! high and a low byte; the halves are views of the pair, not storage of
//! their own. The low byte of AF is the flags register.

use vstd::prelude::*;
use vstd::std_specs::convert::FromSpecImpl;
use crate::vm::alu::{
    add16_value, add8, add_flags, add_value, dec_flags, dec_value, inc_flags, inc_value,
    logic_flags, sub16_value, sub8, sub_flags, sub_value,
};
use crate::vm::flags::{
    carry_flag, flag_bits, half_carry_flag, lemma_flag_masks, subtract_flag, zero_flag, Flags,
    F_CARRY, F_HALF_CARRY, F_SUBTRACTION, F_ZERO,
};
use crate::vm::op::{Op, R16Stk, R16mem, R16, R8};
use crate::word::{high, high_byte, join, low, low_byte, with_high, with_low};

verus! {

/// A 16-bit register that an instruction can name.
#[derive(Clone, Copy, Debug, PartialEq, Eq, Structural)]
pub enum Register16 {
    AF,
    BC,
    DE,
    HL,
    SP,
}

/// An 8-bit register.
#[derive(Clone, Copy, Debug, PartialEq, Eq, Structural)]
pub enum Register8 {
    A,
    B,
    C,
    D,
    E,
    H,
    L,
}

impl R16 {
    /// The register that the selector names.
    pub open spec fn spec_pair(self) -> Register16 {
        match self {
            R16::BC => Register16::BC,
            R16::DE => Register16::DE,
            R16::HL => Register16::HL,
            R16::SP => Register16::SP,
        }
    }
}

impl From<R16> for Register16 {
    /// The register that the selector names.
    fn from(value: R16) -> (reg: Register16) {
        match value {
            R16::BC => Register16::BC,
            R16::DE => Register16::DE,
            R16::HL => Register16::HL,
            R16::SP => Register16::SP,
        }
    }
}

impl FromSpecImpl<R16> for Register16 {
    open spec fn obeys_from_spec() -> bool {
        true
    }

    open spec fn from_spec(value: R16) -> Register16 {
        value.spec_pair()
    }
}

impl R16mem {
    /// The register that holds the address of an access through the selector.
    pub open spec fn spec_pair(self) -> Register16 {
        match self {
            R16mem::BC => Register16::BC,
            R16mem::DE => Register16::DE,
            R16mem::HLInc => Register16::HL,
            R16mem::HLDec => Register16::HL,
        }
    }
}

impl From<R16mem> for Register16 {
    /// The register that holds the address of an access through the
    /// selector.
    fn from(value: R16mem) -> (reg: Register16) {
        match value {
            R16mem::BC => Register16::BC,
            R16mem::DE => Register16::DE,
            R16mem::HLInc => Register16::HL,
            R16mem::HLDec => Register16::HL,
        }
    }
}

impl FromSpecImpl<R16mem> for Register16 {
    open spec fn obeys_from_spec() -> bool {
        true
    }

    open spec fn from_spec(value: R16mem) -> Register16 {
        value.spec_pair()
    }
}

impl R16Stk {
    /// The register that the selector names.
    pub open spec fn spec_pair(self) -> Register16 {
        match self {
            R16Stk::BC => Register16::BC,
            R16Stk::DE => Register16::DE,
            R16Stk::HL => Register16::HL,
            R16Stk::AF => Register16::AF,
        }
    }
}

impl From<R16Stk> for Register16 {
    /// The register that the selector names.
    fn from(value: R16Stk) -> (reg: Register16) {
        match value {
            R16Stk::BC => Register16::BC,
            R16Stk::DE => Register16::DE,
            R16Stk::HL => Register16::HL,
            R16Stk::AF => Register16::AF,
        }
    }
}

impl FromSpecImpl<R16Stk> for Register16 {
    open spec fn obeys_from_spec() -> bool {
        true
    }

    open spec fn from_spec(value: R16Stk) -> Register16 {
        value.spec_pair()
    }
}

impl R8 {
    /// The register that the operand names, or `None` for the byte at HL.
    pub open spec fn spec_register(self) -> Option<Register8> {
        match self {
            R8::A => Some(Register8::A),
            R8::B => Some(Register8::B),
            R8::C => Some(Register8::C),
            R8::D => Some(Register8::D),
            R8::E => Some(Register8::E),
            R8::H => Some(Register8::H),
            R8::L => Some(Register8::L),
            R8::HLref => None,
        }
    }

    /// The register that the operand names, or `None` for the byte at HL.
    #[verifier::when_used_as_spec(spec_register)]
    pub fn register(self) -> (reg: Option<Register8>)
        ensures
            reg == self.spec_register(),
    {
        match self {
            R8::A => Some(Register8::A),
            R8::B => Some(Register8::B),
            R8::C => Some(Register8::C),
            R8::D => Some(Register8::D),
            R8::E => Some(Register8::E),
            R8::H => Some(Register8::H),
            R8::L => Some(Register8::L),
            R8::HLref => None,
        }
    }
}

/// The register file.
#[derive(Clone, Copy, Debug, PartialEq, Eq, Structural)]
pub struct Registers {
    /// The accumulator (high byte) and the flags (low byte).
    pub af: u16,
    pub bc: u16,
    pub de: u16,
    pub hl: u16,
    /// The stack pointer.
    pub sp: u16,
    /// The program counter.
    pub pc: u16,
}

impl Default for Registers {
    /// The register file at power-on: every register zero.
    fn default() -> (regs: Registers)
        ensures
            regs == (Registers { af: 0, bc: 0, de: 0, hl: 0, sp: 0, pc: 0 }),
    {
        Registers { af: 0, bc: 0, de: 0, hl: 0, sp: 0, pc: 0 }
    }
}

impl Registers {
    /// The invariant of the register file: the low nibble of the flags
    /// register is zero. Every operation of this library keeps it.
    pub open spec fn wf(&self) -> bool {
        self.af % 16 == 0
    }

    /// The accumulator: the high byte of AF.
    pub open spec fn spec_a(&self) -> u8 {
        high(self.af)
    }

    /// The flags register: the low byte of AF.
    pub open spec fn spec_f(&self) -> u8 {
        low(self.af)
    }

    /// B: the high byte of BC.
    pub open spec fn spec_b(&self) -> u8 {
        high(self.bc)
    }

    /// C: the low byte of BC.
    pub open spec fn spec_c(&self) -> u8 {
        low(self.bc)
    }

    /// D: the high byte of DE.
    pub open spec fn spec_d(&self) -> u8 {
        high(self.de)
    }

    /// E: the low byte of DE.
    pub open spec fn spec_e(&self) -> u8 {
        low(self.de)
    }

    /// H: the high byte of HL.
    pub open spec fn spec_h(&self) -> u8 {
        high(self.hl)
    }

    /// L: the low byte of HL.
    pub open spec fn spec_l(&self) -> u8 {
        low(self.hl)
    }

    /// The value of the 8-bit register `reg`.
    pub open spec fn spec_r8(&self, reg: Register8) -> u8 {
        match reg {
            Register8::A => self.spec_a(),
            Register8::B => self.spec_b(),
            Register8::C => self.spec_c(),
            Register8::D => self.spec_d(),
            Register8::E => self.spec_e(),
            Register8::H => self.spec_h(),
            Register8::L => self.spec_l(),
        }
    }

    /// The value of the 16-bit register `reg`.
    pub open spec fn spec_r16(&self, reg: Register16) -> u16 {
        match reg {
            Register16::AF => self.af,
            Register16::BC => self.bc,
            Register16::DE => self.de,
            Register16::HL => self.hl,
            Register16::SP => self.sp,
        }
    }

    /// The register file with the accumulator replaced by `value`; the
    /// flags stay.
    pub open spec fn with_a(self, value: u8) -> Registers {
        Registers { af: join(value, low(self.af)), ..self }
    }

    /// The register file with the flags replaced by the high nibble of
    /// `value`; the low nibble of the flags register is zero.
    pub open spec fn with_f(self, value: u8) -> Registers {
        Registers { af: join(high(self.af), flag_bits(value)), ..self }
    }

    /// The register file with B replaced by `value`; C stays.
    pub open spec fn with_b(self, value: u8) -> Registers {
        Registers { bc: join(value, low(self.bc)), ..self }
    }

    /// The register file with C replaced by `value`; B stays.
    pub open spec fn with_c(self, value: u8) -> Registers {
        Registers { bc: join(high(self.bc), value), ..self }
    }

    /// The register file with D replaced by `value`; E stays.
    pub open spec fn with_d(self, value: u8) -> Registers {
        Registers { de: join(value, low(self.de)), ..self }
    }

    /// The register file with E replaced by `value`; D stays.
    pub open spec fn with_e(self, value: u8) -> Registers {
        Registers { de: join(high(self.de), value), ..self }
    }

    /// The register file with H replaced by `value`; L stays.
    pub open spec fn with_h(self, value: u8) -> Registers {
        Registers { hl: join(value, low(self.hl)), ..self }
    }

    /// The register file with L replaced by `value`; H stays.
    pub open spec fn with_l(self, value: u8) -> Registers {
        Registers { hl: join(high(self.hl), value), ..self }
    }

    /// The register file with the 8-bit register `reg` replaced by `value`.
    pub open spec fn with_r8(self, reg: Register8, value: u8) -> Registers {
        match reg {
            Register8::A => self.with_a(value),
            Register8::B => self.with_b(value),
            Register8::C => self.with_c(value),
            Register8::D => self.with_d(value),
            Register8::E => self.with_e(value),
            Register8::H => self.with_h(value),
            Register8::L => self.with_l(value),
        }
    }

    /// The register file with the program counter replaced by `pc`.
    pub open spec fn with_pc(self, pc: u16) -> Registers {
        Registers { pc, ..self }
    }

    /// The register file with the pair `reg` replaced by `value`.
    pub open spec fn with_r16(self, reg: R16, value: u16) -> Registers {
        match reg {
            R16::BC => Registers { bc: value, ..self },
            R16::DE => Registers { de: value, ..self },
            R16::HL => Registers { hl: value, ..self },
            R16::SP => Registers { sp: value, ..self },
        }
    }

    /// The register file after `value` was added to the 8-bit register
    /// `reg`: the register holds the sum modulo 256 and the flags are those
    /// of the addition.
    pub open spec fn after_add(self, reg: Register8, value: u8) -> Registers {
        self.with_r8(reg, add_value(self.spec_r8(reg), value, false)).with_f(
            add_flags(self.spec_r8(reg), value, false),
        )
    }

    /// The register file after `value` was subtracted from the 8-bit
    /// register `reg`: the register holds the difference modulo 256 and the
    /// flags are those of the subtraction.
    pub open spec fn after_sub(self, reg: Register8, value: u8) -> Registers {
        self.with_r8(reg, sub_value(self.spec_r8(reg), value, false)).with_f(
            sub_flags(self.spec_r8(reg), value, false),
        )
    }

    /// The register file after the 8-bit register `reg` was incremented:
    /// Zero, Subtract and Half-Carry are set by the result, Carry stays.
    pub open spec fn after_inc(self, reg: Register8) -> Registers {
        self.with_r8(reg, inc_value(self.spec_r8(reg))).with_f(
            inc_flags(self.spec_r8(reg), self.spec_f()),
        )
    }

    /// The register file after the 8-bit register `reg` was decremented:
    /// Zero, Subtract and Half-Carry are set by the result, Carry stays.
    pub open spec fn after_dec(self, reg: Register8) -> Registers {
        self.with_r8(reg, dec_value(self.spec_r8(reg))).with_f(
            dec_flags(self.spec_r8(reg), self.spec_f()),
        )
    }

    /// The register file after the arithmetic or logic instruction `op`
    /// combined the accumulator with `value`. A comparison sets the flags
    /// of a subtraction and leaves the accumulator. The logic instructions
    /// clear Subtract, Half-Carry and Carry.
    pub open spec fn after_alu(self, op: Op, value: u8) -> Registers {
        let a = self.spec_a();
        let carry = carry_flag(self.spec_f());
        match op {
            Op::AddAR8 { .. } | Op::AddAImm8 => self.with_a(add_value(a, value, false)).with_f(
                add_flags(a, value, false),
            ),
            Op::AdcAR8 { .. } | Op::AdcAImm8 => self.with_a(add_value(a, value, carry)).with_f(
                add_flags(a, value, carry),
            ),
            Op::SubAR8 { .. } | Op::SubAImm8 => self.with_a(sub_value(a, value, false)).with_f(
                sub_flags(a, value, false),
            ),
            Op::SbcAR8 { .. } | Op::SbcAImm8 => self.with_a(sub_value(a, value, carry)).with_f(
                sub_flags(a, value, carry),
            ),
            Op::AndAR8 { .. } | Op::AndAImm8 => self.with_a(a & value).with_f(
                logic_flags(a & value),
            ),
            Op::XorAR8 { .. } | Op::XorAImm8 => self.with_a(a ^ value).with_f(
                logic_flags(a ^ value),
            ),
            Op::OrAR8 { .. } | Op::OrAImm8 => self.with_a(a | value).with_f(
                logic_flags(a | value),
            ),
            Op::CpAR8 { .. } | Op::CpAImm8 => self.with_f(sub_flags(a, value, false)),
            _ => self,
        }
    }

    /// The accumulator: the high byte of AF.
    #[verifier::when_used_as_spec(spec_a)]
    pub fn a(&self) -> (value: u8)
        ensures
            value == self.spec_a(),
    {
        high_byte(self.af)
    }

    /// The flags register: the low byte of AF.
    #[verifier::when_used_as_spec(spec_f)]
    pub fn f(&self) -> (value: u8)
        ensures
            value == self.spec_f(),
    {
        low_byte(self.af)
    }

    /// B: the high byte of BC.
    #[verifier::when_used_as_spec(spec_b)]
    pub fn b(&self) -> (value: u8)
        ensures
            value == self.spec_b(),
    {
        high_byte(self.bc)
    }

    /// C: the low byte of BC.
    #[verifier::when_used_as_spec(spec_c)]
    pub fn c(&self) -> (value: u8)
        ensures
            value == self.spec_c(),
    {
        low_byte(self.bc)
    }

    /// D: the high byte of DE.
    #[verifier::when_used_as_spec(spec_d)]
    pub fn d(&self) -> (value: u8)
        ensures
            value == self.spec_d(),
    {
        high_byte(self.de)
    }

    /// E: the low byte of DE.
    #[verifier::when_used_as_spec(spec_e)]
    pub fn e(&self) -> (value: u8)
        ensures
            value == self.spec_e(),
    {
        low_byte(self.de)
    }

    /// H: the high byte of HL.
    #[verifier::when_used_as_spec(spec_h)]
    pub fn h(&self) -> (value: u8)
        ensures
            value == self.spec_h(),
    {
        high_byte(self.hl)
    }

    /// L: the low byte of HL.
    #[verifier::when_used_as_spec(spec_l)]
    pub fn l(&self) -> (value: u8)
        ensures
            value == self.spec_l(),
    {
        low_byte(self.hl)
    }

    /// The value of the 8-bit register `reg`.
    #[verifier::when_used_as_spec(spec_r8)]
    pub fn r8(&self, reg: Register8) -> (value: u8)
        ensures
            value == self.spec_r8(reg),
    {
        match reg {
            Register8::A => self.a(),
            Register8::B => self.b(),
            Register8::C => self.c(),
            Register8::D => self.d(),
            Register8::E => self.e(),
            Register8::H => self.h(),
            Register8::L => self.l(),
        }
    }

    /// The value of the 16-bit register `reg`.
    #[verifier::when_used_as_spec(spec_r16)]
    pub fn r16(&self, reg: Register16) -> (value: u16)
        ensures
            value == self.spec_r16(reg),
    {
        match reg {
            Register16::AF => self.af,
            Register16::BC => self.bc,
            Register16::DE => self.de,
            Register16::HL => self.hl,
            Register16::SP => self.sp,
        }
    }

    /// Replaces the pair `reg` by `val`.
    pub fn set_r16(&mut self, reg: R16, val: u16)
        ensures
            *final(self) == old(self).with_r16(reg, val),
            final(self).wf() == old(self).wf(),
    {
        match reg {
            R16::BC => self.bc = val,
            R16::DE => self.de = val,
            R16::HL => self.hl = val,
            R16::SP => self.sp = val,
        }
    }

    /// Adds `amt` to BC, modulo 65536. No flag changes.
    pub fn add_bc(&mut self, amt: u16)
        ensures
            *final(self) == (Registers { bc: add16_value(old(self).bc, amt), ..*old(self) }),
            final(self).wf() == old(self).wf(),
    {
        self.bc = self.bc.wrapping_add(amt);
    }

    /// Subtracts `amt` from BC, modulo 65536. No flag changes.
    pub fn sub_bc(&mut self, amt: u16)
        ensures
            *final(self) == (Registers { bc: sub16_value(old(self).bc, amt), ..*old(self) }),
            final(self).wf() == old(self).wf(),
    {
        self.bc = self.bc.wrapping_sub(amt);
    }

    /// Adds one to BC, modulo 65536. No flag changes.
    pub fn inc_bc(&mut self)
        ensures
            *final(self) == (Registers { bc: add16_value(old(self).bc, 1), ..*old(self) }),
            final(self).wf() == old(self).wf(),
    {
        self.add_bc(1);
    }

    /// Subtracts one from BC, modulo 65536. No flag changes.
    pub fn dec_bc(&mut self)
        ensures
            *final(self) == (Registers { bc: sub16_value(old(self).bc, 1), ..*old(self) }),
            final(self).wf() == old(self).wf(),
    {
        self.sub_bc(1);
    }

    /// Adds `amt` to DE, modulo 65536. No flag changes.
    pub fn add_de(&mut self, amt: u16)
        ensures
            *final(self) == (Registers { de: add16_value(old(self).de, amt), ..*old(self) }),
            final(self).wf() == old(self).wf(),
    {
        self.de = self.de.wrapping_add(amt);
    }

    /// Subtracts `amt` from DE, modulo 65536. No flag changes.
    pub fn sub_de(&mut self, amt: u16)
        ensures
            *final(self) == (Registers { de: sub16_value(old(self).de, amt), ..*old(self) }),
            final(self).wf() == old(self).wf(),
    {
        self.de = self.de.wrapping_sub(amt);
    }

    /// Adds `amt` to HL, modulo 65536. No flag changes.
    pub fn add_hl(&mut self, amt: u16)
        ensures
            *final(self) == (Registers { hl: add16_value(old(self).hl, amt), ..*old(self) }),
            final(self).wf() == old(self).wf(),
    {
        self.hl = self.hl.wrapping_add(amt);
    }

    /// Subtracts `amt` from HL, modulo 65536. No flag changes.
    pub fn sub_hl(&mut self, amt: u16)
        ensures
            *final(self) == (Registers { hl: sub16_value(old(self).hl, amt), ..*old(self) }),
            final(self).wf() == old(self).wf(),
    {
        self.hl = self.hl.wrapping_sub(amt);
    }

    /// Adds `amt` to SP, modulo 65536. No flag changes.
    pub fn add_sp(&mut self, amt: u16)
        ensures
            *final(self) == (Registers { sp: add16_value(old(self).sp, amt), ..*old(self) }),
            final(self).wf() == old(self).wf(),
    {
        self.sp = self.sp.wrapping_add(amt);
    }

    /// Subtracts `amt` from SP, modulo 65536. No flag changes.
    pub fn sub_sp(&mut self, amt: u16)
        ensures
            *final(self) == (Registers { sp: sub16_value(old(self).sp, amt), ..*old(self) }),
            final(self).wf() == old(self).wf(),
    {
        self.sp = self.sp.wrapping_sub(amt);
    }

    /// Replaces the accumulator and leaves the flags as they are.
    pub fn set_a(&mut self, value: u8)
        ensures
            *final(self) == old(self).with_a(value),
            final(self).wf() == old(self).wf(),
    {
        self.af = with_high(self.af, value);
    }

    /// Replaces B and leaves C as it is.
    pub fn set_b(&mut self, value: u8)
        ensures
            *final(self) == old(self).with_b(value),
            final(self).wf() == old(self).wf(),
    {
        self.bc = with_high(self.bc, value);
    }

    /// Replaces C and leaves B as it is.
    pub fn set_c(&mut self, value: u8)
        ensures
            *final(self) == old(self).with_c(value),
            final(self).wf() == old(self).wf(),
    {
        self.bc = with_low(self.bc, value);
    }

    /// Replaces D and leaves E as it is.
    pub fn set_d(&mut self, value: u8)
        ensures
            *final(self) == old(self).with_d(value),
            final(self).wf() == old(self).wf(),
    {
        self.de = with_high(self.de, value);
    }

    /// Replaces E and leaves D as it is.
    pub fn set_e(&mut self, value: u8)
        ensures
            *final(self) == old(self).with_e(value),
            final(self).wf() == old(self).wf(),
    {
        self.de = with_low(self.de, value);
    }

    /// Replaces H and leaves L as it is.
    pub fn set_h(&mut self, value: u8)
        ensures
            *final(self) == old(self).with_h(value),
            final(self).wf() == old(self).wf(),
    {
        self.hl = with_high(self.hl, value);
    }

    /// Replaces L and leaves H as it is.
    pub fn set_l(&mut self, value: u8)
        ensures
            *final(self) == old(self).with_l(value),
            final(self).wf() == old(self).wf(),
    {
        self.hl = with_low(self.hl, value);
    }

    /// Replaces the flags by the high nibble of `value` and leaves the
    /// accumulator as it is. The low nibble of `value` is dropped: those
    /// bits of the flags register are never set.
    pub fn set_f(&mut self, value: u8)
        ensures
            *final(self) == old(self).with_f(value),
            final(self).wf(),
    {
        proof {
            lemma_flag_masks(value);
        }
        self.af = with_low(self.af, value & 0xF0);
    }

    /// Replaces the 8-bit register `reg` by `value`.
    pub fn set_r8(&mut self, reg: Register8, value: u8)
        ensures
            *final(self) == old(self).with_r8(reg, value),
            final(self).wf() == old(self).wf(),
    {
        match reg {
            Register8::A => self.set_a(value),
            Register8::B => self.set_b(value),
            Register8::C => self.set_c(value),
            Register8::D => self.set_d(value),
            Register8::E => self.set_e(value),
            Register8::H => self.set_h(value),
            Register8::L => self.set_l(value),
        }
    }

    /// Adds `value` to the accumulator, modulo 256, and sets the flags by
    /// the addition.
    pub fn add_a(&mut self, value: u8)
        ensures
            *final(self) == old(self).after_add(Register8::A, value),
            final(self).wf(),
    {
        let (sum, flags) = add8(self.a(), value, false);
        self.set_a(sum);
        self.set_f(flags);
    }

    /// Adds `value` to B, modulo 256, and sets the flags by the addition.
    pub fn add_b(&mut self, value: u8)
        ensures
            *final(self) == old(self).after_add(Register8::B, value),
            final(self).wf(),
    {
        let (sum, flags) = add8(self.b(), value, false);
        self.set_b(sum);
        self.set_f(flags);
    }

    /// Adds `value` to C, modulo 256, and sets the flags by the addition.
    pub fn add_c(&mut self, value: u8)
        ensures
            *final(self) == old(self).after_add(Register8::C, value),
            final(self).wf(),
    {
        let (sum, flags) = add8(self.c(), value, false);
        self.set_c(sum);
        self.set_f(flags);
    }

    /// Adds `value` to D, modulo 256, and sets the flags by the addition.
    pub fn add_d(&mut self, value: u8)
        ensures
            *final(self) == old(self).after_add(Register8::D, value),
            final(self).wf(),
    {
        let (sum, flags) = add8(self.d(), value, false);
        self.set_d(sum);
        self.set_f(flags);
    }

    /// Adds `value` to E, modulo 256, and sets the flags by the addition.
    pub fn add_e(&mut self, value: u8)
        ensures
            *final(self) == old(self).after_add(Register8::E, value),
            final(self).wf(),
    {
        let (sum, flags) = add8(self.e(), value, false);
        self.set_e(sum);
        self.set_f(flags);
    }

    /// Adds `value` to H, modulo 256, and sets the flags by the addition.
    pub fn add_h(&mut self, value: u8)
        ensures
            *final(self) == old(self).after_add(Register8::H, value),
            final(self).wf(),
    {
        let (sum, flags) = add8(self.h(), value, false);
        self.set_h(sum);
        self.set_f(flags);
    }

    /// Adds `value` to L, modulo 256, and sets the flags by the addition.
    pub fn add_l(&mut self, value: u8)
        ensures
            *final(self) == old(self).after_add(Register8::L, value),
            final(self).wf(),
    {
        let (sum, flags) = add8(self.l(), value, false);
        self.set_l(sum);
        self.set_f(flags);
    }

    /// Subtracts `value` from the accumulator, modulo 256, and sets the
    /// flags by the subtraction.
    pub fn sub_a(&mut self, value: u8)
        ensures
            *final(self) == old(self).after_sub(Register8::A, value),
            final(self).wf(),
    {
        let (diff, flags) = sub8(self.a(), value, false);
        self.set_a(diff);
        self.set_f(flags);
    }

    /// Subtracts `value` from B, modulo 256, and sets the flags by the
    /// subtraction.
    pub fn sub_b(&mut self, value: u8)
        ensures
            *final(self) == old(self).after_sub(Register8::B, value),
            final(self).wf(),
    {
        let (diff, flags) = sub8(self.b(), value, false);
        self.set_b(diff);
        self.set_f(flags);
    }

    /// Subtracts `value` from C, modulo 256, and sets the flags by the
    /// subtraction.
    pub fn sub_c(&mut self, value: u8)
        ensures
            *final(self) == old(self).after_sub(Register8::C, value),
            final(self).wf(),
    {
        let (diff, flags) = sub8(self.c(), value, false);
        self.set_c(diff);
        self.set_f(flags);
    }

    /// Subtracts `value` from D, modulo 256, and sets the flags by the
    /// subtraction.
    pub fn sub_d(&mut self, value: u8)
        ensures
            *final(self) == old(self).after_sub(Register8::D, value),
            final(self).wf(),
    {
        let (diff, flags) = sub8(self.d(), value, false);
        self.set_d(diff);
        self.set_f(flags);
    }

    /// Subtracts `value` from E, modulo 256, and sets the flags by the
    /// subtraction.
    pub fn sub_e(&mut self, value: u8)
        ensures
            *final(self) == old(self).after_sub(Register8::E, value),
            final(self).wf(),
    {
        let (diff, flags) = sub8(self.e(), value, false);
        self.set_e(diff);
        self.set_f(flags);
    }

    /// Subtracts `value` from H, modulo 256, and sets the flags by the
    /// subtraction.
    pub fn sub_h(&mut self, value: u8)
        ensures
            *final(self) == old(self).after_sub(Register8::H, value),
            final(self).wf(),
    {
        let (diff, flags) = sub8(self.h(), value, false);
        self.set_h(diff);
        self.set_f(flags);
    }

    /// Subtracts `value` from L, modulo 256, and sets the flags by the
    /// subtraction.
    pub fn sub_l(&mut self, value: u8)
        ensures
            *final(self) == old(self).after_sub(Register8::L, value),
            final(self).wf(),
    {
        let (diff, flags) = sub8(self.l(), value, false);
        self.set_l(diff);
        self.set_f(flags);
    }

    /// Whether any flag that the mask `flag` selects is set. For the four
    /// flag masks this is the flag itself.
    pub fn flag_val(&self, flag: Flags) -> (set: bool)
        ensures
            set == (self.spec_f() & flag != 0),
            flag == F_ZERO ==> set == zero_flag(self.spec_f()),
            flag == F_SUBTRACTION ==> set == subtract_flag(self.spec_f()),
            flag == F_HALF_CARRY ==> set == half_carry_flag(self.spec_f()),
            flag == F_CARRY ==> set == carry_flag(self.spec_f()),
    {
        proof {
            lemma_flag_masks(self.spec_f());
        }
        self.f() & flag != 0
    }
}

/// Writing the flags twice leaves what was written last, and the flags
/// read back are the high nibble of what was written.
pub proof fn lemma_flags_overwrite(regs: Registers, first: u8, second: u8)
    ensures
        regs.with_f(first).with_f(second) == regs.with_f(second),
        regs.with_f(first).spec_f() == flag_bits(first),
        regs.with_f(first).wf(),
{
}

/// Writing an 8-bit register does not touch the flags, and writing the
/// flags touches no 8-bit register.
pub proof fn lemma_flags_apart(regs: Registers, reg: Register8, value: u8, flags: u8)
    ensures
        regs.with_r8(reg, value).spec_f() == regs.spec_f(),
        regs.with_r8(reg, value).wf() == regs.wf(),
        regs.with_r8(reg, value).with_f(flags).spec_f() == flag_bits(flags),
        regs.with_f(flags).spec_r8(reg) == regs.spec_r8(reg),
        regs.with_r8(reg, value).spec_r8(reg) == value,
{
}

} // verus!
