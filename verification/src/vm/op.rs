//! Instructions and the operand selectors that their encodings carry.

use vstd::prelude::*;
use vstd::std_specs::convert::FromSpecImpl;
use crate::vm::flags::{carry_flag, zero_flag, Flags};

verus! {

/// An 8-bit operand, as a three-bit field of an opcode names it. `HLref` is
/// not a register: it stands for the memory byte that HL points at.
#[derive(Debug, Clone, Copy, PartialEq, Eq, Structural)]
pub enum R8 {
    B,
    C,
    D,
    E,
    H,
    L,
    HLref,
    A,
}

/// A 16-bit register pair, as a two-bit field of an opcode names it.
#[derive(Debug, Clone, Copy, PartialEq, Eq, Structural)]
pub enum R16 {
    BC,
    DE,
    HL,
    SP,
}

/// The register pair of a push or a pop.
#[derive(Debug, Clone, Copy, PartialEq, Eq, Structural)]
pub enum R16Stk {
    BC,
    DE,
    HL,
    AF,
}

/// The register pair that holds the address of an indirect load or store.
/// With `HLInc` and `HLDec` the access uses HL as it stands, and HL is
/// stepped afterwards.
#[derive(Debug, Clone, Copy, PartialEq, Eq, Structural)]
pub enum R16mem {
    BC,
    DE,
    HLInc,
    HLDec,
}

/// The condition of a conditional jump, call or return.
#[derive(Debug, Clone, Copy, PartialEq, Eq, Structural)]
pub enum Cond {
    NZ,
    Z,
    NC,
    C,
}

/// One decoded instruction with the operand selectors it needs.
#[derive(Debug, Clone, Copy, PartialEq, Eq, Structural)]
#[allow(inconsistent_fields)]
pub enum Op {
    Nop,
    LdR16Imm16 { dst: R16 },
    LdR16memA { dst: R16mem },
    LdAR16mem { src: R16mem },
    LdImm16Sp,
    IncR16 { op: R16 },
    DecR16 { op: R16 },
    AddHlR16 { op: R16 },
    IncR8 { op: R8 },
    DecR8 { op: R8 },
    LdR8Imm8 { dst: R8 },
    Rlca,
    Rrca,
    Rla,
    Rra,
    Daa,
    Cpl,
    Scf,
    Ccf,
    JrImm8,
    JrCondImm8 { cond: Cond },
    Stop,
    LdR8R8 { dst: R8, src: R8 },
    Halt,
    AddAR8 { op: R8 },
    AdcAR8 { op: R8 },
    SubAR8 { op: R8 },
    SbcAR8 { op: R8 },
    AndAR8 { op: R8 },
    XorAR8 { op: R8 },
    OrAR8 { op: R8 },
    CpAR8 { op: R8 },
    AddAImm8,
    AdcAImm8,
    SubAImm8,
    SbcAImm8,
    AndAImm8,
    XorAImm8,
    OrAImm8,
    CpAImm8,
    RetCond { cond: Cond },
    Ret,
    Reti,
    JpCondImm16 { cond: Cond },
    JpImm16,
    JpHl,
    CallCondImm16 { cond: Cond },
    CallImm16,
    /// Call to the fixed address `8 * tgt`; `tgt` is below 8.
    RstTgt3 { tgt: u8 },
    PopR16stk { reg: R16Stk },
    PushR16stk { reg: R16Stk },
    /// The byte 0xCB: the instruction is the one that the next byte names
    /// in the extended table.
    CBPrefix,
    CBRlcR8 { op: R8 },
    CBRrcR8 { op: R8 },
    CBRlR8 { op: R8 },
    CBRrR8 { op: R8 },
    CBSlaR8 { op: R8 },
    CBSraR8 { op: R8 },
    CBSwapR8 { op: R8 },
    CBSrlR8 { op: R8 },
    /// Test of bit `bi` (below 8) of the operand.
    CBBitB3R8 { bi: u8, op: R8 },
    CBResB3R8 { bi: u8, op: R8 },
    CBSetB3R8 { bi: u8, op: R8 },
    LdhCrefA,
    LdhImm8refA,
    LdImm16refA,
    LdhACref,
    LdhAImm8ref,
    LdAImm16ref,
    AddSpImm8,
    LdHlSpImm8,
    LdSpHl,
    Di,
    Ei,
    /// A byte that encodes no instruction.
    Invalid,
}

/// The families of instructions, by what they work on.
#[derive(Debug, Clone, Copy, PartialEq, Eq, Structural)]
pub enum Family {
    /// Copies between registers, the immediate operand and memory.
    Load,
    /// Arithmetic and logic on the accumulator and an 8-bit operand.
    AluR8,
    /// Arithmetic and logic on the accumulator and the immediate byte.
    AluImm8,
    /// Increments, decrements and 16-bit additions.
    Step,
    /// What works on the accumulator or the flags alone.
    Accumulator,
    /// Jumps, calls and returns.
    Jump,
    /// Pushes and pops.
    Stack,
    /// The instructions of the extended table.
    Extended,
    /// What changes the run state or the interrupt switch, or nothing.
    Control,
    /// Nothing to execute: the bare prefix or an undefined opcode.
    Undefined,
}

/// The low three bits and the low two bits of a byte, as remainders.
proof fn lemma_low_bits(value: u8)
    by (bit_vector)
    ensures
        value & 7 == value % 8,
        value & 3 == value % 4,
{
}

impl R8 {
    /// The operand that a three-bit field holding `bits` names. Only the low
    /// three bits of `bits` count.
    pub open spec fn of_bits(bits: u8) -> R8 {
        match bits % 8 {
            0 => R8::B,
            1 => R8::C,
            2 => R8::D,
            3 => R8::E,
            4 => R8::H,
            5 => R8::L,
            6 => R8::HLref,
            _ => R8::A,
        }
    }
}

impl From<u8> for R8 {
    /// The operand that the low three bits of `value` name.
    fn from(value: u8) -> (r: R8) {
        proof {
            lemma_low_bits(value);
        }
        match value & 7 {
            0 => R8::B,
            1 => R8::C,
            2 => R8::D,
            3 => R8::E,
            4 => R8::H,
            5 => R8::L,
            6 => R8::HLref,
            _ => R8::A,
        }
    }
}

impl FromSpecImpl<u8> for R8 {
    open spec fn obeys_from_spec() -> bool {
        true
    }

    open spec fn from_spec(value: u8) -> R8 {
        R8::of_bits(value)
    }
}

impl R16 {
    /// The register pair that a two-bit field holding `bits` names. Only the
    /// low two bits of `bits` count.
    pub open spec fn of_bits(bits: u8) -> R16 {
        match bits % 4 {
            0 => R16::BC,
            1 => R16::DE,
            2 => R16::HL,
            _ => R16::SP,
        }
    }
}

impl From<u8> for R16 {
    /// The register pair that the low two bits of `value` name.
    fn from(value: u8) -> (r: R16) {
        proof {
            lemma_low_bits(value);
        }
        match value & 3 {
            0 => R16::BC,
            1 => R16::DE,
            2 => R16::HL,
            _ => R16::SP,
        }
    }
}

impl FromSpecImpl<u8> for R16 {
    open spec fn obeys_from_spec() -> bool {
        true
    }

    open spec fn from_spec(value: u8) -> R16 {
        R16::of_bits(value)
    }
}

impl R16Stk {
    /// The register pair that a two-bit field holding `bits` names in a push
    /// or a pop. Only the low two bits of `bits` count.
    pub open spec fn of_bits(bits: u8) -> R16Stk {
        match bits % 4 {
            0 => R16Stk::BC,
            1 => R16Stk::DE,
            2 => R16Stk::HL,
            _ => R16Stk::AF,
        }
    }
}

impl From<u8> for R16Stk {
    /// The register pair that the low two bits of `value` name in a push or a
    /// pop.
    fn from(value: u8) -> (r: R16Stk) {
        proof {
            lemma_low_bits(value);
        }
        match value & 3 {
            0 => R16Stk::BC,
            1 => R16Stk::DE,
            2 => R16Stk::HL,
            _ => R16Stk::AF,
        }
    }
}

impl FromSpecImpl<u8> for R16Stk {
    open spec fn obeys_from_spec() -> bool {
        true
    }

    open spec fn from_spec(value: u8) -> R16Stk {
        R16Stk::of_bits(value)
    }
}

impl R16mem {
    /// The address register that a two-bit field holding `bits` names. Only
    /// the low two bits of `bits` count.
    pub open spec fn of_bits(bits: u8) -> R16mem {
        match bits % 4 {
            0 => R16mem::BC,
            1 => R16mem::DE,
            2 => R16mem::HLInc,
            _ => R16mem::HLDec,
        }
    }
}

impl From<u8> for R16mem {
    /// The address register that the low two bits of `value` name.
    fn from(value: u8) -> (r: R16mem) {
        proof {
            lemma_low_bits(value);
        }
        match value & 3 {
            0 => R16mem::BC,
            1 => R16mem::DE,
            2 => R16mem::HLInc,
            _ => R16mem::HLDec,
        }
    }
}

impl FromSpecImpl<u8> for R16mem {
    open spec fn obeys_from_spec() -> bool {
        true
    }

    open spec fn from_spec(value: u8) -> R16mem {
        R16mem::of_bits(value)
    }
}

impl Cond {
    /// The condition that a two-bit field holding `bits` names. Only the low
    /// two bits of `bits` count.
    pub open spec fn of_bits(bits: u8) -> Cond {
        match bits % 4 {
            0 => Cond::NZ,
            1 => Cond::Z,
            2 => Cond::NC,
            _ => Cond::C,
        }
    }
}

impl From<u8> for Cond {
    /// The condition that the low two bits of `value` name.
    fn from(value: u8) -> (r: Cond) {
        proof {
            lemma_low_bits(value);
        }
        match value & 3 {
            0 => Cond::NZ,
            1 => Cond::Z,
            2 => Cond::NC,
            _ => Cond::C,
        }
    }
}

impl FromSpecImpl<u8> for Cond {
    open spec fn obeys_from_spec() -> bool {
        true
    }

    open spec fn from_spec(value: u8) -> Cond {
        Cond::of_bits(value)
    }
}

impl Cond {
    /// Whether the condition holds of the flags byte `flags`.
    pub open spec fn holds(self, flags: Flags) -> bool {
        match self {
            Cond::NZ => !zero_flag(flags),
            Cond::Z => zero_flag(flags),
            Cond::NC => !carry_flag(flags),
            Cond::C => carry_flag(flags),
        }
    }
}

impl Op {
    /// The family of the instruction.
    pub open spec fn spec_family(self) -> Family {
        match self {
            Op::LdR16Imm16 { .. }
            | Op::LdR16memA { .. }
            | Op::LdAR16mem { .. }
            | Op::LdImm16Sp
            | Op::LdR8Imm8 { .. }
            | Op::LdR8R8 { .. }
            | Op::LdhCrefA
            | Op::LdhImm8refA
            | Op::LdImm16refA
            | Op::LdhACref
            | Op::LdhAImm8ref
            | Op::LdAImm16ref
            | Op::LdSpHl => Family::Load,
            Op::AddAR8 { .. }
            | Op::AdcAR8 { .. }
            | Op::SubAR8 { .. }
            | Op::SbcAR8 { .. }
            | Op::AndAR8 { .. }
            | Op::XorAR8 { .. }
            | Op::OrAR8 { .. }
            | Op::CpAR8 { .. } => Family::AluR8,
            Op::AddAImm8
            | Op::AdcAImm8
            | Op::SubAImm8
            | Op::SbcAImm8
            | Op::AndAImm8
            | Op::XorAImm8
            | Op::OrAImm8
            | Op::CpAImm8 => Family::AluImm8,
            Op::IncR8 { .. }
            | Op::DecR8 { .. }
            | Op::IncR16 { .. }
            | Op::DecR16 { .. }
            | Op::AddHlR16 { .. }
            | Op::AddSpImm8
            | Op::LdHlSpImm8 => Family::Step,
            Op::Rlca
            | Op::Rrca
            | Op::Rla
            | Op::Rra
            | Op::Daa
            | Op::Cpl
            | Op::Scf
            | Op::Ccf => Family::Accumulator,
            Op::JrImm8
            | Op::JrCondImm8 { .. }
            | Op::JpImm16
            | Op::JpCondImm16 { .. }
            | Op::JpHl
            | Op::CallImm16
            | Op::CallCondImm16 { .. }
            | Op::RstTgt3 { .. }
            | Op::Ret
            | Op::RetCond { .. }
            | Op::Reti => Family::Jump,
            Op::PushR16stk { .. }
            | Op::PopR16stk { .. } => Family::Stack,
            Op::CBRlcR8 { .. }
            | Op::CBRrcR8 { .. }
            | Op::CBRlR8 { .. }
            | Op::CBRrR8 { .. }
            | Op::CBSlaR8 { .. }
            | Op::CBSraR8 { .. }
            | Op::CBSwapR8 { .. }
            | Op::CBSrlR8 { .. }
            | Op::CBBitB3R8 { .. }
            | Op::CBResB3R8 { .. }
            | Op::CBSetB3R8 { .. } => Family::Extended,
            Op::Nop
            | Op::Stop
            | Op::Halt
            | Op::Di
            | Op::Ei => Family::Control,
            Op::CBPrefix
            | Op::Invalid => Family::Undefined,
        }
    }

    /// The family of the instruction.
    #[verifier::when_used_as_spec(spec_family)]
    pub fn family(self) -> (family: Family)
        ensures
            family == self.spec_family(),
    {
        match self {
            Op::LdR16Imm16 { .. }
            | Op::LdR16memA { .. }
            | Op::LdAR16mem { .. }
            | Op::LdImm16Sp
            | Op::LdR8Imm8 { .. }
            | Op::LdR8R8 { .. }
            | Op::LdhCrefA
            | Op::LdhImm8refA
            | Op::LdImm16refA
            | Op::LdhACref
            | Op::LdhAImm8ref
            | Op::LdAImm16ref
            | Op::LdSpHl => Family::Load,
            Op::AddAR8 { .. }
            | Op::AdcAR8 { .. }
            | Op::SubAR8 { .. }
            | Op::SbcAR8 { .. }
            | Op::AndAR8 { .. }
            | Op::XorAR8 { .. }
            | Op::OrAR8 { .. }
            | Op::CpAR8 { .. } => Family::AluR8,
            Op::AddAImm8
            | Op::AdcAImm8
            | Op::SubAImm8
            | Op::SbcAImm8
            | Op::AndAImm8
            | Op::XorAImm8
            | Op::OrAImm8
            | Op::CpAImm8 => Family::AluImm8,
            Op::IncR8 { .. }
            | Op::DecR8 { .. }
            | Op::IncR16 { .. }
            | Op::DecR16 { .. }
            | Op::AddHlR16 { .. }
            | Op::AddSpImm8
            | Op::LdHlSpImm8 => Family::Step,
            Op::Rlca
            | Op::Rrca
            | Op::Rla
            | Op::Rra
            | Op::Daa
            | Op::Cpl
            | Op::Scf
            | Op::Ccf => Family::Accumulator,
            Op::JrImm8
            | Op::JrCondImm8 { .. }
            | Op::JpImm16
            | Op::JpCondImm16 { .. }
            | Op::JpHl
            | Op::CallImm16
            | Op::CallCondImm16 { .. }
            | Op::RstTgt3 { .. }
            | Op::Ret
            | Op::RetCond { .. }
            | Op::Reti => Family::Jump,
            Op::PushR16stk { .. }
            | Op::PopR16stk { .. } => Family::Stack,
            Op::CBRlcR8 { .. }
            | Op::CBRrcR8 { .. }
            | Op::CBRlR8 { .. }
            | Op::CBRrR8 { .. }
            | Op::CBSlaR8 { .. }
            | Op::CBSraR8 { .. }
            | Op::CBSwapR8 { .. }
            | Op::CBSrlR8 { .. }
            | Op::CBBitB3R8 { .. }
            | Op::CBResB3R8 { .. }
            | Op::CBSetB3R8 { .. } => Family::Extended,
            Op::Nop
            | Op::Stop
            | Op::Halt
            | Op::Di
            | Op::Ei => Family::Control,
            Op::CBPrefix
            | Op::Invalid => Family::Undefined,
        }
    }

    /// Whether the instruction belongs to the extended table, so that its
    /// opcode follows the prefix 0xCB.
    pub open spec fn extended(self) -> bool {
        self.spec_family() == Family::Extended
    }

    /// Whether the instruction is a jump, a call or a return: one that may
    /// set the program counter to something else than the address of the
    /// next instruction.
    pub open spec fn transfers(self) -> bool {
        self.spec_family() == Family::Jump
    }

    /// The condition of a conditional jump, call or return; `None` for every
    /// other instruction.
    pub open spec fn condition(self) -> Option<Cond> {
        match self {
            Op::JrCondImm8 { cond }
            | Op::JpCondImm16 { cond }
            | Op::CallCondImm16 { cond }
            | Op::RetCond { cond } => Some(cond),
            _ => None,
        }
    }

    /// The bytes that the opcode takes: one, or two with the prefix of the
    /// extended table.
    pub open spec fn opcode_length(self) -> u8 {
        if self.extended() {
            2
        } else {
            1
        }
    }

    /// The bytes that the opcode takes.
    #[verifier::when_used_as_spec(opcode_length)]
    pub fn opcode_bytes(self) -> (n: u8)
        ensures
            n == self.opcode_length(),
    {
        match self {
            Op::CBRlcR8 { .. }
            | Op::CBRrcR8 { .. }
            | Op::CBRlR8 { .. }
            | Op::CBRrR8 { .. }
            | Op::CBSlaR8 { .. }
            | Op::CBSraR8 { .. }
            | Op::CBSwapR8 { .. }
            | Op::CBSrlR8 { .. }
            | Op::CBBitB3R8 { .. }
            | Op::CBResB3R8 { .. }
            | Op::CBSetB3R8 { .. } => 2,
            _ => 1,
        }
    }

    /// The bytes that the immediate operand takes: none, one for a byte or
    /// two for a word.
    pub open spec fn immediate_length(self) -> u8 {
        match self {
            Op::LdR16Imm16 { .. }
            | Op::LdImm16Sp
            | Op::JpCondImm16 { .. }
            | Op::JpImm16
            | Op::CallCondImm16 { .. }
            | Op::CallImm16
            | Op::LdImm16refA
            | Op::LdAImm16ref => 2,
            Op::LdR8Imm8 { .. }
            | Op::JrImm8
            | Op::JrCondImm8 { .. }
            | Op::AddAImm8
            | Op::AdcAImm8
            | Op::SubAImm8
            | Op::SbcAImm8
            | Op::AndAImm8
            | Op::XorAImm8
            | Op::OrAImm8
            | Op::CpAImm8
            | Op::LdhImm8refA
            | Op::LdhAImm8ref
            | Op::AddSpImm8
            | Op::LdHlSpImm8 => 1,
            _ => 0,
        }
    }

    /// The length of the instruction in bytes: the opcode, one more for the
    /// prefix of an instruction of the extended table, and the immediate
    /// byte or word where there is one.
    pub open spec fn spec_length(self) -> u8 {
        (self.opcode_length() + self.immediate_length()) as u8
    }

    /// Whether an instruction is there to execute: neither the bare prefix
    /// of the extended table nor an undefined opcode.
    pub open spec fn executable(self) -> bool {
        self.spec_family() != Family::Undefined
    }

    /// The length of the instruction in bytes.
    #[verifier::when_used_as_spec(spec_length)]
    pub fn length(self) -> (n: u8)
        ensures
            n == self.spec_length(),
            1 <= n <= 3,
    {
        match self {
            Op::LdR16Imm16 { .. }
            | Op::LdImm16Sp
            | Op::JpCondImm16 { .. }
            | Op::JpImm16
            | Op::CallCondImm16 { .. }
            | Op::CallImm16
            | Op::LdImm16refA
            | Op::LdAImm16ref => 3,
            Op::LdR8Imm8 { .. }
            | Op::JrImm8
            | Op::JrCondImm8 { .. }
            | Op::AddAImm8
            | Op::AdcAImm8
            | Op::SubAImm8
            | Op::SbcAImm8
            | Op::AndAImm8
            | Op::XorAImm8
            | Op::OrAImm8
            | Op::CpAImm8
            | Op::LdhImm8refA
            | Op::LdhAImm8ref
            | Op::AddSpImm8
            | Op::LdHlSpImm8 => 2,
            Op::CBRlcR8 { .. }
            | Op::CBRrcR8 { .. }
            | Op::CBRlR8 { .. }
            | Op::CBRrR8 { .. }
            | Op::CBSlaR8 { .. }
            | Op::CBSraR8 { .. }
            | Op::CBSwapR8 { .. }
            | Op::CBSrlR8 { .. }
            | Op::CBBitB3R8 { .. }
            | Op::CBResB3R8 { .. }
            | Op::CBSetB3R8 { .. } => 2,
            _ => 1,
        }
    }
}

} // verus!
