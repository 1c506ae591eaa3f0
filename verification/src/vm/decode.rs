//! The opcode decoder: from a raw byte to an instruction.
//!
//! An opcode is read as three fields: its top two bits pick one of four
//! blocks, and the middle three and low three bits pick the instruction and
//! its operands within the block. The decoders below test the byte against
//! each family's fixed bits, the fully fixed patterns of a region before the
//! families that overlap them, and are proved to agree with that reading.

use vstd::prelude::*;
use vstd::std_specs::convert::FromSpecImpl;
use crate::vm::op::{Cond, Op, R16Stk, R16mem, R16, R8};
use crate::vm::pattern::{lemma_fields_of_opcode, OpPattern};

verus! {

/// The top two bits of an opcode: its block.
pub open spec fn block(byte: u8) -> u8 {
    byte / 64
}

/// The middle three bits of an opcode.
pub open spec fn middle(byte: u8) -> u8 {
    (byte / 8) % 8
}

/// The low three bits of an opcode.
pub open spec fn bottom(byte: u8) -> u8 {
    byte % 8
}

/// The instruction that an opcode of the first block (top bits 00) encodes,
/// by its middle field `y` and its low field `z`.
pub open spec fn block0_spec(y: u8, z: u8) -> Op {
    match z {
        0 => match y {
            0 => Op::Nop,
            1 => Op::LdImm16Sp,
            2 => Op::Stop,
            3 => Op::JrImm8,
            _ => Op::JrCondImm8 { cond: Cond::of_bits(y % 4) },
        },
        1 => if y % 2 == 0 {
            Op::LdR16Imm16 { dst: R16::of_bits(y / 2) }
        } else {
            Op::AddHlR16 { op: R16::of_bits(y / 2) }
        },
        2 => if y % 2 == 0 {
            Op::LdR16memA { dst: R16mem::of_bits(y / 2) }
        } else {
            Op::LdAR16mem { src: R16mem::of_bits(y / 2) }
        },
        3 => if y % 2 == 0 {
            Op::IncR16 { op: R16::of_bits(y / 2) }
        } else {
            Op::DecR16 { op: R16::of_bits(y / 2) }
        },
        4 => Op::IncR8 { op: R8::of_bits(y) },
        5 => Op::DecR8 { op: R8::of_bits(y) },
        6 => Op::LdR8Imm8 { dst: R8::of_bits(y) },
        _ => match y {
            0 => Op::Rlca,
            1 => Op::Rrca,
            2 => Op::Rla,
            3 => Op::Rra,
            4 => Op::Daa,
            5 => Op::Cpl,
            6 => Op::Scf,
            _ => Op::Ccf,
        },
    }
}

/// The arithmetic or logic instruction number `y` on the operand `op`
/// (third block, top bits 10).
pub open spec fn block2_spec(y: u8, op: R8) -> Op {
    match y {
        0 => Op::AddAR8 { op },
        1 => Op::AdcAR8 { op },
        2 => Op::SubAR8 { op },
        3 => Op::SbcAR8 { op },
        4 => Op::AndAR8 { op },
        5 => Op::XorAR8 { op },
        6 => Op::OrAR8 { op },
        _ => Op::CpAR8 { op },
    }
}

/// The arithmetic or logic instruction number `y` on an immediate byte.
pub open spec fn alu_imm_spec(y: u8) -> Op {
    match y {
        0 => Op::AddAImm8,
        1 => Op::AdcAImm8,
        2 => Op::SubAImm8,
        3 => Op::SbcAImm8,
        4 => Op::AndAImm8,
        5 => Op::XorAImm8,
        6 => Op::OrAImm8,
        _ => Op::CpAImm8,
    }
}

/// The instruction that an opcode of the last block (top bits 11) encodes,
/// by its middle field `y` and its low field `z`.
pub open spec fn block3_spec(y: u8, z: u8) -> Op {
    match z {
        0 => match y {
            4 => Op::LdhImm8refA,
            5 => Op::AddSpImm8,
            6 => Op::LdhAImm8ref,
            7 => Op::LdHlSpImm8,
            _ => Op::RetCond { cond: Cond::of_bits(y) },
        },
        1 => if y % 2 == 0 {
            Op::PopR16stk { reg: R16Stk::of_bits(y / 2) }
        } else {
            match y / 2 {
                0 => Op::Ret,
                1 => Op::Reti,
                2 => Op::JpHl,
                _ => Op::LdSpHl,
            }
        },
        2 => match y {
            4 => Op::LdhCrefA,
            5 => Op::LdImm16refA,
            6 => Op::LdhACref,
            7 => Op::LdAImm16ref,
            _ => Op::JpCondImm16 { cond: Cond::of_bits(y) },
        },
        3 => match y {
            0 => Op::JpImm16,
            1 => Op::CBPrefix,
            6 => Op::Di,
            7 => Op::Ei,
            _ => Op::Invalid,
        },
        4 => if y < 4 {
            Op::CallCondImm16 { cond: Cond::of_bits(y) }
        } else {
            Op::Invalid
        },
        5 => if y % 2 == 0 {
            Op::PushR16stk { reg: R16Stk::of_bits(y / 2) }
        } else if y == 1 {
            Op::CallImm16
        } else {
            Op::Invalid
        },
        6 => alu_imm_spec(y),
        _ => Op::RstTgt3 { tgt: y },
    }
}

/// The instruction that the plain opcode `byte` encodes.
///
/// The byte 0x76 would, by its fields, be a load from the byte at HL into
/// itself: it is `Halt` instead. The byte 0xCB is the prefix of the extended
/// table and nothing else.
pub open spec fn decode_spec(byte: u8) -> Op {
    let y = middle(byte);
    let z = bottom(byte);
    match block(byte) {
        0 => block0_spec(y, z),
        1 => if y == 6 && z == 6 {
            Op::Halt
        } else {
            Op::LdR8R8 { dst: R8::of_bits(y), src: R8::of_bits(z) }
        },
        2 => block2_spec(y, R8::of_bits(z)),
        _ => block3_spec(y, z),
    }
}

/// The instruction that `byte` encodes when it follows the prefix 0xCB.
pub open spec fn decode_extended_spec(byte: u8) -> Op {
    let y = middle(byte);
    let op = R8::of_bits(bottom(byte));
    match block(byte) {
        0 => match y {
            0 => Op::CBRlcR8 { op },
            1 => Op::CBRrcR8 { op },
            2 => Op::CBRlR8 { op },
            3 => Op::CBRrR8 { op },
            4 => Op::CBSlaR8 { op },
            5 => Op::CBSraR8 { op },
            6 => Op::CBSwapR8 { op },
            _ => Op::CBSrlR8 { op },
        },
        1 => Op::CBBitB3R8 { bi: y, op },
        2 => Op::CBResB3R8 { bi: y, op },
        _ => Op::CBSetB3R8 { bi: y, op },
    }
}

/// An opcode is made of its three fields.
proof fn lemma_fields(byte: u8)
    by (bit_vector)
    ensures
        byte == 64 * block(byte) + 8 * middle(byte) + bottom(byte),
        block(byte) < 4,
{
}

/// Whether `byte` agrees with `pattern` outside the bits of the two field
/// masks.
spec fn fits(byte: u8, pattern: u8, mask1: u8, mask2: u8) -> bool {
    byte & !(mask1 | mask2) == pattern
}

/// What each test of an opcode against a family's fixed bits says of the
/// opcode's three fields.
proof fn lemma_families(byte: u8)
    by (bit_vector)
    ensures
        fits(byte, byte, 0x00, 0x00),
        fits(byte, 0x01, 0x30, 0x00) <==> (block(byte) == 0 && bottom(byte) == 1
            && middle(byte) % 2 == 0),
        fits(byte, 0x02, 0x30, 0x00) <==> (block(byte) == 0 && bottom(byte) == 2
            && middle(byte) % 2 == 0),
        fits(byte, 0x03, 0x30, 0x00) <==> (block(byte) == 0 && bottom(byte) == 3
            && middle(byte) % 2 == 0),
        fits(byte, 0x09, 0x30, 0x00) <==> (block(byte) == 0 && bottom(byte) == 1
            && middle(byte) % 2 == 1),
        fits(byte, 0x0A, 0x30, 0x00) <==> (block(byte) == 0 && bottom(byte) == 2
            && middle(byte) % 2 == 1),
        fits(byte, 0x0B, 0x30, 0x00) <==> (block(byte) == 0 && bottom(byte) == 3
            && middle(byte) % 2 == 1),
        fits(byte, 0x04, 0x38, 0x00) <==> (block(byte) == 0 && bottom(byte) == 4),
        fits(byte, 0x05, 0x38, 0x00) <==> (block(byte) == 0 && bottom(byte) == 5),
        fits(byte, 0x06, 0x38, 0x00) <==> (block(byte) == 0 && bottom(byte) == 6),
        fits(byte, 0x20, 0x18, 0x00) <==> (block(byte) == 0 && bottom(byte) == 0
            && middle(byte) >= 4),
        fits(byte, 0x40, 0x38, 0x07) <==> (block(byte) == 1),
        fits(byte, 0x80, 0x38, 0x07) <==> (block(byte) == 2),
        fits(byte, 0xC0, 0x38, 0x07) <==> (block(byte) == 3),
        fits(byte, 0x00, 0x07, 0x00) <==> (block(byte) == 0 && middle(byte) == 0),
        fits(byte, 0x08, 0x07, 0x00) <==> (block(byte) == 0 && middle(byte) == 1),
        fits(byte, 0x10, 0x07, 0x00) <==> (block(byte) == 0 && middle(byte) == 2),
        fits(byte, 0x18, 0x07, 0x00) <==> (block(byte) == 0 && middle(byte) == 3),
        fits(byte, 0x20, 0x07, 0x00) <==> (block(byte) == 0 && middle(byte) == 4),
        fits(byte, 0x28, 0x07, 0x00) <==> (block(byte) == 0 && middle(byte) == 5),
        fits(byte, 0x30, 0x07, 0x00) <==> (block(byte) == 0 && middle(byte) == 6),
        fits(byte, 0x38, 0x07, 0x00) <==> (block(byte) == 0 && middle(byte) == 7),
        fits(byte, 0x80, 0x07, 0x00) <==> (block(byte) == 2 && middle(byte) == 0),
        fits(byte, 0x88, 0x07, 0x00) <==> (block(byte) == 2 && middle(byte) == 1),
        fits(byte, 0x90, 0x07, 0x00) <==> (block(byte) == 2 && middle(byte) == 2),
        fits(byte, 0x98, 0x07, 0x00) <==> (block(byte) == 2 && middle(byte) == 3),
        fits(byte, 0xA0, 0x07, 0x00) <==> (block(byte) == 2 && middle(byte) == 4),
        fits(byte, 0xA8, 0x07, 0x00) <==> (block(byte) == 2 && middle(byte) == 5),
        fits(byte, 0xB0, 0x07, 0x00) <==> (block(byte) == 2 && middle(byte) == 6),
        fits(byte, 0xB8, 0x07, 0x00) <==> (block(byte) == 2 && middle(byte) == 7),
        fits(byte, 0xC0, 0x18, 0x00) <==> (block(byte) == 3 && bottom(byte) == 0
            && middle(byte) < 4),
        fits(byte, 0xC2, 0x18, 0x00) <==> (block(byte) == 3 && bottom(byte) == 2
            && middle(byte) < 4),
        fits(byte, 0xC4, 0x18, 0x00) <==> (block(byte) == 3 && bottom(byte) == 4
            && middle(byte) < 4),
        fits(byte, 0xC7, 0x38, 0x00) <==> (block(byte) == 3 && bottom(byte) == 7),
        fits(byte, 0xC1, 0x30, 0x00) <==> (block(byte) == 3 && bottom(byte) == 1
            && middle(byte) % 2 == 0),
        fits(byte, 0xC5, 0x30, 0x00) <==> (block(byte) == 3 && bottom(byte) == 5
            && middle(byte) % 2 == 0),
{
}

/// The byte 0xCB, and no other, decodes to the prefix of the extended table.
pub proof fn lemma_decode_prefix(byte: u8)
    ensures
        decode_spec(byte) == Op::CBPrefix <==> byte == 0xCB,
{
}

/// Eleven plain opcodes encode no instruction; every other byte does.
pub proof fn law_undefined_opcodes(byte: u8)
    ensures
        decode_spec(byte) == Op::Invalid <==> (byte == 0xD3 || byte == 0xDB || byte == 0xDD
            || byte == 0xE3 || byte == 0xE4 || byte == 0xEB || byte == 0xEC || byte == 0xED
            || byte == 0xF4 || byte == 0xFC || byte == 0xFD),
{
}

/// Every byte of the extended table encodes an instruction of that table.
pub proof fn lemma_decode_extended_total(byte: u8)
    ensures
        decode_extended_spec(byte).extended(),
        decode_extended_spec(byte).executable(),
{
}

/// Decodes a plain opcode. Every byte decodes to exactly one instruction;
/// a byte that encodes none gives `Op::Invalid`.
///
/// The families are tried in order, a family of one opcode before the
/// families with fields that its bits would fit as well.
pub fn decode(byte: u8) -> (op: Op)
    ensures
        op == decode_spec(byte),
{
    proof {
        lemma_fields(byte);
        lemma_families(byte);
        lemma_fields_of_opcode(byte);
    }
    let family = OpPattern::plain(0x00);
    if family.matches(byte) {
        return Op::Nop;
    }
    let family = OpPattern::single(0x01, 0x30);
    if family.matches(byte) {
        return Op::LdR16Imm16 { dst: R16::from(family.data1(byte)) };
    }
    let family = OpPattern::single(0x02, 0x30);
    if family.matches(byte) {
        return Op::LdR16memA { dst: R16mem::from(family.data1(byte)) };
    }
    let family = OpPattern::single(0x0A, 0x30);
    if family.matches(byte) {
        return Op::LdAR16mem { src: R16mem::from(family.data1(byte)) };
    }
    let family = OpPattern::plain(0x08);
    if family.matches(byte) {
        return Op::LdImm16Sp;
    }
    let family = OpPattern::single(0x03, 0x30);
    if family.matches(byte) {
        return Op::IncR16 { op: R16::from(family.data1(byte)) };
    }
    let family = OpPattern::single(0x0B, 0x30);
    if family.matches(byte) {
        return Op::DecR16 { op: R16::from(family.data1(byte)) };
    }
    let family = OpPattern::single(0x09, 0x30);
    if family.matches(byte) {
        return Op::AddHlR16 { op: R16::from(family.data1(byte)) };
    }
    let family = OpPattern::single(0x04, 0x38);
    if family.matches(byte) {
        return Op::IncR8 { op: R8::from(family.data1(byte)) };
    }
    let family = OpPattern::single(0x05, 0x38);
    if family.matches(byte) {
        return Op::DecR8 { op: R8::from(family.data1(byte)) };
    }
    let family = OpPattern::single(0x06, 0x38);
    if family.matches(byte) {
        return Op::LdR8Imm8 { dst: R8::from(family.data1(byte)) };
    }
    let family = OpPattern::plain(0x07);
    if family.matches(byte) {
        return Op::Rlca;
    }
    let family = OpPattern::plain(0x0F);
    if family.matches(byte) {
        return Op::Rrca;
    }
    let family = OpPattern::plain(0x17);
    if family.matches(byte) {
        return Op::Rla;
    }
    let family = OpPattern::plain(0x1F);
    if family.matches(byte) {
        return Op::Rra;
    }
    let family = OpPattern::plain(0x27);
    if family.matches(byte) {
        return Op::Daa;
    }
    let family = OpPattern::plain(0x2F);
    if family.matches(byte) {
        return Op::Cpl;
    }
    let family = OpPattern::plain(0x37);
    if family.matches(byte) {
        return Op::Scf;
    }
    let family = OpPattern::plain(0x3F);
    if family.matches(byte) {
        return Op::Ccf;
    }
    let family = OpPattern::plain(0x18);
    if family.matches(byte) {
        return Op::JrImm8;
    }
    let family = OpPattern::single(0x20, 0x18);
    if family.matches(byte) {
        return Op::JrCondImm8 { cond: Cond::from(family.data1(byte)) };
    }
    let family = OpPattern::plain(0x10);
    if family.matches(byte) {
        return Op::Stop;
    }
    let family = OpPattern::plain(0x76);
    if family.matches(byte) {
        return Op::Halt;
    }
    let family = OpPattern::double(0x40, 0x38, 0x07);
    if family.matches(byte) {
        return Op::LdR8R8 { dst: R8::from(family.data1(byte)), src: R8::from(family.data2(byte)) };
    }
    let family = OpPattern::single(0x80, 0x07);
    if family.matches(byte) {
        return Op::AddAR8 { op: R8::from(family.data1(byte)) };
    }
    let family = OpPattern::single(0x88, 0x07);
    if family.matches(byte) {
        return Op::AdcAR8 { op: R8::from(family.data1(byte)) };
    }
    let family = OpPattern::single(0x90, 0x07);
    if family.matches(byte) {
        return Op::SubAR8 { op: R8::from(family.data1(byte)) };
    }
    let family = OpPattern::single(0x98, 0x07);
    if family.matches(byte) {
        return Op::SbcAR8 { op: R8::from(family.data1(byte)) };
    }
    let family = OpPattern::single(0xA0, 0x07);
    if family.matches(byte) {
        return Op::AndAR8 { op: R8::from(family.data1(byte)) };
    }
    let family = OpPattern::single(0xA8, 0x07);
    if family.matches(byte) {
        return Op::XorAR8 { op: R8::from(family.data1(byte)) };
    }
    let family = OpPattern::single(0xB0, 0x07);
    if family.matches(byte) {
        return Op::OrAR8 { op: R8::from(family.data1(byte)) };
    }
    let family = OpPattern::single(0xB8, 0x07);
    if family.matches(byte) {
        return Op::CpAR8 { op: R8::from(family.data1(byte)) };
    }
    let family = OpPattern::plain(0xC6);
    if family.matches(byte) {
        return Op::AddAImm8;
    }
    let family = OpPattern::plain(0xCE);
    if family.matches(byte) {
        return Op::AdcAImm8;
    }
    let family = OpPattern::plain(0xD6);
    if family.matches(byte) {
        return Op::SubAImm8;
    }
    let family = OpPattern::plain(0xDE);
    if family.matches(byte) {
        return Op::SbcAImm8;
    }
    let family = OpPattern::plain(0xE6);
    if family.matches(byte) {
        return Op::AndAImm8;
    }
    let family = OpPattern::plain(0xEE);
    if family.matches(byte) {
        return Op::XorAImm8;
    }
    let family = OpPattern::plain(0xF6);
    if family.matches(byte) {
        return Op::OrAImm8;
    }
    let family = OpPattern::plain(0xFE);
    if family.matches(byte) {
        return Op::CpAImm8;
    }
    let family = OpPattern::single(0xC0, 0x18);
    if family.matches(byte) {
        return Op::RetCond { cond: Cond::from(family.data1(byte)) };
    }
    let family = OpPattern::plain(0xC9);
    if family.matches(byte) {
        return Op::Ret;
    }
    let family = OpPattern::plain(0xD9);
    if family.matches(byte) {
        return Op::Reti;
    }
    let family = OpPattern::single(0xC2, 0x18);
    if family.matches(byte) {
        return Op::JpCondImm16 { cond: Cond::from(family.data1(byte)) };
    }
    let family = OpPattern::plain(0xC3);
    if family.matches(byte) {
        return Op::JpImm16;
    }
    let family = OpPattern::plain(0xE9);
    if family.matches(byte) {
        return Op::JpHl;
    }
    let family = OpPattern::single(0xC4, 0x18);
    if family.matches(byte) {
        return Op::CallCondImm16 { cond: Cond::from(family.data1(byte)) };
    }
    let family = OpPattern::plain(0xCD);
    if family.matches(byte) {
        return Op::CallImm16;
    }
    let family = OpPattern::single(0xC7, 0x38);
    if family.matches(byte) {
        return Op::RstTgt3 { tgt: family.data1(byte) };
    }
    let family = OpPattern::single(0xC1, 0x30);
    if family.matches(byte) {
        return Op::PopR16stk { reg: R16Stk::from(family.data1(byte)) };
    }
    let family = OpPattern::single(0xC5, 0x30);
    if family.matches(byte) {
        return Op::PushR16stk { reg: R16Stk::from(family.data1(byte)) };
    }
    let family = OpPattern::plain(0xCB);
    if family.matches(byte) {
        return Op::CBPrefix;
    }
    let family = OpPattern::plain(0xE2);
    if family.matches(byte) {
        return Op::LdhCrefA;
    }
    let family = OpPattern::plain(0xE0);
    if family.matches(byte) {
        return Op::LdhImm8refA;
    }
    let family = OpPattern::plain(0xEA);
    if family.matches(byte) {
        return Op::LdImm16refA;
    }
    let family = OpPattern::plain(0xF2);
    if family.matches(byte) {
        return Op::LdhACref;
    }
    let family = OpPattern::plain(0xF0);
    if family.matches(byte) {
        return Op::LdhAImm8ref;
    }
    let family = OpPattern::plain(0xFA);
    if family.matches(byte) {
        return Op::LdAImm16ref;
    }
    let family = OpPattern::plain(0xE8);
    if family.matches(byte) {
        return Op::AddSpImm8;
    }
    let family = OpPattern::plain(0xF8);
    if family.matches(byte) {
        return Op::LdHlSpImm8;
    }
    let family = OpPattern::plain(0xF9);
    if family.matches(byte) {
        return Op::LdSpHl;
    }
    let family = OpPattern::plain(0xF3);
    if family.matches(byte) {
        return Op::Di;
    }
    let family = OpPattern::plain(0xFB);
    if family.matches(byte) {
        return Op::Ei;
    }
    Op::Invalid
}

impl From<u8> for Op {
    /// Decodes a plain opcode, as `decode` does.
    fn from(value: u8) -> (op: Op) {
        decode(value)
    }
}

impl FromSpecImpl<u8> for Op {
    open spec fn obeys_from_spec() -> bool {
        true
    }

    open spec fn from_spec(value: u8) -> Op {
        decode_spec(value)
    }
}

/// Decodes the byte that follows the prefix 0xCB. Every byte of the extended
/// table encodes an instruction.
pub fn decode_extended(byte: u8) -> (op: Op)
    ensures
        op == decode_extended_spec(byte),
{
    proof {
        lemma_families(byte);
        lemma_fields_of_opcode(byte);
    }
    let family = OpPattern::single(0x00, 0x07);
    if family.matches(byte) {
        return Op::CBRlcR8 { op: R8::from(family.data1(byte)) };
    }
    let family = OpPattern::single(0x08, 0x07);
    if family.matches(byte) {
        return Op::CBRrcR8 { op: R8::from(family.data1(byte)) };
    }
    let family = OpPattern::single(0x10, 0x07);
    if family.matches(byte) {
        return Op::CBRlR8 { op: R8::from(family.data1(byte)) };
    }
    let family = OpPattern::single(0x18, 0x07);
    if family.matches(byte) {
        return Op::CBRrR8 { op: R8::from(family.data1(byte)) };
    }
    let family = OpPattern::single(0x20, 0x07);
    if family.matches(byte) {
        return Op::CBSlaR8 { op: R8::from(family.data1(byte)) };
    }
    let family = OpPattern::single(0x28, 0x07);
    if family.matches(byte) {
        return Op::CBSraR8 { op: R8::from(family.data1(byte)) };
    }
    let family = OpPattern::single(0x30, 0x07);
    if family.matches(byte) {
        return Op::CBSwapR8 { op: R8::from(family.data1(byte)) };
    }
    let family = OpPattern::single(0x38, 0x07);
    if family.matches(byte) {
        return Op::CBSrlR8 { op: R8::from(family.data1(byte)) };
    }
    let family = OpPattern::double(0x40, 0x38, 0x07);
    if family.matches(byte) {
        return Op::CBBitB3R8 { bi: family.data1(byte), op: R8::from(family.data2(byte)) };
    }
    let family = OpPattern::double(0x80, 0x38, 0x07);
    if family.matches(byte) {
        return Op::CBResB3R8 { bi: family.data1(byte), op: R8::from(family.data2(byte)) };
    }
    let family = OpPattern::double(0xC0, 0x38, 0x07);
    Op::CBSetB3R8 { bi: family.data1(byte), op: R8::from(family.data2(byte)) }
}

} // verus!
