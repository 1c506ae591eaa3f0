//! What every instruction does, stated over a snapshot of the processor and
//! the memory. The execution engine is proved against these definitions.

use vstd::prelude::*;
use crate::memory::{next_addr, store_word, word_at, Memory};
use crate::vm::alu::{
    add16_flags, add16_value, bit_flags, bottom_bit, ccf_flags, cpl_flags, cpl_value, daa_flags,
    daa_value, dec_flags, dec_value, inc_flags, inc_value, offset_flags, offset_value,
    res_value, rl_value, rlc_value, rotate_a_flags, rr_value, rrc_value, scf_flags, set_value,
    shift_flags, sla_value, sra_value, srl_value, sub16_value, swap_value, top_bit,
};
use crate::vm::decode::{decode_extended_spec, decode_spec};
use crate::vm::flags::{carry_flag, Flags};
use crate::vm::op::{Cond, Family, Op, R16Stk, R16mem, R16, R8};
use crate::vm::registers::Registers;
use crate::vm::vm::VM;
use crate::word::{high, low};

verus! {

/// The processor and the memory at one moment.
#[verifier::ext_equal]
pub struct Machine {
    pub cpu: VM,
    pub mem: Seq<u8>,
}

/// The snapshot of a processor and a memory.
pub open spec fn snapshot(cpu: VM, mem: Memory) -> Machine {
    Machine { cpu, mem: mem@ }
}

/// The address `offset` bytes into the last page of the address space.
pub open spec fn high_page(offset: u8) -> u16 {
    (0xFF00 + offset) as u16
}

impl Machine {
    /// The register file.
    pub open spec fn regs(self) -> Registers {
        self.cpu.registers
    }

    /// The machine with its register file replaced.
    pub open spec fn with_regs(self, registers: Registers) -> Machine {
        Machine { cpu: VM { registers, ..self.cpu }, ..self }
    }

    /// The accumulator.
    pub open spec fn a(self) -> u8 {
        self.regs().spec_a()
    }

    /// The flags register.
    pub open spec fn flags(self) -> Flags {
        self.regs().spec_f()
    }

    /// The machine with the accumulator replaced.
    pub open spec fn with_a(self, value: u8) -> Machine {
        self.with_regs(self.regs().with_a(value))
    }

    /// The machine with the flags replaced by the high nibble of `flags`.
    pub open spec fn with_flags(self, flags: Flags) -> Machine {
        self.with_regs(self.regs().with_f(flags))
    }

    /// The byte stored at `addr`.
    pub open spec fn load(self, addr: u16) -> u8 {
        self.mem[addr as int]
    }

    /// The machine after `value` was stored at `addr`.
    pub open spec fn store(self, addr: u16, value: u8) -> Machine {
        Machine { mem: self.mem.update(addr as int, value), ..self }
    }

    /// The machine after `word` was stored at `addr`, low byte first.
    pub open spec fn store_pair(self, addr: u16, word: u16) -> Machine {
        Machine { mem: store_word(self.mem, addr, word), ..self }
    }

    /// The value of the 8-bit operand `reg`: a register, or the byte that
    /// HL points at.
    pub open spec fn operand(self, reg: R8) -> u8 {
        match reg.spec_register() {
            Some(r) => self.regs().spec_r8(r),
            None => self.load(self.regs().hl),
        }
    }

    /// The machine after `value` was written to the 8-bit operand `reg`: to
    /// a register, or to the byte that HL points at.
    pub open spec fn with_operand(self, reg: R8, value: u8) -> Machine {
        match reg.spec_register() {
            Some(r) => self.with_regs(self.regs().with_r8(r, value)),
            None => self.store(self.regs().hl, value),
        }
    }

    /// The value of the register pair `reg`.
    pub open spec fn pair(self, reg: R16) -> u16 {
        self.regs().spec_r16(reg.spec_pair())
    }

    /// The machine with the register pair `reg` replaced.
    pub open spec fn with_pair(self, reg: R16, value: u16) -> Machine {
        self.with_regs(self.regs().with_r16(reg, value))
    }

    /// The address that an indirect access through `reg` uses: the pair as
    /// it stands before any stepping.
    pub open spec fn pointer(self, reg: R16mem) -> u16 {
        self.regs().spec_r16(reg.spec_pair())
    }

    /// The machine after the stepping that follows an indirect access
    /// through `reg`: HL goes up or down by one, or nothing changes.
    pub open spec fn step_pointer(self, reg: R16mem) -> Machine {
        match reg {
            R16mem::HLInc => self.with_pair(R16::HL, add16_value(self.regs().hl, 1)),
            R16mem::HLDec => self.with_pair(R16::HL, sub16_value(self.regs().hl, 1)),
            _ => self,
        }
    }

    /// The value of the pair `reg` of a push.
    pub open spec fn stack_pair(self, reg: R16Stk) -> u16 {
        self.regs().spec_r16(reg.spec_pair())
    }

    /// The machine after a pop wrote `value` to the pair `reg`. In AF the
    /// low nibble of the flags stays zero whatever `value` holds there.
    pub open spec fn with_stack_pair(self, reg: R16Stk, value: u16) -> Machine {
        match reg {
            R16Stk::BC => self.with_pair(R16::BC, value),
            R16Stk::DE => self.with_pair(R16::DE, value),
            R16Stk::HL => self.with_pair(R16::HL, value),
            R16Stk::AF => self.with_a(high(value)).with_flags(low(value)),
        }
    }

    /// The byte at the program counter: the immediate byte of the
    /// instruction whose opcode the counter has passed.
    pub open spec fn imm8(self) -> u8 {
        self.load(self.regs().pc)
    }

    /// The word at the program counter, low byte first: the immediate word
    /// of the instruction whose opcode the counter has passed.
    pub open spec fn imm16(self) -> u16 {
        word_at(self.mem, self.regs().pc)
    }

    /// The machine with the program counter moved on by `n` bytes, modulo
    /// 65536.
    pub open spec fn advance(self, n: u8) -> Machine {
        self.jump(((self.regs().pc + n) % 65536) as u16)
    }

    /// The machine with the program counter set to `target`.
    pub open spec fn jump(self, target: u16) -> Machine {
        self.with_regs(self.regs().with_pc(target))
    }

    /// The machine with the program counter moved by the signed offset that
    /// `byte` encodes, modulo 65536.
    pub open spec fn jump_by(self, byte: u8) -> Machine {
        self.jump(offset_value(self.regs().pc, byte))
    }

    /// The machine after `word` was pushed: the stack pointer goes down by
    /// one and the high byte is stored there, then down by one again for
    /// the low byte.
    pub open spec fn push(self, word: u16) -> Machine {
        let at_high = sub16_value(self.regs().sp, 1);
        let at_low = sub16_value(self.regs().sp, 2);
        self.store(at_high, high(word)).store(at_low, low(word)).with_pair(R16::SP, at_low)
    }

    /// The word on top of the stack: low byte at the stack pointer, high
    /// byte above it.
    pub open spec fn top(self) -> u16 {
        word_at(self.mem, self.regs().sp)
    }

    /// The machine after the word on top of the stack was taken off: the
    /// stack pointer goes up by two.
    pub open spec fn drop_top(self) -> Machine {
        self.with_pair(R16::SP, add16_value(self.regs().sp, 2))
    }

    /// The machine after a call to `target`: the program counter, which is
    /// the return address, is pushed and replaced by `target`.
    pub open spec fn call(self, target: u16) -> Machine {
        self.push(self.regs().pc).jump(target)
    }

    /// The machine after a return: the program counter is popped.
    pub open spec fn ret(self) -> Machine {
        self.drop_top().jump(self.top())
    }

    /// Whether the condition `cond` holds of the flags.
    pub open spec fn holds(self, cond: Cond) -> bool {
        cond.holds(self.flags())
    }

    /// The machine after an operation left `value` in the accumulator and
    /// `flags` in the flags register.
    pub open spec fn with_result(self, value: u8, flags: Flags) -> Machine {
        self.with_a(value).with_flags(flags)
    }

    /// The machine after an operation left `value` in the operand `reg` and
    /// `flags` in the flags register.
    pub open spec fn with_operand_result(self, reg: R8, value: u8, flags: Flags) -> Machine {
        self.with_operand(reg, value).with_flags(flags)
    }

    /// The machine with the interrupt master enable flag replaced.
    pub open spec fn with_ime(self, ime: bool) -> Machine {
        Machine { cpu: VM { ime, ..self.cpu }, ..self }
    }

    /// The machine after the load or store `op`: a copy between registers,
    /// the immediate operand and memory. No flag changes.
    #[verifier::opaque]
    pub open spec fn after_load(self, op: Op) -> Machine {
        match op {
            Op::LdR16Imm16 { dst } => self.advance(2).with_pair(dst, self.imm16()),
            Op::LdR16memA { dst } => self.store(self.pointer(dst), self.a()).step_pointer(dst),
            Op::LdAR16mem { src } => self.with_a(self.load(self.pointer(src))).step_pointer(src),
            Op::LdImm16Sp => self.advance(2).store_pair(self.imm16(), self.regs().sp),
            Op::LdR8Imm8 { dst } => self.advance(1).with_operand(dst, self.imm8()),
            Op::LdR8R8 { dst, src } => self.with_operand(dst, self.operand(src)),
            Op::LdhCrefA => self.store(high_page(self.regs().spec_c()), self.a()),
            Op::LdhImm8refA => self.advance(1).store(high_page(self.imm8()), self.a()),
            Op::LdImm16refA => self.advance(2).store(self.imm16(), self.a()),
            Op::LdhACref => self.with_a(self.load(high_page(self.regs().spec_c()))),
            Op::LdhAImm8ref => self.advance(1).with_a(self.load(high_page(self.imm8()))),
            Op::LdAImm16ref => self.advance(2).with_a(self.load(self.imm16())),
            Op::LdSpHl => self.with_pair(R16::SP, self.regs().hl),
            _ => self,
        }
    }

    /// The machine after the arithmetic or logic instruction `op` combined
    /// the accumulator with `value`.
    pub open spec fn after_alu(self, op: Op, value: u8) -> Machine {
        self.with_regs(self.regs().after_alu(op, value))
    }

    /// The machine after the arithmetic or logic instruction `op` on the
    /// accumulator and an 8-bit operand.
    #[verifier::opaque]
    pub open spec fn after_alu_r8(self, op: Op) -> Machine {
        match op {
            Op::AddAR8 { op: reg }
            | Op::AdcAR8 { op: reg }
            | Op::SubAR8 { op: reg }
            | Op::SbcAR8 { op: reg }
            | Op::AndAR8 { op: reg }
            | Op::XorAR8 { op: reg }
            | Op::OrAR8 { op: reg }
            | Op::CpAR8 { op: reg } => self.after_alu(op, self.operand(reg)),
            _ => self,
        }
    }

    /// The machine after the arithmetic or logic instruction `op` on the
    /// accumulator and the immediate byte.
    #[verifier::opaque]
    pub open spec fn after_alu_imm8(self, op: Op) -> Machine {
        match op {
            Op::AddAImm8
            | Op::AdcAImm8
            | Op::SubAImm8
            | Op::SbcAImm8
            | Op::AndAImm8
            | Op::XorAImm8
            | Op::OrAImm8
            | Op::CpAImm8 => self.advance(1).after_alu(op, self.imm8()),
            _ => self,
        }
    }

    /// The machine after the increment, decrement or 16-bit addition `op`.
    /// On an 8-bit operand Carry stays; on a register pair an increment or
    /// decrement changes no flag; adding a pair to HL leaves Zero; adding the
    /// signed immediate byte to the stack pointer, into the stack pointer or
    /// into HL, clears Zero.
    #[verifier::opaque]
    pub open spec fn after_step(self, op: Op) -> Machine {
        match op {
            Op::IncR8 { op: reg } => self.with_operand_result(
                reg,
                inc_value(self.operand(reg)),
                inc_flags(self.operand(reg), self.flags()),
            ),
            Op::DecR8 { op: reg } => self.with_operand_result(
                reg,
                dec_value(self.operand(reg)),
                dec_flags(self.operand(reg), self.flags()),
            ),
            Op::IncR16 { op: reg } => self.with_pair(reg, add16_value(self.pair(reg), 1)),
            Op::DecR16 { op: reg } => self.with_pair(reg, sub16_value(self.pair(reg), 1)),
            Op::AddHlR16 { op: reg } => self.with_pair(
                R16::HL,
                add16_value(self.regs().hl, self.pair(reg)),
            ).with_flags(add16_flags(self.regs().hl, self.pair(reg), self.flags())),
            Op::AddSpImm8 => self.advance(1).with_pair(
                R16::SP,
                offset_value(self.regs().sp, self.imm8()),
            ).with_flags(offset_flags(self.regs().sp, self.imm8())),
            Op::LdHlSpImm8 => self.advance(1).with_pair(
                R16::HL,
                offset_value(self.regs().sp, self.imm8()),
            ).with_flags(offset_flags(self.regs().sp, self.imm8())),
            _ => self,
        }
    }

    /// The machine after the instruction `op` that works on the accumulator
    /// or the flags alone. The four rotates leave Zero as it was.
    #[verifier::opaque]
    pub open spec fn after_accumulator(self, op: Op) -> Machine {
        let a = self.a();
        let f = self.flags();
        let carry = carry_flag(f);
        match op {
            Op::Rlca => self.with_result(rlc_value(a), rotate_a_flags(f, top_bit(a))),
            Op::Rrca => self.with_result(rrc_value(a), rotate_a_flags(f, bottom_bit(a))),
            Op::Rla => self.with_result(rl_value(a, carry), rotate_a_flags(f, top_bit(a))),
            Op::Rra => self.with_result(rr_value(a, carry), rotate_a_flags(f, bottom_bit(a))),
            Op::Daa => self.with_result(daa_value(a, f), daa_flags(a, f)),
            Op::Cpl => self.with_result(cpl_value(a), cpl_flags(f)),
            Op::Scf => self.with_flags(scf_flags(f)),
            Op::Ccf => self.with_flags(ccf_flags(f)),
            _ => self,
        }
    }

    /// The machine after the jump, call or return `op`. A conditional one
    /// whose condition does not hold only passes its immediate operand. A
    /// relative jump counts from the address of the next instruction.
    #[verifier::opaque]
    pub open spec fn after_jump(self, op: Op) -> Machine {
        match op {
            Op::JrImm8 => self.advance(1).jump_by(self.imm8()),
            Op::JrCondImm8 { cond } => if self.holds(cond) {
                self.advance(1).jump_by(self.imm8())
            } else {
                self.advance(1)
            },
            Op::JpImm16 => self.jump(self.imm16()),
            Op::JpCondImm16 { cond } => if self.holds(cond) {
                self.jump(self.imm16())
            } else {
                self.advance(2)
            },
            Op::JpHl => self.jump(self.regs().hl),
            Op::CallImm16 => self.advance(2).call(self.imm16()),
            Op::CallCondImm16 { cond } => if self.holds(cond) {
                self.advance(2).call(self.imm16())
            } else {
                self.advance(2)
            },
            Op::RstTgt3 { tgt } => self.call((8 * (tgt % 8)) as u16),
            Op::Ret => self.ret(),
            Op::RetCond { cond } => if self.holds(cond) {
                self.ret()
            } else {
                self
            },
            Op::Reti => self.ret().with_ime(true),
            _ => self,
        }
    }

    /// The machine after the push or pop `op`.
    #[verifier::opaque]
    pub open spec fn after_stack(self, op: Op) -> Machine {
        match op {
            Op::PushR16stk { reg } => self.push(self.stack_pair(reg)),
            Op::PopR16stk { reg } => self.drop_top().with_stack_pair(reg, self.top()),
            _ => self,
        }
    }

    /// The machine after the instruction `op` of the extended table. The
    /// rotates and shifts set Zero by the result and clear Subtract and
    /// Half-Carry; setting and clearing a bit change no flag; testing a bit
    /// changes no operand.
    #[verifier::opaque]
    pub open spec fn after_extended(self, op: Op) -> Machine {
        let carry = carry_flag(self.flags());
        match op {
            Op::CBRlcR8 { op: reg } => self.with_operand_result(
                reg,
                rlc_value(self.operand(reg)),
                shift_flags(rlc_value(self.operand(reg)), top_bit(self.operand(reg))),
            ),
            Op::CBRrcR8 { op: reg } => self.with_operand_result(
                reg,
                rrc_value(self.operand(reg)),
                shift_flags(rrc_value(self.operand(reg)), bottom_bit(self.operand(reg))),
            ),
            Op::CBRlR8 { op: reg } => self.with_operand_result(
                reg,
                rl_value(self.operand(reg), carry),
                shift_flags(rl_value(self.operand(reg), carry), top_bit(self.operand(reg))),
            ),
            Op::CBRrR8 { op: reg } => self.with_operand_result(
                reg,
                rr_value(self.operand(reg), carry),
                shift_flags(rr_value(self.operand(reg), carry), bottom_bit(self.operand(reg))),
            ),
            Op::CBSlaR8 { op: reg } => self.with_operand_result(
                reg,
                sla_value(self.operand(reg)),
                shift_flags(sla_value(self.operand(reg)), top_bit(self.operand(reg))),
            ),
            Op::CBSraR8 { op: reg } => self.with_operand_result(
                reg,
                sra_value(self.operand(reg)),
                shift_flags(sra_value(self.operand(reg)), bottom_bit(self.operand(reg))),
            ),
            Op::CBSwapR8 { op: reg } => self.with_operand_result(
                reg,
                swap_value(self.operand(reg)),
                shift_flags(swap_value(self.operand(reg)), false),
            ),
            Op::CBSrlR8 { op: reg } => self.with_operand_result(
                reg,
                srl_value(self.operand(reg)),
                shift_flags(srl_value(self.operand(reg)), bottom_bit(self.operand(reg))),
            ),
            Op::CBBitB3R8 { bi, op: reg } => self.with_flags(
                bit_flags(self.operand(reg), bi, self.flags()),
            ),
            Op::CBResB3R8 { bi, op: reg } => self.with_operand(
                reg,
                res_value(self.operand(reg), bi),
            ),
            Op::CBSetB3R8 { bi, op: reg } => self.with_operand(
                reg,
                set_value(self.operand(reg), bi),
            ),
            _ => self,
        }
    }

    /// The machine after the instruction `op` that touches neither a
    /// register nor memory: it changes the run state or the interrupt
    /// master enable flag, or nothing.
    pub open spec fn after_control(self, op: Op) -> Machine {
        Machine { cpu: self.cpu.after_control(op), ..self }
    }
}

/// The machine after the instruction `op` was executed, where the program
/// counter of `m` stands behind the opcode of `op`: on its immediate
/// operand, if it has one. In the result the program counter is the address
/// of the next instruction, or the target of a jump, call or return that was
/// taken.
///
/// For the bare prefix and for an undefined opcode, which the engine never
/// executes, the result is `m`.
pub open spec fn execute_spec(m: Machine, op: Op) -> Machine {
    match op.spec_family() {
        Family::Load => m.after_load(op),
        Family::AluR8 => m.after_alu_r8(op),
        Family::AluImm8 => m.after_alu_imm8(op),
        Family::Step => m.after_step(op),
        Family::Accumulator => m.after_accumulator(op),
        Family::Jump => m.after_jump(op),
        Family::Stack => m.after_stack(op),
        Family::Extended => m.after_extended(op),
        Family::Control => m.after_control(op),
        Family::Undefined => m,
    }
}

/// The instruction that starts at `pc` in `mem`: the one that the byte
/// there encodes or, where that byte is the prefix 0xCB, the one that the
/// byte after it names in the extended table.
#[verifier::opaque]
pub open spec fn fetch_spec(mem: Seq<u8>, pc: u16) -> Op {
    if mem[pc as int] == 0xCB {
        decode_extended_spec(mem[next_addr(pc) as int])
    } else {
        decode_spec(mem[pc as int])
    }
}

/// The machine after one step: the instruction at the program counter is
/// fetched and executed. Where the byte there encodes no instruction, the
/// machine stays as it is.
pub open spec fn step_spec(m: Machine) -> Machine {
    let op = fetch_spec(m.mem, m.regs().pc);
    if op.executable() {
        execute_spec(m.advance(op.opcode_length()), op)
    } else {
        m
    }
}

} // verus!
