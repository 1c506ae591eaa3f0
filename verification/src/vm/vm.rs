//! The execution engine: fetches the instruction at the program counter,
//! decodes it and applies it to the register file and the memory.

use vstd::prelude::*;
use crate::memory::Memory;
use crate::vm::alu::{
    add16, add16_value, add8, add_flags, add_value, and8, bit8, bottom_bit, ccf, cpl8, daa8,
    dec8, dec_flags, inc8, inc_flags, lemma_wrap_word, offset16, or8, res8, rl8, rlc8, rr8,
    rrc8, scf, set8, sla8, sra8, srl8, sub16_value, sub8, sub_flags, sub_value, swap8, top_bit,
    xor8,
};
use crate::vm::decode::{decode, decode_extended};
use crate::vm::flags::{
    carry_flag, lemma_flag_masks, lemma_flags_byte, pack_flags, zero_flag, Flags, F_CARRY,
    F_HALF_CARRY, F_ZERO,
};
use crate::vm::laws::law_step_keeps_flags_clean;
use crate::vm::machine::{execute_spec, fetch_spec, snapshot, step_spec, Machine};
use crate::vm::op::{Cond, Family, Op, R16Stk, R16mem, R16, R8};
use crate::vm::registers::{lemma_flags_overwrite, Register16, Register8, Registers};
use crate::word::{high_byte, low_byte};

verus! {

/// Whether the processor is running or waits to be woken. The engine only
/// records what the last halt or stop instruction asked for; it is the host
/// that holds back further steps, and that sets the state to `Running` again
/// when it wakes the processor.
#[derive(Clone, Copy, Debug, PartialEq, Eq, Structural)]
pub enum RunState {
    Running,
    /// A halt instruction was executed.
    Halted,
    /// A stop instruction was executed.
    Stopped,
}

/// The processor: the register file, the interrupt master enable flag and
/// the run state.
#[derive(Clone, Copy, Debug, PartialEq, Eq, Structural)]
pub struct VM {
    pub registers: Registers,
    /// Whether interrupts are enabled. Only the instructions that enable and
    /// disable interrupts, and the return from an interrupt, change it.
    pub ime: bool,
    pub state: RunState,
}

/// Why a step executed no instruction.
#[derive(Clone, Copy, Debug, PartialEq, Eq, Structural)]
pub enum ExecError {
    /// The byte `opcode` at the address `addr` encodes no instruction.
    InvalidInstruction { addr: u16, opcode: u8 },
}

impl VM {
    /// The processor with its register file replaced.
    pub open spec fn with_registers(self, registers: Registers) -> VM {
        VM { registers, ..self }
    }

    /// The processor after the instruction `op` that touches neither a
    /// register nor memory: stopping and halting change the run state,
    /// the two interrupt switches the interrupt master enable flag, and
    /// every other instruction nothing.
    pub open spec fn after_control(self, op: Op) -> VM {
        match op {
            Op::Stop => VM { state: RunState::Stopped, ..self },
            Op::Halt => VM { state: RunState::Halted, ..self },
            Op::Di => VM { ime: false, ..self },
            Op::Ei => VM { ime: true, ..self },
            _ => self,
        }
    }

    /// The processor at power-on: every register zero, interrupts disabled,
    /// running.
    pub fn new() -> (vm: VM)
        ensures
            vm.registers == (Registers { af: 0, bc: 0, de: 0, hl: 0, sp: 0, pc: 0 }),
            !vm.ime,
            vm.state == RunState::Running,
            vm.registers.wf(),
    {
        VM { registers: Registers::default(), ime: false, state: RunState::Running }
    }

    /// Executes the instruction at the program counter and leaves the
    /// program counter on the next instruction, or on the target of a jump,
    /// call or return that was taken. Returns the length of the instruction
    /// in bytes.
    ///
    /// Where the byte at the program counter encodes no instruction, the
    /// error says so, and neither the processor nor the memory has changed.
    pub fn execute(&mut self, memory: &mut Memory) -> (result: Result<u8, ExecError>)
        ensures
            match result {
                Ok(n) => {
                    let op = fetch_spec(old(memory)@, old(self).registers.pc);
                    &&& op.executable()
                    &&& n == op.spec_length()
                    &&& snapshot(*final(self), *final(memory)) == step_spec(
                        snapshot(*old(self), *old(memory)),
                    )
                },
                Err(e) => {
                    &&& fetch_spec(old(memory)@, old(self).registers.pc) == Op::Invalid
                    &&& e == (ExecError::InvalidInstruction {
                        addr: old(self).registers.pc,
                        opcode: old(memory)@[old(self).registers.pc as int],
                    })
                    &&& *final(self) == *old(self)
                    &&& *final(memory) == *old(memory)
                },
            },
            old(self).registers.wf() ==> final(self).registers.wf(),
    {
        let pc = self.registers.pc;
        let op = fetch(memory, pc);
        if op == Op::Invalid {
            return Err(ExecError::InvalidInstruction { addr: pc, opcode: memory.read_byte(pc) });
        }
        self.registers.pc = pc.wrapping_add(op.opcode_bytes() as u16);
        self.run(memory, op);
        proof {
            if old(self).registers.wf() {
                law_step_keeps_flags_clean(snapshot(*old(self), *old(memory)));
            }
        }
        Ok(op.length())
    }

    /// Executes the instruction at the address `pc`, as `execute` does the
    /// one at the program counter. Where the byte at `pc` encodes no
    /// instruction, neither the processor nor the memory has changed, the
    /// program counter included.
    pub fn step(&mut self, memory: &mut Memory, pc: u16) -> (result: Result<u8, ExecError>)
        ensures
            match result {
                Ok(n) => {
                    let op = fetch_spec(old(memory)@, pc);
                    &&& op.executable()
                    &&& n == op.spec_length()
                    &&& snapshot(*final(self), *final(memory)) == step_spec(
                        snapshot(*old(self), *old(memory)).jump(pc),
                    )
                },
                Err(e) => {
                    &&& fetch_spec(old(memory)@, pc) == Op::Invalid
                    &&& e == (ExecError::InvalidInstruction {
                        addr: pc,
                        opcode: old(memory)@[pc as int],
                    })
                    &&& *final(self) == *old(self)
                    &&& *final(memory) == *old(memory)
                },
            },
            old(self).registers.wf() ==> final(self).registers.wf(),
    {
        let saved = self.registers.pc;
        self.registers.pc = pc;
        let result = self.execute(memory);
        if result.is_err() {
            self.registers.pc = saved;
        }
        result
    }

    /// Reads the byte at the program counter and moves the counter past it.
    fn fetch_byte(&mut self, memory: &Memory) -> (byte: u8)
        ensures
            byte == snapshot(*old(self), *memory).imm8(),
            snapshot(*final(self), *memory) == snapshot(*old(self), *memory).advance(1),
    {
        proof {
            lemma_wrap_word(self.registers.pc + 1);
        }
        let byte = memory.read_byte(self.registers.pc);
        self.registers.pc = self.registers.pc.wrapping_add(1);
        byte
    }

    /// Reads the word at the program counter and moves the counter past it.
    fn fetch_word(&mut self, memory: &Memory) -> (word: u16)
        ensures
            word == snapshot(*old(self), *memory).imm16(),
            snapshot(*final(self), *memory) == snapshot(*old(self), *memory).advance(2),
    {
        let word = memory.read_word(self.registers.pc);
        self.registers.pc = self.registers.pc.wrapping_add(2);
        word
    }

    /// The value of the operand `reg`: a register, or the byte at HL.
    fn operand(&self, memory: &Memory, reg: R8) -> (value: u8)
        ensures
            value == snapshot(*self, *memory).operand(reg),
    {
        match reg.register() {
            Some(r) => self.registers.r8(r),
            None => memory.read_byte(self.registers.hl),
        }
    }

    /// Writes `value` to the operand `reg`: to a register, or to the byte at
    /// HL.
    fn set_operand(&mut self, memory: &mut Memory, reg: R8, value: u8)
        ensures
            snapshot(*final(self), *final(memory)) == snapshot(
                *old(self),
                *old(memory),
            ).with_operand(reg, value),
    {
        match reg.register() {
            Some(r) => self.set_r8(r, value),
            None => memory.write_byte(self.registers.hl, value),
        }
    }

    /// Leaves `value` in the operand `reg` and `flags` in the flags register.
    fn set_operand_result(&mut self, memory: &mut Memory, reg: R8, value: u8, flags: Flags)
        ensures
            snapshot(*final(self), *final(memory)) == snapshot(
                *old(self),
                *old(memory),
            ).with_operand_result(reg, value, flags),
    {
        self.set_operand(memory, reg, value);
        self.registers.set_f(flags);
    }

    /// Leaves `value` in the accumulator and `flags` in the flags register.
    fn set_result(&mut self, value: u8, flags: Flags)
        ensures
            *final(self) == old(self).with_registers(
                old(self).registers.with_a(value).with_f(flags),
            ),
    {
        self.registers.set_a(value);
        self.registers.set_f(flags);
    }

    /// Pushes `word`: the high byte goes to the address below the stack
    /// pointer, the low byte below that, and the stack pointer ends on the
    /// low byte.
    fn push(&mut self, memory: &mut Memory, word: u16)
        ensures
            snapshot(*final(self), *final(memory)) == snapshot(*old(self), *old(memory)).push(
                word,
            ),
    {
        self.dec_r16(R16::SP);
        memory.write_byte(self.registers.sp, high_byte(word));
        self.dec_r16(R16::SP);
        memory.write_byte(self.registers.sp, low_byte(word));
    }

    /// Pops the word on top of the stack.
    fn pop(&mut self, memory: &Memory) -> (word: u16)
        ensures
            word == snapshot(*old(self), *memory).top(),
            snapshot(*final(self), *memory) == snapshot(*old(self), *memory).drop_top(),
    {
        let word = memory.read_word(self.registers.sp);
        self.registers.add_sp(2);
        word
    }

    /// Whether the condition `cond` holds of the flags.
    fn holds(&self, cond: Cond) -> (b: bool)
        ensures
            b == cond.holds(self.registers.spec_f()),
    {
        match cond {
            Cond::NZ => !self.is_set(F_ZERO),
            Cond::Z => self.is_set(F_ZERO),
            Cond::NC => !self.is_set(F_CARRY),
            Cond::C => self.is_set(F_CARRY),
        }
    }

    /// Calls `target`: pushes the program counter, which is the return
    /// address, and jumps.
    fn call(&mut self, memory: &mut Memory, target: u16)
        ensures
            snapshot(*final(self), *final(memory)) == snapshot(*old(self), *old(memory)).call(
                target,
            ),
    {
        self.push(memory, self.registers.pc);
        self.registers.pc = target;
    }

    /// Returns: pops the program counter.
    fn ret(&mut self, memory: &Memory)
        ensures
            snapshot(*final(self), *memory) == snapshot(*old(self), *memory).ret(),
    {
        let target = self.pop(memory);
        self.registers.pc = target;
    }

    /// Adds `value` and the carry `carry` to the accumulator.
    fn add_to_a(&mut self, value: u8, carry: bool)
        ensures
            *final(self) == old(self).with_registers(
                old(self).registers.with_a(
                    add_value(old(self).registers.spec_a(), value, carry),
                ).with_f(add_flags(old(self).registers.spec_a(), value, carry)),
            ),
    {
        let (sum, flags) = add8(self.registers.a(), value, carry);
        self.set_result(sum, flags);
    }

    /// Subtracts `value` and the borrow `carry` from the accumulator.
    fn sub_from_a(&mut self, value: u8, carry: bool)
        ensures
            *final(self) == old(self).with_registers(
                old(self).registers.with_a(
                    sub_value(old(self).registers.spec_a(), value, carry),
                ).with_f(sub_flags(old(self).registers.spec_a(), value, carry)),
            ),
    {
        let (diff, flags) = sub8(self.registers.a(), value, carry);
        self.set_result(diff, flags);
    }

    /// Compares the accumulator with `value`: the flags are those of the
    /// subtraction, the accumulator stays.
    fn compare_with_a(&mut self, value: u8)
        ensures
            *final(self) == old(self).with_registers(
                old(self).registers.with_f(sub_flags(old(self).registers.spec_a(), value, false)),
            ),
    {
        let (_, flags) = sub8(self.registers.a(), value, false);
        self.registers.set_f(flags);
    }

    /// Executes the load or store `op`. The program counter has passed the
    /// opcode already.
    fn run_load(&mut self, memory: &mut Memory, op: Op)
        requires
            op.spec_family() == Family::Load,
        ensures
            snapshot(*final(self), *final(memory)) == snapshot(
                *old(self),
                *old(memory),
            ).after_load(op),
    {
        proof {
            reveal(Machine::after_load);
        }
        match op {
            Op::LdR16Imm16 { dst } => {
                let imm16 = self.fetch_word(memory);
                self.registers.set_r16(dst, imm16);
            },
            Op::LdR16memA { dst } => {
                let addr = self.registers.r16(Register16::from(dst));
                memory.write_byte(addr, self.registers.a());
                self.update_hl(dst);
            },
            Op::LdAR16mem { src } => {
                let addr = self.registers.r16(Register16::from(src));
                let byte = memory.read_byte(addr);
                self.registers.set_a(byte);
                self.update_hl(src);
            },
            Op::LdImm16Sp => {
                let imm16 = self.fetch_word(memory);
                memory.write_word(imm16, self.registers.sp);
            },
            Op::LdR8Imm8 { dst } => {
                let imm8 = self.fetch_byte(memory);
                self.set_operand(memory, dst, imm8);
            },
            Op::LdR8R8 { dst, src } => {
                let value = self.operand(memory, src);
                self.set_operand(memory, dst, value);
            },
            Op::LdhCrefA => {
                memory.write_byte(0xFF00 + self.registers.c() as u16, self.registers.a());
            },
            Op::LdhImm8refA => {
                let imm8 = self.fetch_byte(memory);
                memory.write_byte(0xFF00 + imm8 as u16, self.registers.a());
            },
            Op::LdImm16refA => {
                let imm16 = self.fetch_word(memory);
                memory.write_byte(imm16, self.registers.a());
            },
            Op::LdhACref => {
                let byte = memory.read_byte(0xFF00 + self.registers.c() as u16);
                self.registers.set_a(byte);
            },
            Op::LdhAImm8ref => {
                let imm8 = self.fetch_byte(memory);
                let byte = memory.read_byte(0xFF00 + imm8 as u16);
                self.registers.set_a(byte);
            },
            Op::LdAImm16ref => {
                let imm16 = self.fetch_word(memory);
                let byte = memory.read_byte(imm16);
                self.registers.set_a(byte);
            },
            Op::LdSpHl => {
                self.registers.set_r16(R16::SP, self.registers.hl);
            },
            _ => {},
        }
    }

    /// Executes the increment, decrement or 16-bit addition `op`. The program
    /// counter has passed the opcode already.
    fn run_step(&mut self, memory: &mut Memory, op: Op)
        requires
            op.spec_family() == Family::Step,
        ensures
            snapshot(*final(self), *final(memory)) == snapshot(
                *old(self),
                *old(memory),
            ).after_step(op),
    {
        proof {
            reveal(Machine::after_step);
        }
        match op {
            Op::IncR8 { op } => {
                match op.register() {
                    Some(reg) => self.inc_r8(reg),
                    None => {
                        let byte = memory.read_byte(self.registers.hl);
                        let (value, flags) = inc8(byte, self.registers.f());
                        memory.write_byte(self.registers.hl, value);
                        self.registers.set_f(flags);
                    },
                }
            },
            Op::DecR8 { op } => {
                match op.register() {
                    Some(reg) => self.dec_r8(reg),
                    None => {
                        let byte = memory.read_byte(self.registers.hl);
                        let (value, flags) = dec8(byte, self.registers.f());
                        memory.write_byte(self.registers.hl, value);
                        self.registers.set_f(flags);
                    },
                }
            },
            Op::IncR16 { op } => self.inc_r16(op),
            Op::DecR16 { op } => self.dec_r16(op),
            Op::AddHlR16 { op } => {
                let amt = self.registers.r16(Register16::from(op));
                let (_, flags) = add16(self.registers.hl, amt, self.registers.f());
                self.add_r16(R16::HL, amt);
                self.registers.set_f(flags);
            },
            Op::AddSpImm8 => {
                let imm8 = self.fetch_byte(memory);
                let (value, flags) = offset16(self.registers.sp, imm8);
                self.registers.set_r16(R16::SP, value);
                self.registers.set_f(flags);
            },
            Op::LdHlSpImm8 => {
                let imm8 = self.fetch_byte(memory);
                let (value, flags) = offset16(self.registers.sp, imm8);
                self.registers.set_r16(R16::HL, value);
                self.registers.set_f(flags);
            },
            _ => {},
        }
    }

    /// Executes the instruction `op` that works on the accumulator or the
    /// flags alone. The program counter has passed the opcode already.
    fn run_accumulator(&mut self, memory: &Memory, op: Op)
        requires
            op.spec_family() == Family::Accumulator,
        ensures
            snapshot(*final(self), *memory) == snapshot(*old(self), *memory).after_accumulator(op),
    {
        proof {
            reveal(Machine::after_accumulator);
        }
        match op {
            Op::Rlca => {
                let zero = self.is_set(F_ZERO);
                let (value, flags) = rlc8(self.registers.a());
                proof {
                    lemma_flag_masks(flags);
                    lemma_flags_byte(
                        value == 0,
                        false,
                        false,
                        top_bit(old(self).registers.spec_a()),
                    );
                }
                self.set_result(value, pack_flags(zero, false, false, flags & F_CARRY != 0));
            },
            Op::Rrca => {
                let zero = self.is_set(F_ZERO);
                let (value, flags) = rrc8(self.registers.a());
                proof {
                    lemma_flag_masks(flags);
                    lemma_flags_byte(
                        value == 0,
                        false,
                        false,
                        bottom_bit(old(self).registers.spec_a()),
                    );
                }
                self.set_result(value, pack_flags(zero, false, false, flags & F_CARRY != 0));
            },
            Op::Rla => {
                let zero = self.is_set(F_ZERO);
                let (value, flags) = rl8(self.registers.a(), self.is_set(F_CARRY));
                proof {
                    lemma_flag_masks(flags);
                    lemma_flags_byte(
                        value == 0,
                        false,
                        false,
                        top_bit(old(self).registers.spec_a()),
                    );
                }
                self.set_result(value, pack_flags(zero, false, false, flags & F_CARRY != 0));
            },
            Op::Rra => {
                let zero = self.is_set(F_ZERO);
                let (value, flags) = rr8(self.registers.a(), self.is_set(F_CARRY));
                proof {
                    lemma_flag_masks(flags);
                    lemma_flags_byte(
                        value == 0,
                        false,
                        false,
                        bottom_bit(old(self).registers.spec_a()),
                    );
                }
                self.set_result(value, pack_flags(zero, false, false, flags & F_CARRY != 0));
            },
            Op::Daa => {
                let (value, flags) = daa8(self.registers.a(), self.registers.f());
                self.set_result(value, flags);
            },
            Op::Cpl => {
                let (value, flags) = cpl8(self.registers.a(), self.registers.f());
                self.set_result(value, flags);
            },
            Op::Scf => {
                let flags = scf(self.registers.f());
                self.registers.set_f(flags);
            },
            Op::Ccf => {
                let flags = ccf(self.registers.f());
                self.registers.set_f(flags);
            },
            _ => {},
        }
    }

    /// Executes the jump, call or return `op`. The program counter has passed
    /// the opcode already.
    fn run_jump(&mut self, memory: &mut Memory, op: Op)
        requires
            op.spec_family() == Family::Jump,
        ensures
            snapshot(*final(self), *final(memory)) == snapshot(
                *old(self),
                *old(memory),
            ).after_jump(op),
    {
        proof {
            reveal(Machine::after_jump);
        }
        match op {
            Op::JrImm8 => {
                let imm8 = self.fetch_byte(memory);
                let (target, _) = offset16(self.registers.pc, imm8);
                self.registers.pc = target;
            },
            Op::JrCondImm8 { cond } => {
                let imm8 = self.fetch_byte(memory);
                if self.holds(cond) {
                    let (target, _) = offset16(self.registers.pc, imm8);
                    self.registers.pc = target;
                }
            },
            Op::JpImm16 => {
                let imm16 = self.fetch_word(memory);
                self.registers.pc = imm16;
            },
            Op::JpCondImm16 { cond } => {
                let imm16 = self.fetch_word(memory);
                if self.holds(cond) {
                    self.registers.pc = imm16;
                }
            },
            Op::JpHl => {
                self.registers.pc = self.registers.hl;
            },
            Op::CallImm16 => {
                let imm16 = self.fetch_word(memory);
                self.call(memory, imm16);
            },
            Op::CallCondImm16 { cond } => {
                let imm16 = self.fetch_word(memory);
                if self.holds(cond) {
                    self.call(memory, imm16);
                }
            },
            Op::RstTgt3 { tgt } => {
                self.call(memory, 8 * (tgt % 8) as u16);
            },
            Op::Ret => self.ret(memory),
            Op::RetCond { cond } => {
                if self.holds(cond) {
                    self.ret(memory);
                }
            },
            Op::Reti => {
                self.ret(memory);
                self.ime = true;
            },
            _ => {},
        }
    }

    /// Executes the push or pop `op`. The program counter has passed the
    /// opcode already.
    fn run_stack(&mut self, memory: &mut Memory, op: Op)
        requires
            op.spec_family() == Family::Stack,
        ensures
            snapshot(*final(self), *final(memory)) == snapshot(
                *old(self),
                *old(memory),
            ).after_stack(op),
    {
        proof {
            reveal(Machine::after_stack);
        }
        match op {
            Op::PushR16stk { reg } => {
                let word = self.registers.r16(Register16::from(reg));
                self.push(memory, word);
            },
            Op::PopR16stk { reg } => {
                let word = self.pop(memory);
                match reg {
                    R16Stk::BC => self.registers.set_r16(R16::BC, word),
                    R16Stk::DE => self.registers.set_r16(R16::DE, word),
                    R16Stk::HL => self.registers.set_r16(R16::HL, word),
                    R16Stk::AF => self.set_result(high_byte(word), low_byte(word)),
                }
            },
            _ => {},
        }
    }

    /// Executes the instruction `op` of the extended table. The program
    /// counter has passed the opcode already.
    fn run_extended(&mut self, memory: &mut Memory, op: Op)
        requires
            op.spec_family() == Family::Extended,
        ensures
            snapshot(*final(self), *final(memory)) == snapshot(
                *old(self),
                *old(memory),
            ).after_extended(op),
    {
        proof {
            reveal(Machine::after_extended);
        }
        match op {
            Op::CBRlcR8 { op } => {
                let (value, flags) = rlc8(self.operand(memory, op));
                self.set_operand_result(memory, op, value, flags);
            },
            Op::CBRrcR8 { op } => {
                let (value, flags) = rrc8(self.operand(memory, op));
                self.set_operand_result(memory, op, value, flags);
            },
            Op::CBRlR8 { op } => {
                let (value, flags) = rl8(self.operand(memory, op), self.is_set(F_CARRY));
                self.set_operand_result(memory, op, value, flags);
            },
            Op::CBRrR8 { op } => {
                let (value, flags) = rr8(self.operand(memory, op), self.is_set(F_CARRY));
                self.set_operand_result(memory, op, value, flags);
            },
            Op::CBSlaR8 { op } => {
                let (value, flags) = sla8(self.operand(memory, op));
                self.set_operand_result(memory, op, value, flags);
            },
            Op::CBSraR8 { op } => {
                let (value, flags) = sra8(self.operand(memory, op));
                self.set_operand_result(memory, op, value, flags);
            },
            Op::CBSwapR8 { op } => {
                let (value, flags) = swap8(self.operand(memory, op));
                self.set_operand_result(memory, op, value, flags);
            },
            Op::CBSrlR8 { op } => {
                let (value, flags) = srl8(self.operand(memory, op));
                self.set_operand_result(memory, op, value, flags);
            },
            Op::CBBitB3R8 { bi, op } => {
                let flags = bit8(self.operand(memory, op), bi, self.registers.f());
                self.registers.set_f(flags);
            },
            Op::CBResB3R8 { bi, op } => {
                let value = res8(self.operand(memory, op), bi);
                self.set_operand(memory, op, value);
            },
            Op::CBSetB3R8 { bi, op } => {
                let value = set8(self.operand(memory, op), bi);
                self.set_operand(memory, op, value);
            },
            _ => {},
        }
    }

    /// Executes the instruction `op` that changes the run state or the
    /// interrupt master enable flag.
    fn run_control(&mut self, op: Op)
        requires
            op.spec_family() == Family::Control,
        ensures
            *final(self) == old(self).after_control(op),
    {
        match op {
            Op::Stop => {
                self.state = RunState::Stopped;
            },
            Op::Halt => {
                self.state = RunState::Halted;
            },
            Op::Di => {
                self.ime = false;
            },
            Op::Ei => {
                self.ime = true;
            },
            _ => {},
        }
    }

    /// Combines the accumulator with `value` as the arithmetic or logic
    /// instruction `op` says.
    fn alu(&mut self, op: Op, value: u8)
        requires
            op.spec_family() == Family::AluR8 || op.spec_family() == Family::AluImm8,
        ensures
            *final(self) == old(self).with_registers(old(self).registers.after_alu(op, value)),
    {
        let a = self.registers.a();
        let carry = self.is_set(F_CARRY);
        match op {
            Op::AddAR8 { .. } | Op::AddAImm8 => self.registers.add_a(value),
            Op::AdcAR8 { .. } | Op::AdcAImm8 => self.add_to_a(value, carry),
            Op::SubAR8 { .. } | Op::SubAImm8 => self.registers.sub_a(value),
            Op::SbcAR8 { .. } | Op::SbcAImm8 => self.sub_from_a(value, carry),
            Op::AndAR8 { .. } | Op::AndAImm8 => {
                let (result, flags) = and8(a, value);
                self.set_result(result, flags);
            },
            Op::XorAR8 { .. } | Op::XorAImm8 => {
                let (result, flags) = xor8(a, value);
                self.set_result(result, flags);
            },
            Op::OrAR8 { .. } | Op::OrAImm8 => {
                let (result, flags) = or8(a, value);
                self.set_result(result, flags);
            },
            _ => self.compare_with_a(value),
        }
    }

    /// Executes the arithmetic or logic instruction `op` on the accumulator
    /// and an 8-bit operand.
    fn run_alu_r8(&mut self, memory: &Memory, op: Op)
        requires
            op.spec_family() == Family::AluR8,
        ensures
            snapshot(*final(self), *memory) == snapshot(*old(self), *memory).after_alu_r8(op),
    {
        proof {
            reveal(Machine::after_alu_r8);
        }
        match op {
            Op::AddAR8 { op: reg }
            | Op::AdcAR8 { op: reg }
            | Op::SubAR8 { op: reg }
            | Op::SbcAR8 { op: reg }
            | Op::AndAR8 { op: reg }
            | Op::XorAR8 { op: reg }
            | Op::OrAR8 { op: reg }
            | Op::CpAR8 { op: reg } => {
                let value = self.operand(memory, reg);
                self.alu(op, value);
            },
            _ => {},
        }
    }

    /// Executes the arithmetic or logic instruction `op` on the accumulator
    /// and the immediate byte. The program counter has passed the opcode
    /// already.
    fn run_alu_imm8(&mut self, memory: &Memory, op: Op)
        requires
            op.spec_family() == Family::AluImm8,
        ensures
            snapshot(*final(self), *memory) == snapshot(*old(self), *memory).after_alu_imm8(op),
    {
        proof {
            reveal(Machine::after_alu_imm8);
        }
        let imm8 = self.fetch_byte(memory);
        self.alu(op, imm8);
    }

    /// Executes the instruction `op`, whose opcode the program counter has
    /// passed already.
    fn run(&mut self, memory: &mut Memory, op: Op)
        requires
            op.executable(),
        ensures
            snapshot(*final(self), *final(memory)) == execute_spec(
                snapshot(*old(self), *old(memory)),
                op,
            ),
    {
        match op.family() {
            Family::Load => self.run_load(memory, op),
            Family::AluR8 => self.run_alu_r8(memory, op),
            Family::AluImm8 => self.run_alu_imm8(memory, op),
            Family::Step => self.run_step(memory, op),
            Family::Accumulator => self.run_accumulator(memory, op),
            Family::Jump => self.run_jump(memory, op),
            Family::Stack => self.run_stack(memory, op),
            Family::Extended => self.run_extended(memory, op),
            Family::Control => self.run_control(op),
            Family::Undefined => {},
        }
    }

    /// Whether any flag that the mask `flag` selects is set.
    fn is_set(&self, flag: Flags) -> (set: bool)
        ensures
            set == (self.registers.spec_f() & flag != 0),
            flag == F_ZERO ==> set == zero_flag(self.registers.spec_f()),
            flag == F_CARRY ==> set == carry_flag(self.registers.spec_f()),
    {
        self.registers.flag_val(flag)
    }

    /// The stepping of HL that follows an indirect access through `reg`.
    fn update_hl(&mut self, reg: R16mem)
        ensures
            *final(self) == old(self).with_registers(
                match reg {
                    R16mem::HLInc => old(self).registers.with_r16(
                        R16::HL,
                        add16_value(old(self).registers.hl, 1),
                    ),
                    R16mem::HLDec => old(self).registers.with_r16(
                        R16::HL,
                        sub16_value(old(self).registers.hl, 1),
                    ),
                    _ => old(self).registers,
                },
            ),
    {
        if reg == R16mem::HLInc {
            self.inc_r16(R16::HL);
        }
        if reg == R16mem::HLDec {
            self.dec_r16(R16::HL);
        }
    }

    /// Decrements the register `reg`: Zero, Subtract and Half-Carry are set
    /// by the result, Carry stays.
    fn dec_r8(&mut self, reg: Register8)
        ensures
            *final(self) == old(self).with_registers(old(self).registers.after_dec(reg)),
    {
        let carry = self.is_set(F_CARRY);
        self.sub_r8(reg, 1);
        let flags = self.registers.f();
        proof {
            let v = old(self).registers.spec_r8(reg);
            let after = old(self).registers.with_r8(reg, sub_value(v, 1, false));
            lemma_flag_masks(flags);
            let first = sub_flags(v, 1, false);
            lemma_flags_overwrite(after, first, dec_flags(v, old(self).registers.spec_f()));
        }
        self.registers.set_f(
            pack_flags(flags & F_ZERO != 0, true, flags & F_HALF_CARRY != 0, carry),
        );
    }

    /// Subtracts `amt` from the register `reg`, modulo 256, and sets the
    /// flags by the subtraction.
    fn sub_r8(&mut self, reg: Register8, amt: u8)
        ensures
            *final(self) == old(self).with_registers(old(self).registers.after_sub(reg, amt)),
    {
        match reg {
            Register8::A => self.registers.sub_a(amt),
            Register8::B => self.registers.sub_b(amt),
            Register8::C => self.registers.sub_c(amt),
            Register8::D => self.registers.sub_d(amt),
            Register8::E => self.registers.sub_e(amt),
            Register8::H => self.registers.sub_h(amt),
            Register8::L => self.registers.sub_l(amt),
        }
    }

    /// Increments the register `reg`: Zero, Subtract and Half-Carry are set
    /// by the result, Carry stays.
    fn inc_r8(&mut self, reg: Register8)
        ensures
            *final(self) == old(self).with_registers(old(self).registers.after_inc(reg)),
    {
        let carry = self.is_set(F_CARRY);
        self.add_r8(reg, 1);
        let flags = self.registers.f();
        proof {
            let v = old(self).registers.spec_r8(reg);
            let after = old(self).registers.with_r8(reg, add_value(v, 1, false));
            lemma_flag_masks(flags);
            let first = add_flags(v, 1, false);
            lemma_flags_overwrite(after, first, inc_flags(v, old(self).registers.spec_f()));
        }
        self.registers.set_f(
            pack_flags(flags & F_ZERO != 0, false, flags & F_HALF_CARRY != 0, carry),
        );
    }

    /// Adds `amt` to the register `reg`, modulo 256, and sets the flags by
    /// the addition.
    fn add_r8(&mut self, reg: Register8, amt: u8)
        ensures
            *final(self) == old(self).with_registers(old(self).registers.after_add(reg, amt)),
    {
        match reg {
            Register8::A => self.registers.add_a(amt),
            Register8::B => self.registers.add_b(amt),
            Register8::C => self.registers.add_c(amt),
            Register8::D => self.registers.add_d(amt),
            Register8::E => self.registers.add_e(amt),
            Register8::H => self.registers.add_h(amt),
            Register8::L => self.registers.add_l(amt),
        }
    }

    /// Replaces the register `reg` by `val`.
    fn set_r8(&mut self, reg: Register8, val: u8)
        ensures
            *final(self) == old(self).with_registers(old(self).registers.with_r8(reg, val)),
    {
        match reg {
            Register8::A => self.registers.set_a(val),
            Register8::B => self.registers.set_b(val),
            Register8::C => self.registers.set_c(val),
            Register8::D => self.registers.set_d(val),
            Register8::E => self.registers.set_e(val),
            Register8::H => self.registers.set_h(val),
            Register8::L => self.registers.set_l(val),
        }
    }

    /// Adds `amt` to the pair `reg`, modulo 65536. No flag changes.
    fn add_r16(&mut self, reg: R16, amt: u16)
        ensures
            *final(self) == old(self).with_registers(
                old(self).registers.with_r16(
                    reg,
                    add16_value(old(self).registers.spec_r16(reg.spec_pair()), amt),
                ),
            ),
    {
        match reg {
            R16::BC => self.registers.add_bc(amt),
            R16::DE => self.registers.add_de(amt),
            R16::HL => self.registers.add_hl(amt),
            R16::SP => self.registers.add_sp(amt),
        }
    }

    /// Subtracts `amt` from the pair `reg`, modulo 65536. No flag changes.
    fn sub_r16(&mut self, reg: R16, amt: u16)
        ensures
            *final(self) == old(self).with_registers(
                old(self).registers.with_r16(
                    reg,
                    sub16_value(old(self).registers.spec_r16(reg.spec_pair()), amt),
                ),
            ),
    {
        match reg {
            R16::BC => self.registers.sub_bc(amt),
            R16::DE => self.registers.sub_de(amt),
            R16::HL => self.registers.sub_hl(amt),
            R16::SP => self.registers.sub_sp(amt),
        }
    }

    /// Adds one to the pair `reg`, modulo 65536. No flag changes.
    fn inc_r16(&mut self, reg: R16)
        ensures
            *final(self) == old(self).with_registers(
                old(self).registers.with_r16(
                    reg,
                    add16_value(old(self).registers.spec_r16(reg.spec_pair()), 1),
                ),
            ),
    {
        self.add_r16(reg, 1);
    }

    /// Subtracts one from the pair `reg`, modulo 65536. No flag changes.
    fn dec_r16(&mut self, reg: R16)
        ensures
            *final(self) == old(self).with_registers(
                old(self).registers.with_r16(
                    reg,
                    sub16_value(old(self).registers.spec_r16(reg.spec_pair()), 1),
                ),
            ),
    {
        self.sub_r16(reg, 1);
    }

    /// Sets every flag that the mask `flags` selects and leaves the others
    /// as they are. The low nibble of the flags register stays zero.
    pub fn set_flags(&mut self, flags: Flags)
        ensures
            *final(self) == old(self).with_registers(
                old(self).registers.with_f(old(self).registers.spec_f() | flags),
            ),
            final(self).registers.wf(),
    {
        let f = self.registers.f();
        self.registers.set_f(flags | f);
        proof {
            lemma_or_commutes(flags, f);
        }
    }
}

/// Decodes the instruction that starts at the address `pc`: where the byte
/// there is the prefix of the extended table, the byte after it is decoded
/// in that table.
pub fn fetch(memory: &Memory, pc: u16) -> (op: Op)
    ensures
        op == fetch_spec(memory@, pc),
        op != Op::CBPrefix,
{
    reveal(fetch_spec);
    let opcode = memory.read_byte(pc);
    if opcode == 0xCB {
        let second = memory.read_byte(pc.wrapping_add(1));
        decode_extended(second)
    } else {
        decode(opcode)
    }
}

/// The bitwise or of two bytes does not depend on their order.
proof fn lemma_or_commutes(x: u8, y: u8)
    by (bit_vector)
    ensures
        x | y == y | x,
{
}

} // verus!
