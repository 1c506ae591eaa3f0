//! Laws of the register file and of the instructions, proved from the
//! definitions that the contracts of the library use.

use vstd::prelude::*;
use crate::memory::{next_addr, word_at};
use crate::vm::alu::{
    add16_value, add_flags, add_value, bit_flags, bit_is_set, bottom_bit, carry_in,
    daa_correction, daa_flags, daa_high, daa_low, daa_value, lemma_left_shift, lemma_wrap_byte,
    lemma_wrap_word, res_value, rlc_value, set_value, sub16_value, sub_flags, sub_value, top_bit,
};
use crate::vm::flags::{
    carry_flag, flag_bits, half_carry_flag, lemma_flags_byte, subtract_flag, zero_flag,
};
use crate::vm::machine::{execute_spec, fetch_spec, high_page, step_spec, Machine};
use crate::vm::op::{Cond, Family, Op, R16Stk, R16, R8};
use crate::vm::registers::{lemma_flags_apart, lemma_flags_overwrite, Register8, Registers};
use crate::word::{high, lemma_join_split, low};

verus! {

/// Writing the accumulator and reading it gives back the byte written, and
/// the flags, the other register pairs, the stack pointer and the program
/// counter are as they were.
pub proof fn law_accumulator_round_trip(regs: Registers, value: u8)
    ensures
        regs.with_a(value).spec_a() == value,
        regs.with_a(value).spec_f() == regs.spec_f(),
        regs.with_a(value).bc == regs.bc,
        regs.with_a(value).de == regs.de,
        regs.with_a(value).hl == regs.hl,
        regs.with_a(value).sp == regs.sp,
        regs.with_a(value).pc == regs.pc,
{
}

/// Writing an 8-bit register and reading it gives back the byte written,
/// and every other 8-bit register, the flags, the stack pointer and the
/// program counter are as they were: the two halves of a pair do not
/// disturb each other.
pub proof fn law_half_registers(regs: Registers, reg: Register8, value: u8, other: Register8)
    ensures
        regs.with_r8(reg, value).spec_r8(reg) == value,
        other != reg ==> regs.with_r8(reg, value).spec_r8(other) == regs.spec_r8(other),
        regs.with_r8(reg, value).spec_f() == regs.spec_f(),
        regs.with_r8(reg, value).sp == regs.sp,
        regs.with_r8(reg, value).pc == regs.pc,
{
}

/// Writing the flags leaves the accumulator, and the flags register never
/// holds anything in its low nibble.
pub proof fn law_flags_write(regs: Registers, value: u8)
    ensures
        regs.with_f(value).spec_f() == flag_bits(value),
        regs.with_f(value).spec_f() % 16 == 0,
        regs.with_f(value).spec_a() == regs.spec_a(),
        regs.with_f(value).wf(),
{
}

/// Addition does not depend on the order of its operands, and the result
/// with the Carry flag as a ninth bit is the sum: nothing is lost.
pub proof fn law_add_commutes_and_carries(a: u8, v: u8, carry: bool)
    ensures
        add_value(a, v, carry) == add_value(v, a, carry),
        add_flags(a, v, carry) == add_flags(v, a, carry),
        carry_flag(add_flags(a, v, carry)) == (a + v + carry_in(carry) > 255),
        add_value(a, v, carry) + 256 * carry_in(carry_flag(add_flags(a, v, carry))) == a + v
            + carry_in(carry),
        zero_flag(add_flags(a, v, carry)) == (add_value(a, v, carry) == 0),
        !subtract_flag(add_flags(a, v, carry)),
{
    lemma_wrap_byte(a + v + carry_in(carry));
    lemma_flags_byte(
        add_value(a, v, carry) == 0,
        false,
        a % 16 + v % 16 + carry_in(carry) > 15,
        a + v + carry_in(carry) > 255,
    );
}

/// The result of a subtraction with the Carry flag as a borrow is the
/// difference: nothing is lost. Subtract is set, and Zero says whether
/// the result is zero.
pub proof fn law_sub_borrows(a: u8, v: u8, carry: bool)
    ensures
        carry_flag(sub_flags(a, v, carry)) == (a < v + carry_in(carry)),
        sub_value(a, v, carry) - 256 * carry_in(carry_flag(sub_flags(a, v, carry))) == a - v
            - carry_in(carry),
        zero_flag(sub_flags(a, v, carry)) == (sub_value(a, v, carry) == 0),
        subtract_flag(sub_flags(a, v, carry)),
{
    lemma_wrap_byte(a - v - carry_in(carry));
    lemma_flags_byte(
        sub_value(a, v, carry) == 0,
        true,
        a % 16 < v % 16 + carry_in(carry),
        a < v + carry_in(carry),
    );
}

/// Subtracting a byte from itself: with `x` in the accumulator, subtracting
/// `x` leaves zero there, sets Zero and Subtract, and clears Half-Carry and
/// Carry.
pub proof fn law_subtract_self(regs: Registers, x: u8)
    ensures
        ({
            let after = regs.with_a(x).after_sub(Register8::A, x);
            &&& after.spec_a() == 0
            &&& zero_flag(after.spec_f())
            &&& subtract_flag(after.spec_f())
            &&& !half_carry_flag(after.spec_f())
            &&& !carry_flag(after.spec_f())
        }),
{
    assert(sub_value(x, x, false) == 0);
    assert(sub_flags(x, x, false) == 192);
}

/// `v` rotated left by one bit `n` times.
pub open spec fn rlc_times(v: u8, n: nat) -> u8
    decreases n,
{
    if n == 0 {
        v
    } else {
        rlc_value(rlc_times(v, (n - 1) as nat))
    }
}

/// Eight rotations by one bit, written with shifts, give the byte back, and
/// the bit that the last of them moves out is the lowest bit of the byte.
proof fn lemma_rotate_chain(v: u8, r1: u8, r2: u8, r3: u8, r4: u8, r5: u8, r6: u8, r7: u8, r8: u8)
    by (bit_vector)
    requires
        r1 == (v << 1) | (v >> 7),
        r2 == (r1 << 1) | (r1 >> 7),
        r3 == (r2 << 1) | (r2 >> 7),
        r4 == (r3 << 1) | (r3 >> 7),
        r5 == (r4 << 1) | (r4 >> 7),
        r6 == (r5 << 1) | (r5 >> 7),
        r7 == (r6 << 1) | (r6 >> 7),
        r8 == (r7 << 1) | (r7 >> 7),
    ensures
        r8 == v,
        r7 >= 128 <==> v % 2 == 1,
{
}

/// Rotating a byte left eight times gives the byte back. The carry that the
/// eighth rotation leaves, which is the top bit of the byte after seven
/// rotations, is the lowest bit of the byte.
pub proof fn law_rotate_left_eight(v: u8)
    ensures
        rlc_times(v, 8) == v,
        top_bit(rlc_times(v, 7)) == bottom_bit(v),
{
    reveal_with_fuel(rlc_times, 9);
    let r1 = rlc_value(v);
    let r2 = rlc_value(r1);
    let r3 = rlc_value(r2);
    let r4 = rlc_value(r3);
    let r5 = rlc_value(r4);
    let r6 = rlc_value(r5);
    let r7 = rlc_value(r6);
    let r8 = rlc_value(r7);
    lemma_left_shift(v);
    lemma_left_shift(r1);
    lemma_left_shift(r2);
    lemma_left_shift(r3);
    lemma_left_shift(r4);
    lemma_left_shift(r5);
    lemma_left_shift(r6);
    lemma_left_shift(r7);
    lemma_rotate_chain(v, r1, r2, r3, r4, r5, r6, r7, r8);
}

/// For a byte whose lowest and top bits agree, the carry after eight
/// rotations to the left is the top bit of the byte.
pub proof fn law_rotate_left_eight_carry(v: u8)
    requires
        bottom_bit(v) == top_bit(v),
    ensures
        rlc_times(v, 8) == v,
        top_bit(rlc_times(v, 7)) == top_bit(v),
{
    law_rotate_left_eight(v);
}

/// What a push followed by a pop of the same register pair leaves.
proof fn lemma_push_pop(m: Machine, reg: R16Stk)
    requires
        m.mem.len() == 65536,
    ensures
        ({
            let pushed = m.after_stack(Op::PushR16stk { reg });
            let popped = pushed.after_stack(Op::PopR16stk { reg });
            &&& pushed.top() == m.stack_pair(reg)
            &&& popped.regs().sp == m.regs().sp
            &&& popped.regs().pc == m.regs().pc
            &&& reg != R16Stk::AF ==> popped.cpu == m.cpu
            &&& reg == R16Stk::AF ==> popped.cpu == m.with_flags(m.flags()).cpu
        }),
{
    reveal(Machine::after_stack);
    let sp = m.regs().sp;
    let word = m.stack_pair(reg);
    let pushed = m.push(word);
    lemma_wrap_word(sp - 1);
    lemma_wrap_word(sp - 2);
    lemma_wrap_word(sub16_value(sp, 2) + 1);
    lemma_wrap_word(sub16_value(sp, 2) + 2);
    lemma_join_split(word, 0, 0);
    assert(pushed.regs().sp == sub16_value(sp, 2));
    assert(next_addr(pushed.regs().sp) == sub16_value(sp, 1));
    assert(pushed.mem[sub16_value(sp, 1) as int] == high(word));
    assert(pushed.mem[sub16_value(sp, 2) as int] == low(word));
    assert(pushed.top() == word);
    assert(pushed.drop_top().regs() == m.regs());
}

/// A push followed by a pop of the same register pair gives the pair its
/// value back and the stack pointer its place, wherever the stack lies. In
/// AF the accumulator comes back, and the flags come back without their low
/// nibble, whatever it held before the push. No other register changes.
pub proof fn law_push_pop(m: Machine, reg: R16Stk)
    requires
        m.mem.len() == 65536,
    ensures
        ({
            let pushed = execute_spec(m, Op::PushR16stk { reg });
            let popped = execute_spec(pushed, Op::PopR16stk { reg });
            &&& pushed.top() == m.stack_pair(reg)
            &&& popped.regs().sp == m.regs().sp
            &&& popped.regs().pc == m.regs().pc
            &&& reg != R16Stk::AF ==> popped.cpu == m.cpu
            &&& reg == R16Stk::AF ==> popped.cpu == m.with_flags(m.flags()).cpu
        }),
{
    lemma_push_pop(m, reg);
}

/// Cutting the low nibble off the flags leaves the accumulator and the four
/// flags, and nothing in the low nibble.
pub proof fn law_flags_masked(m: Machine)
    ensures
        m.with_flags(m.flags()).a() == m.a(),
        m.with_flags(m.flags()).flags() == flag_bits(m.flags()),
        m.with_flags(m.flags()).regs().wf(),
        zero_flag(m.with_flags(m.flags()).flags()) == zero_flag(m.flags()),
        subtract_flag(m.with_flags(m.flags()).flags()) == subtract_flag(m.flags()),
        half_carry_flag(m.with_flags(m.flags()).flags()) == half_carry_flag(m.flags()),
        carry_flag(m.with_flags(m.flags()).flags()) == carry_flag(m.flags()),
        m.regs().wf() ==> m.with_flags(m.flags()) == m,
{
}

/// A conditional absolute jump at the program counter. Where the condition
/// does not hold, the step only moves the program counter past the three
/// bytes of the instruction. Where it holds, the step only sets the program
/// counter to the word that follows the opcode.
pub proof fn law_conditional_jump(m: Machine, cond: Cond)
    requires
        fetch_spec(m.mem, m.regs().pc) == (Op::JpCondImm16 { cond }),
    ensures
        (Op::JpCondImm16 { cond }).spec_length() == 3,
        !m.holds(cond) ==> step_spec(m) == m.advance(3),
        m.holds(cond) ==> step_spec(m) == m.jump(word_at(m.mem, next_addr(m.regs().pc))),
{
    reveal(Machine::after_jump);
    let pc = m.regs().pc;
    lemma_wrap_word(pc + 1);
    lemma_wrap_word(pc + 3);
    lemma_wrap_word(next_addr(pc) + 2);
}

/// A conditional relative jump at the program counter. Where the condition
/// does not hold, the step only moves the program counter past the two
/// bytes of the instruction. Where it holds, the step only sets the program
/// counter to the address of the next instruction moved by the signed
/// offset that follows the opcode.
pub proof fn law_conditional_relative_jump(m: Machine, cond: Cond)
    requires
        fetch_spec(m.mem, m.regs().pc) == (Op::JrCondImm8 { cond }),
    ensures
        (Op::JrCondImm8 { cond }).spec_length() == 2,
        !m.holds(cond) ==> step_spec(m) == m.advance(2),
        m.holds(cond) ==> step_spec(m) == m.advance(2).jump_by(m.load(next_addr(m.regs().pc))),
{
    reveal(Machine::after_jump);
    let pc = m.regs().pc;
    lemma_wrap_word(pc + 1);
    lemma_wrap_word(pc + 2);
    lemma_wrap_word(next_addr(pc) + 1);
}

/// A conditional jump, call or return whose condition does not hold only
/// moves the program counter past the instruction: to the next instruction
/// in sequence. Nothing else changes, in the processor or in memory.
pub proof fn law_untaken_branch(m: Machine)
    requires
        fetch_spec(m.mem, m.regs().pc).condition() is Some,
        !m.holds(fetch_spec(m.mem, m.regs().pc).condition().unwrap()),
    ensures
        step_spec(m) == m.advance(fetch_spec(m.mem, m.regs().pc).spec_length()),
{
    reveal(Machine::after_jump);
    let pc = m.regs().pc;
    lemma_wrap_word(pc + 1);
    lemma_wrap_word(pc + 2);
    lemma_wrap_word(pc + 3);
    lemma_wrap_word(next_addr(pc) + 1);
    lemma_wrap_word(next_addr(pc) + 2);
}

/// Writing an 8-bit operand, a register or the byte at HL, changes no flag.
proof fn lemma_operand_keeps_flags(m: Machine, reg: R8, value: u8)
    ensures
        m.with_operand(reg, value).flags() == m.flags(),
        m.with_a(value).flags() == m.flags(),
{
    lemma_flags_apart(m.regs(), Register8::A, value, 0);
    match reg.spec_register() {
        Some(register) => {
            lemma_flags_apart(m.regs(), register, value, 0);
        },
        None => {},
    }
}

/// A load or a store changes no flag.
pub proof fn law_loads_keep_flags(m: Machine, op: Op)
    ensures
        m.after_load(op).flags() == m.flags(),
{
    reveal(Machine::after_load);
    match op {
        Op::LdAR16mem { src } => {
            lemma_operand_keeps_flags(m, R8::A, m.load(m.pointer(src)));
        },
        Op::LdR8Imm8 { dst } => {
            lemma_operand_keeps_flags(m.advance(1), dst, m.imm8());
        },
        Op::LdR8R8 { dst, src } => {
            lemma_operand_keeps_flags(m, dst, m.operand(src));
        },
        Op::LdhACref => {
            lemma_operand_keeps_flags(m, R8::A, m.load(high_page(m.regs().spec_c())));
        },
        Op::LdhAImm8ref => {
            lemma_operand_keeps_flags(m.advance(1), R8::A, m.load(high_page(m.imm8())));
        },
        Op::LdAImm16ref => {
            lemma_operand_keeps_flags(m.advance(2), R8::A, m.load(m.imm16()));
        },
        _ => {},
    }
}

/// An increment or a decrement of a register pair changes neither a flag
/// nor memory, and no register but the pair.
pub proof fn law_pair_steps_keep_flags_and_memory(m: Machine, reg: R16)
    ensures
        m.after_step(Op::IncR16 { op: reg }) == m.with_pair(reg, add16_value(m.pair(reg), 1)),
        m.after_step(Op::DecR16 { op: reg }) == m.with_pair(reg, sub16_value(m.pair(reg), 1)),
        m.with_pair(reg, add16_value(m.pair(reg), 1)).mem == m.mem,
        m.with_pair(reg, sub16_value(m.pair(reg), 1)).mem == m.mem,
        m.with_pair(reg, add16_value(m.pair(reg), 1)).regs().af == m.regs().af,
        m.with_pair(reg, sub16_value(m.pair(reg), 1)).regs().af == m.regs().af,
{
    reveal(Machine::after_step);
}

/// A comparison leaves the accumulator and every register but the flags,
/// and its flags are those of the subtraction that it stands for.
pub proof fn law_compare_keeps_accumulator(regs: Registers, value: u8)
    ensures
        regs.after_alu(Op::CpAImm8, value).spec_a() == regs.spec_a(),
        regs.after_alu(Op::CpAImm8, value).spec_f() == regs.after_alu(Op::SubAImm8, value).spec_f(),
        regs.after_alu(Op::CpAImm8, value) == regs.with_f(sub_flags(regs.spec_a(), value, false)),
        regs.after_alu(Op::SubAImm8, value).spec_a() == sub_value(regs.spec_a(), value, false),
{
    lemma_flags_apart(
        regs,
        Register8::A,
        sub_value(regs.spec_a(), value, false),
        sub_flags(regs.spec_a(), value, false),
    );
    lemma_flags_overwrite(regs, sub_flags(regs.spec_a(), value, false), 0);
}

/// A bit test changes neither the operand nor any register but the flags
/// nor memory. It sets Zero if and only if the bit is clear, sets
/// Half-Carry, clears Subtract and leaves Carry.
pub proof fn law_bit_test(m: Machine, index: u8, reg: R8)
    ensures
        ({
            let after = m.after_extended(Op::CBBitB3R8 { bi: index, op: reg });
            &&& after == m.with_flags(bit_flags(m.operand(reg), index, m.flags()))
            &&& after.mem == m.mem
            &&& after.a() == m.a()
            &&& after.operand(reg) == m.operand(reg)
            &&& zero_flag(after.flags()) == !bit_is_set(m.operand(reg), index)
            &&& half_carry_flag(after.flags())
            &&& !subtract_flag(after.flags())
            &&& carry_flag(after.flags()) == carry_flag(m.flags())
        }),
{
    reveal(Machine::after_extended);
    let flags = bit_flags(m.operand(reg), index, m.flags());
    lemma_flags_byte(!bit_is_set(m.operand(reg), index), false, true, carry_flag(m.flags()));
    lemma_flags_overwrite(m.regs(), flags, 0);
    match reg.spec_register() {
        Some(r) => {
            lemma_flags_apart(m.regs(), r, 0, flags);
        },
        None => {},
    }
}

/// Setting or clearing a bit changes no flag.
pub proof fn law_bit_writes_keep_flags(m: Machine, index: u8, reg: R8)
    ensures
        m.after_extended(Op::CBSetB3R8 { bi: index, op: reg }).flags() == m.flags(),
        m.after_extended(Op::CBResB3R8 { bi: index, op: reg }).flags() == m.flags(),
{
    reveal(Machine::after_extended);
    match reg.spec_register() {
        Some(r) => {
            lemma_flags_apart(m.regs(), r, set_value(m.operand(reg), index), 0);
            lemma_flags_apart(m.regs(), r, res_value(m.operand(reg), index), 0);
        },
        None => {},
    }
}

/// The program counter after a load or a store: it has passed the immediate
/// operand and nothing more.
proof fn lemma_load_passes_immediate(m: Machine, op: Op)
    requires
        op.spec_family() == Family::Load,
    ensures
        m.after_load(op).regs().pc == m.advance(op.immediate_length()).regs().pc,
{
    reveal(Machine::after_load);
    lemma_wrap_word(m.regs().pc + 0);
}

/// The program counter after an arithmetic or logic instruction on an 8-bit
/// operand: it has passed the immediate operand and nothing more.
proof fn lemma_alu_r8_passes_immediate(m: Machine, op: Op)
    requires
        op.spec_family() == Family::AluR8,
    ensures
        m.after_alu_r8(op).regs().pc == m.advance(op.immediate_length()).regs().pc,
{
    reveal(Machine::after_alu_r8);
    lemma_wrap_word(m.regs().pc + 0);
}

/// The program counter after an arithmetic or logic instruction on the
/// immediate byte: it has passed the immediate operand and nothing more.
proof fn lemma_alu_imm8_passes_immediate(m: Machine, op: Op)
    requires
        op.spec_family() == Family::AluImm8,
    ensures
        m.after_alu_imm8(op).regs().pc == m.advance(op.immediate_length()).regs().pc,
{
    reveal(Machine::after_alu_imm8);
    lemma_wrap_word(m.regs().pc + 0);
}

/// The program counter after an increment, a decrement or a 16-bit addition:
/// it has passed the immediate operand and nothing more.
proof fn lemma_step_passes_immediate(m: Machine, op: Op)
    requires
        op.spec_family() == Family::Step,
    ensures
        m.after_step(op).regs().pc == m.advance(op.immediate_length()).regs().pc,
{
    reveal(Machine::after_step);
    lemma_wrap_word(m.regs().pc + 0);
}

/// The program counter after an instruction on the accumulator or the flags
/// alone: it has passed the immediate operand and nothing more.
proof fn lemma_accumulator_passes_immediate(m: Machine, op: Op)
    requires
        op.spec_family() == Family::Accumulator,
    ensures
        m.after_accumulator(op).regs().pc == m.advance(op.immediate_length()).regs().pc,
{
    reveal(Machine::after_accumulator);
    lemma_wrap_word(m.regs().pc + 0);
}

/// The program counter after a push or a pop: it has passed the immediate
/// operand and nothing more.
proof fn lemma_stack_passes_immediate(m: Machine, op: Op)
    requires
        op.spec_family() == Family::Stack,
    ensures
        m.after_stack(op).regs().pc == m.advance(op.immediate_length()).regs().pc,
{
    reveal(Machine::after_stack);
    lemma_wrap_word(m.regs().pc + 0);
}

/// The program counter after an instruction of the extended table: it has
/// passed the immediate operand and nothing more.
proof fn lemma_extended_passes_immediate(m: Machine, op: Op)
    requires
        op.spec_family() == Family::Extended,
    ensures
        m.after_extended(op).regs().pc == m.advance(op.immediate_length()).regs().pc,
{
    reveal(Machine::after_extended);
    lemma_wrap_word(m.regs().pc + 0);
}

/// The program counter after an instruction that is no jump, call or
/// return, where `m` stands behind its opcode: it has passed the immediate
/// operand and nothing more.
proof fn lemma_passes_immediate(m: Machine, op: Op)
    requires
        op.executable(),
        !op.transfers(),
    ensures
        execute_spec(m, op).regs().pc == m.advance(op.immediate_length()).regs().pc,
{
    match op.spec_family() {
        Family::Load => lemma_load_passes_immediate(m, op),
        Family::AluR8 => lemma_alu_r8_passes_immediate(m, op),
        Family::AluImm8 => lemma_alu_imm8_passes_immediate(m, op),
        Family::Step => lemma_step_passes_immediate(m, op),
        Family::Accumulator => lemma_accumulator_passes_immediate(m, op),
        Family::Stack => lemma_stack_passes_immediate(m, op),
        Family::Extended => lemma_extended_passes_immediate(m, op),
        _ => lemma_wrap_word(m.regs().pc + 0),
    }
}

/// A step that executes an instruction that is no jump, call or return
/// leaves the program counter on the next instruction in sequence: it has
/// moved by the length of the instruction, modulo 65536.
pub proof fn law_sequential(m: Machine)
    requires
        fetch_spec(m.mem, m.regs().pc).executable(),
        !fetch_spec(m.mem, m.regs().pc).transfers(),
    ensures
        step_spec(m).regs().pc == m.advance(fetch_spec(m.mem, m.regs().pc).spec_length()).regs().pc,
{
    let op = fetch_spec(m.mem, m.regs().pc);
    let pc = m.regs().pc;
    lemma_passes_immediate(m.advance(op.opcode_length()), op);
    lemma_wrap_word(pc + op.opcode_length());
    lemma_wrap_word(pc + op.spec_length());
    lemma_wrap_word(m.advance(op.opcode_length()).regs().pc + op.immediate_length());
}

/// Whether both nibbles of `x` are decimal digits.
pub open spec fn is_packed_decimal(x: u8) -> bool {
    x % 16 <= 9 && x / 16 <= 9
}

/// The number from 0 to 99 that the packed decimal byte `x` stands for.
pub open spec fn decimal_of(x: u8) -> int {
    (x / 16) * 10 + x % 16
}

/// The packed decimal byte that stands for `n`, a number from 0 to 99.
pub open spec fn packed_decimal(n: int) -> u8 {
    ((n / 10) * 16 + n % 10) as u8
}

/// A number that is a multiple of `d` plus a remainder below `d` has that
/// quotient and that remainder.
proof fn lemma_quotient(n: int, d: int, q: int, r: int)
    by (nonlinear_arith)
    requires
        d > 0,
        n == q * d + r,
        0 <= r < d,
    ensures
        n / d == q,
        n % d == r,
{
}

/// Decimal adjustment after an addition of two packed decimal bytes leaves
/// the packed decimal sum modulo 100 in the accumulator. Carry says whether
/// the sum reached 100, Zero whether its last two digits are zero, and
/// Half-Carry is clear.
pub proof fn law_decimal_adjust_after_add(x: u8, y: u8)
    requires
        is_packed_decimal(x),
        is_packed_decimal(y),
    ensures
        ({
            let sum = add_value(x, y, false);
            let flags = add_flags(x, y, false);
            let total = decimal_of(x) + decimal_of(y);
            &&& daa_value(sum, flags) == packed_decimal(total % 100)
            &&& carry_flag(daa_flags(sum, flags)) == (total >= 100)
            &&& zero_flag(daa_flags(sum, flags)) == (total % 100 == 0)
            &&& !half_carry_flag(daa_flags(sum, flags))
            &&& !subtract_flag(daa_flags(sum, flags))
        }),
{
    let xh = (x / 16) as int;
    let xl = (x % 16) as int;
    let yh = (y / 16) as int;
    let yl = (y % 16) as int;
    let low = xl + yl;
    let c1: int = if low >= 10 { 1 } else { 0 };
    let high = xh + yh + c1;
    let c2: int = if high >= 10 { 1 } else { 0 };
    let dl = low - 10 * c1;
    let dh = high - 10 * c2;
    let s = x + y;
    let sum = add_value(x, y, false);
    let flags = add_flags(x, y, false);
    let total = decimal_of(x) + decimal_of(y);
    assert(s == 16 * (xh + yh) + low);
    assert(total == 100 * c2 + 10 * dh + dl);
    lemma_quotient(total, 100, c2, 10 * dh + dl);
    lemma_quotient(10 * dh + dl, 10, dh, dl);
    assert(packed_decimal(total % 100) == 16 * dh + dl);
    lemma_wrap_byte(s);
    assert(sum == if s > 255 { s - 256 } else { s });
    let sl = if low > 15 { low - 16 } else { low };
    let sq = if low > 15 { xh + yh + 1 } else { xh + yh };
    if s > 255 {
        lemma_quotient(sum as int, 16, sq - 16, sl);
    } else {
        lemma_quotient(sum as int, 16, sq, sl);
    }
    assert(sum % 16 == sl);
    lemma_flags_byte(sum == 0, false, xl + yl > 15, s > 255);
    assert(daa_low(sum, flags) == (c1 == 1));
    assert(daa_high(sum, flags) == (c2 == 1));
    let adjusted = sum + daa_correction(sum, flags);
    lemma_wrap_byte(adjusted);
    assert(daa_value(sum, flags) == 16 * dh + dl);
    lemma_flags_byte(daa_value(sum, flags) == 0, false, false, daa_high(sum, flags));
}

/// Decimal adjustment after a subtraction of two packed decimal bytes
/// leaves the packed decimal difference modulo 100 in the accumulator.
/// Carry says whether the subtraction borrowed, Zero whether the last two
/// digits of the difference are zero, and Half-Carry is clear.
pub proof fn law_decimal_adjust_after_sub(x: u8, y: u8)
    requires
        is_packed_decimal(x),
        is_packed_decimal(y),
    ensures
        ({
            let diff = sub_value(x, y, false);
            let flags = sub_flags(x, y, false);
            let rest = decimal_of(x) - decimal_of(y);
            &&& daa_value(diff, flags) == packed_decimal(rest % 100)
            &&& carry_flag(daa_flags(diff, flags)) == (rest < 0)
            &&& zero_flag(daa_flags(diff, flags)) == (rest % 100 == 0)
            &&& !half_carry_flag(daa_flags(diff, flags))
            &&& subtract_flag(daa_flags(diff, flags))
        }),
{
    let xh = (x / 16) as int;
    let xl = (x % 16) as int;
    let yh = (y / 16) as int;
    let yl = (y % 16) as int;
    let b1: int = if xl < yl { 1 } else { 0 };
    let b2: int = if xh - b1 < yh { 1 } else { 0 };
    let dl = xl - yl + 10 * b1;
    let dh = xh - yh - b1 + 10 * b2;
    let d = x - y;
    let diff = sub_value(x, y, false);
    let flags = sub_flags(x, y, false);
    let rest = decimal_of(x) - decimal_of(y);
    assert(d == 16 * (xh - yh) + (xl - yl));
    assert(rest == -100 * b2 + 10 * dh + dl);
    lemma_quotient(rest, 100, -b2, 10 * dh + dl);
    lemma_quotient(10 * dh + dl, 10, dh, dl);
    assert(packed_decimal(rest % 100) == 16 * dh + dl);
    lemma_wrap_byte(d);
    assert(diff == if d < 0 { d + 256 } else { d });
    assert((x < y) == (b2 == 1));
    lemma_flags_byte(diff == 0, true, xl < yl, x < y);
    assert(daa_low(diff, flags) == (b1 == 1));
    assert(daa_high(diff, flags) == (b2 == 1));
    let adjusted = diff - daa_correction(diff, flags);
    lemma_wrap_byte(adjusted);
    assert(daa_value(diff, flags) == 16 * dh + dl);
    lemma_flags_byte(daa_value(diff, flags) == 0, true, false, daa_high(diff, flags));
}

/// Whether the low nibble of the flags register is clear.
#[verifier::opaque]
spec fn clean(regs: Registers) -> bool {
    regs.wf()
}

/// Writing the flags leaves their low nibble clear, and writing any other
/// register leaves the flags register as it is.
proof fn lemma_writes_keep_clean()
    ensures
        forall|regs: Registers, value: u8| clean(#[trigger] regs.with_f(value)),
        forall|regs: Registers, value: u8| clean(#[trigger] regs.with_a(value)) == clean(regs),
        forall|regs: Registers, reg: Register8, value: u8|
            clean(#[trigger] regs.with_r8(reg, value)) == clean(regs),
        forall|regs: Registers, reg: R16, value: u16|
            clean(#[trigger] regs.with_r16(reg, value)) == clean(regs),
        forall|regs: Registers, pc: u16| clean(#[trigger] regs.with_pc(pc)) == clean(regs),
{
    reveal(clean);
    assert forall|regs: Registers, reg: Register8, value: u8|
        clean(#[trigger] regs.with_r8(reg, value)) == clean(regs) by {
        lemma_flags_apart(regs, reg, value, 0);
    }
}

/// An instruction of one family leaves the low nibble of the flags clear.
proof fn lemma_load_keeps_clean(m: Machine, op: Op)
    requires
        clean(m.regs()),
    ensures
        clean(m.after_load(op).regs()),
{
    reveal(Machine::after_load);
    lemma_writes_keep_clean();
}

/// An instruction of one family leaves the low nibble of the flags clear.
proof fn lemma_alu_r8_keeps_clean(m: Machine, op: Op)
    requires
        clean(m.regs()),
    ensures
        clean(m.after_alu_r8(op).regs()),
{
    reveal(Machine::after_alu_r8);
    lemma_writes_keep_clean();
}

/// An instruction of one family leaves the low nibble of the flags clear.
proof fn lemma_alu_imm8_keeps_clean(m: Machine, op: Op)
    requires
        clean(m.regs()),
    ensures
        clean(m.after_alu_imm8(op).regs()),
{
    reveal(Machine::after_alu_imm8);
    lemma_writes_keep_clean();
}

/// An instruction of one family leaves the low nibble of the flags clear.
proof fn lemma_step_keeps_clean(m: Machine, op: Op)
    requires
        clean(m.regs()),
    ensures
        clean(m.after_step(op).regs()),
{
    reveal(Machine::after_step);
    lemma_writes_keep_clean();
}

/// An instruction of one family leaves the low nibble of the flags clear.
proof fn lemma_accumulator_keeps_clean(m: Machine, op: Op)
    requires
        clean(m.regs()),
    ensures
        clean(m.after_accumulator(op).regs()),
{
    reveal(Machine::after_accumulator);
    lemma_writes_keep_clean();
}

/// An instruction of one family leaves the low nibble of the flags clear.
proof fn lemma_jump_keeps_clean(m: Machine, op: Op)
    requires
        clean(m.regs()),
    ensures
        clean(m.after_jump(op).regs()),
{
    reveal(Machine::after_jump);
    lemma_writes_keep_clean();
}

/// An instruction of one family leaves the low nibble of the flags clear.
proof fn lemma_stack_keeps_clean(m: Machine, op: Op)
    requires
        clean(m.regs()),
    ensures
        clean(m.after_stack(op).regs()),
{
    reveal(Machine::after_stack);
    lemma_writes_keep_clean();
}

/// An instruction of one family leaves the low nibble of the flags clear.
proof fn lemma_extended_keeps_clean(m: Machine, op: Op)
    requires
        clean(m.regs()),
    ensures
        clean(m.after_extended(op).regs()),
{
    reveal(Machine::after_extended);
    lemma_writes_keep_clean();
}

/// No instruction sets a bit in the low nibble of the flags register: where
/// it is clear before an instruction, it is clear after it.
pub proof fn law_execute_keeps_flags_clean(m: Machine, op: Op)
    requires
        m.regs().wf(),
    ensures
        execute_spec(m, op).regs().wf(),
{
    reveal(clean);
    match op.spec_family() {
        Family::Load => lemma_load_keeps_clean(m, op),
        Family::AluR8 => lemma_alu_r8_keeps_clean(m, op),
        Family::AluImm8 => lemma_alu_imm8_keeps_clean(m, op),
        Family::Step => lemma_step_keeps_clean(m, op),
        Family::Accumulator => lemma_accumulator_keeps_clean(m, op),
        Family::Jump => lemma_jump_keeps_clean(m, op),
        Family::Stack => lemma_stack_keeps_clean(m, op),
        Family::Extended => lemma_extended_keeps_clean(m, op),
        _ => {},
    }
}

/// No step sets a bit in the low nibble of the flags register.
pub proof fn law_step_keeps_flags_clean(m: Machine)
    requires
        m.regs().wf(),
    ensures
        step_spec(m).regs().wf(),
{
    let op = fetch_spec(m.mem, m.regs().pc);
    law_execute_keeps_flags_clean(m.advance(op.opcode_length()), op);
}

} // verus!
