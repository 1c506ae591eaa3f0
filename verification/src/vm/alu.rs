//! The arithmetic and logic unit: what each operation makes of its operand
//! bytes, and which flags it leaves. Nothing here touches a register or
//! memory; the results are stated over the integers.

use vstd::prelude::*;
use crate::vm::flags::{
    carry_flag, flags_byte, half_carry_flag, lemma_flag_masks, pack_flags, subtract_flag,
    zero_flag, Flags, F_CARRY, F_HALF_CARRY, F_SUBTRACTION, F_ZERO,
};

verus! {

/// A carry as a number: 1 if set, else 0.
pub open spec fn carry_in(carry: bool) -> int {
    if carry {
        1
    } else {
        0
    }
}

/// The sum of `a`, `v` and an incoming carry, modulo 256.
pub open spec fn add_value(a: u8, v: u8, carry: bool) -> u8 {
    ((a + v + carry_in(carry)) % 256) as u8
}

/// The flags after adding `v` and an incoming carry to `a`: Zero by the
/// result, Half-Carry on a carry out of bit 3, Carry on a carry out of bit 7.
pub open spec fn add_flags(a: u8, v: u8, carry: bool) -> Flags {
    flags_byte(
        add_value(a, v, carry) == 0,
        false,
        a % 16 + v % 16 + carry_in(carry) > 15,
        a + v + carry_in(carry) > 255,
    )
}

/// `a` less `v` and an incoming borrow, modulo 256.
pub open spec fn sub_value(a: u8, v: u8, carry: bool) -> u8 {
    ((a - v - carry_in(carry)) % 256) as u8
}

/// The flags after subtracting `v` and an incoming borrow from `a`: Zero by
/// the result, Subtract set, Half-Carry on a borrow into bit 3, Carry on a
/// borrow into bit 7.
pub open spec fn sub_flags(a: u8, v: u8, carry: bool) -> Flags {
    flags_byte(
        sub_value(a, v, carry) == 0,
        true,
        a % 16 < v % 16 + carry_in(carry),
        a < v + carry_in(carry),
    )
}

/// The flags after a bitwise and, or, or exclusive or with the result
/// `value`: Zero by the result; nothing carries from bit to bit, so
/// Half-Carry and Carry are clear, and so is Subtract.
pub open spec fn logic_flags(value: u8) -> Flags {
    flags_byte(value == 0, false, false, false)
}

/// `v` plus one, modulo 256.
pub open spec fn inc_value(v: u8) -> u8 {
    ((v + 1) % 256) as u8
}

/// The flags after incrementing `v` with the flags `f` before it: Carry
/// stays as it was.
pub open spec fn inc_flags(v: u8, f: Flags) -> Flags {
    flags_byte(v == 255, false, v % 16 == 15, carry_flag(f))
}

/// `v` less one, modulo 256.
pub open spec fn dec_value(v: u8) -> u8 {
    ((v - 1) % 256) as u8
}

/// The flags after decrementing `v` with the flags `f` before it: Carry
/// stays as it was.
pub open spec fn dec_flags(v: u8, f: Flags) -> Flags {
    flags_byte(v == 1, true, v % 16 == 0, carry_flag(f))
}

/// `v` rotated left by one bit: bit 7 comes back in as bit 0.
pub open spec fn rlc_value(v: u8) -> u8 {
    ((2 * v) % 256 + v / 128) as u8
}

/// `v` rotated right by one bit: bit 0 comes back in as bit 7.
pub open spec fn rrc_value(v: u8) -> u8 {
    (v / 2 + 128 * (v % 2)) as u8
}

/// `v` shifted left by one bit, with the incoming carry as the new bit 0.
pub open spec fn rl_value(v: u8, carry: bool) -> u8 {
    ((2 * v) % 256 + carry_in(carry)) as u8
}

/// `v` shifted right by one bit, with the incoming carry as the new bit 7.
pub open spec fn rr_value(v: u8, carry: bool) -> u8 {
    (v / 2 + 128 * carry_in(carry)) as u8
}

/// `v` shifted left by one bit; bit 0 becomes zero.
pub open spec fn sla_value(v: u8) -> u8 {
    ((2 * v) % 256) as u8
}

/// `v` shifted right by one bit; bit 7 keeps its value.
pub open spec fn sra_value(v: u8) -> u8 {
    (v / 2 + 128 * (v / 128)) as u8
}

/// `v` shifted right by one bit; bit 7 becomes zero.
pub open spec fn srl_value(v: u8) -> u8 {
    v / 2
}

/// `v` with its two nibbles exchanged.
pub open spec fn swap_value(v: u8) -> u8 {
    ((v % 16) * 16 + v / 16) as u8
}

/// The bit that a left rotate or shift of `v` moves out: bit 7.
pub open spec fn top_bit(v: u8) -> bool {
    v >= 128
}

/// The bit that a right rotate or shift of `v` moves out: bit 0.
pub open spec fn bottom_bit(v: u8) -> bool {
    v % 2 == 1
}

/// The flags after a rotate, a shift or a nibble swap that gave `value` and
/// moved the bit `carry` out: Subtract and Half-Carry are cleared.
pub open spec fn shift_flags(value: u8, carry: bool) -> Flags {
    flags_byte(value == 0, false, false, carry)
}

/// The flags after one of the four rotates of the accumulator that have an
/// opcode of their own, with the flags `f` before it: as `shift_flags`, but
/// Zero stays as it was.
pub open spec fn rotate_a_flags(f: Flags, carry: bool) -> Flags {
    flags_byte(zero_flag(f), false, false, carry)
}

/// Whether bit `index % 8` of `v` is set.
pub open spec fn bit_is_set(v: u8, index: u8) -> bool {
    v & (1u8 << (index % 8)) != 0
}

/// The flags after testing bit `index % 8` of `v` with the flags `f` before
/// it: Zero is set if and only if the bit is clear, Half-Carry is set,
/// Subtract is cleared and Carry stays.
pub open spec fn bit_flags(v: u8, index: u8, f: Flags) -> Flags {
    flags_byte(!bit_is_set(v, index), false, true, carry_flag(f))
}

/// `v` with bit `index % 8` set.
pub open spec fn set_value(v: u8, index: u8) -> u8 {
    v | (1u8 << (index % 8))
}

/// `v` with bit `index % 8` cleared.
pub open spec fn res_value(v: u8, index: u8) -> u8 {
    v & !(1u8 << (index % 8))
}

/// Whether the decimal adjustment of `a` under the flags `f` corrects the
/// low digit by 6.
pub open spec fn daa_low(a: u8, f: Flags) -> bool {
    half_carry_flag(f) || (!subtract_flag(f) && a % 16 > 9)
}

/// Whether the decimal adjustment of `a` under the flags `f` corrects the
/// high digit by 0x60.
pub open spec fn daa_high(a: u8, f: Flags) -> bool {
    carry_flag(f) || (!subtract_flag(f) && a > 0x99)
}

/// The correction that the decimal adjustment of `a` under the flags `f`
/// applies: 0, 0x06, 0x60 or 0x66.
pub open spec fn daa_correction(a: u8, f: Flags) -> int {
    (if daa_low(a, f) { 0x06int } else { 0 }) + (if daa_high(a, f) { 0x60int } else { 0 })
}

/// The accumulator after decimal adjustment: the correction is added after
/// an addition and subtracted after a subtraction, modulo 256.
pub open spec fn daa_value(a: u8, f: Flags) -> u8 {
    if subtract_flag(f) {
        ((a - daa_correction(a, f)) % 256) as u8
    } else {
        ((a + daa_correction(a, f)) % 256) as u8
    }
}

/// The flags after decimal adjustment: Zero by the adjusted accumulator,
/// Subtract as before, Half-Carry cleared, Carry set if and only if the high
/// digit was corrected.
pub open spec fn daa_flags(a: u8, f: Flags) -> Flags {
    flags_byte(daa_value(a, f) == 0, subtract_flag(f), false, daa_high(a, f))
}

/// The accumulator with every bit inverted.
pub open spec fn cpl_value(a: u8) -> u8 {
    (255 - a) as u8
}

/// The flags after inverting the accumulator: Subtract and Half-Carry are
/// set, Zero and Carry stay.
pub open spec fn cpl_flags(f: Flags) -> Flags {
    flags_byte(zero_flag(f), true, true, carry_flag(f))
}

/// The flags after setting Carry: Subtract and Half-Carry are cleared, Zero
/// stays.
pub open spec fn scf_flags(f: Flags) -> Flags {
    flags_byte(zero_flag(f), false, false, true)
}

/// The flags after inverting Carry: Subtract and Half-Carry are cleared,
/// Zero stays.
pub open spec fn ccf_flags(f: Flags) -> Flags {
    flags_byte(zero_flag(f), false, false, !carry_flag(f))
}

/// The sum of two words, modulo 65536.
pub open spec fn add16_value(x: u16, y: u16) -> u16 {
    ((x + y) % 65536) as u16
}

/// The word `x` less the word `y`, modulo 65536.
pub open spec fn sub16_value(x: u16, y: u16) -> u16 {
    ((x - y) % 65536) as u16
}

/// The flags after adding the word `y` to `x` with the flags `f` before it:
/// Half-Carry on a carry out of bit 11, Carry on a carry out of bit 15,
/// Subtract cleared, Zero as before.
pub open spec fn add16_flags(x: u16, y: u16, f: Flags) -> Flags {
    flags_byte(zero_flag(f), false, x % 4096 + y % 4096 > 4095, x + y > 65535)
}

/// The byte `byte` read as a signed number, from -128 to 127.
pub open spec fn signed(byte: u8) -> int {
    if byte < 128 {
        byte as int
    } else {
        byte - 256
    }
}

/// The word `base` moved by the signed offset that `byte` encodes, modulo
/// 65536.
pub open spec fn offset_value(base: u16, byte: u8) -> u16 {
    ((base + signed(byte)) % 65536) as u16
}

/// The flags after adding a signed offset byte to a word: Half-Carry and
/// Carry are those of adding `byte`, unsigned, to the low byte of `base`;
/// Zero and Subtract are cleared.
pub open spec fn offset_flags(base: u16, byte: u8) -> Flags {
    flags_byte(false, false, base % 16 + byte % 16 > 15, base % 256 + byte > 255)
}

/// What the masks and the right shifts of the operations below compute on a
/// byte.
proof fn lemma_byte_bits(v: u8)
    by (bit_vector)
    ensures
        v & 0x0F == v % 16,
        v & 0x80 != 0 <==> v >= 128,
        v & 0x01 != 0 <==> v % 2 == 1,
        (v << 4) | (v >> 4) == (v % 16) * 16 + v / 16,
        (v >> 1) | (v << 7) == v / 2 + 128 * (v % 2),
        (v >> 1) | 0x80 == v / 2 + 128,
        (v >> 1) | (v & 0x80) == v / 2 + 128 * (v / 128),
        v >> 1 == v / 2,
        !v == 255 - v,
{
}

/// What the left shifts of the operations below compute on a byte.
pub proof fn lemma_left_shift(v: u8)
    by (bit_vector)
    ensures
        (v << 1) | (v >> 7) == (2 * v) % 256 + v / 128,
        (v << 1) | 1 == (2 * v) % 256 + 1,
        v << 1 == (2 * v) % 256,
{
}

/// What the masks of the 16-bit operations compute on a word.
proof fn lemma_word_bits(w: u16)
    by (bit_vector)
    ensures
        w & 0x00FF == w % 256,
        w & 0x000F == w % 16,
        w & 0x0FFF == w % 4096,
{
}

/// The remainder modulo 256 of a number that is less than 256 away from the
/// range of a byte.
pub proof fn lemma_wrap_byte(x: int)
    requires
        -256 <= x < 512,
    ensures
        x % 256 == if x < 0 {
            x + 256
        } else if x < 256 {
            x
        } else {
            x - 256
        },
{
}

/// The remainder modulo 65536 of a number that is less than 65536 away from
/// the range of a word.
pub proof fn lemma_wrap_word(x: int)
    requires
        -65536 <= x < 131072,
    ensures
        x % 65536 == if x < 0 {
            x + 65536
        } else if x < 65536 {
            x
        } else {
            x - 65536
        },
{
}

/// Adds `v` and, if `carry` is set, one more to `a`.
pub fn add8(a: u8, v: u8, carry: bool) -> (out: (u8, Flags))
    ensures
        out.0 == add_value(a, v, carry),
        out.1 == add_flags(a, v, carry),
{
    let cin: u8 = if carry { 1 } else { 0 };
    let sum: u16 = a as u16 + v as u16 + cin as u16;
    proof {
        lemma_word_bits(sum);
        lemma_byte_bits(a);
        lemma_byte_bits(v);
    }
    let value = (sum & 0x00FF) as u8;
    let half = (a & 0x0F) + (v & 0x0F) + cin > 0x0F;
    (value, pack_flags(value == 0, false, half, sum > 0x00FF))
}

/// Subtracts `v` and, if `carry` is set, one more from `a`.
pub fn sub8(a: u8, v: u8, carry: bool) -> (out: (u8, Flags))
    ensures
        out.0 == sub_value(a, v, carry),
        out.1 == sub_flags(a, v, carry),
{
    let cin: u8 = if carry { 1 } else { 0 };
    proof {
        lemma_byte_bits(a);
        lemma_byte_bits(v);
        lemma_wrap_byte(a - v - cin);
    }
    let value = a.wrapping_sub(v).wrapping_sub(cin);
    let half = (a & 0x0F) < (v & 0x0F) + cin;
    let borrow = (a as u16) < v as u16 + cin as u16;
    (value, pack_flags(value == 0, true, half, borrow))
}

/// The bitwise and of `a` and `v`.
pub fn and8(a: u8, v: u8) -> (out: (u8, Flags))
    ensures
        out.0 == a & v,
        out.1 == logic_flags(a & v),
{
    let value = a & v;
    (value, pack_flags(value == 0, false, false, false))
}

/// The bitwise exclusive or of `a` and `v`.
pub fn xor8(a: u8, v: u8) -> (out: (u8, Flags))
    ensures
        out.0 == a ^ v,
        out.1 == logic_flags(a ^ v),
{
    let value = a ^ v;
    (value, pack_flags(value == 0, false, false, false))
}

/// The bitwise or of `a` and `v`.
pub fn or8(a: u8, v: u8) -> (out: (u8, Flags))
    ensures
        out.0 == a | v,
        out.1 == logic_flags(a | v),
{
    let value = a | v;
    (value, pack_flags(value == 0, false, false, false))
}

/// Increments `v`; `flags` are the flags before it.
pub fn inc8(v: u8, flags: Flags) -> (out: (u8, Flags))
    ensures
        out.0 == inc_value(v),
        out.1 == inc_flags(v, flags),
{
    proof {
        lemma_byte_bits(v);
        lemma_flag_masks(flags);
    }
    let value = v.wrapping_add(1);
    (value, pack_flags(value == 0, false, v & 0x0F == 0x0F, flags & F_CARRY != 0))
}

/// Decrements `v`; `flags` are the flags before it.
pub fn dec8(v: u8, flags: Flags) -> (out: (u8, Flags))
    ensures
        out.0 == dec_value(v),
        out.1 == dec_flags(v, flags),
{
    proof {
        lemma_byte_bits(v);
        lemma_flag_masks(flags);
    }
    let value = v.wrapping_sub(1);
    (value, pack_flags(value == 0, true, v & 0x0F == 0, flags & F_CARRY != 0))
}

/// Rotates `v` left by one bit.
pub fn rlc8(v: u8) -> (out: (u8, Flags))
    ensures
        out.0 == rlc_value(v),
        out.1 == shift_flags(rlc_value(v), top_bit(v)),
{
    proof {
        lemma_byte_bits(v);
        lemma_left_shift(v);
    }
    let value = (v << 1) | (v >> 7);
    (value, pack_flags(value == 0, false, false, v & 0x80 != 0))
}

/// Rotates `v` right by one bit.
pub fn rrc8(v: u8) -> (out: (u8, Flags))
    ensures
        out.0 == rrc_value(v),
        out.1 == shift_flags(rrc_value(v), bottom_bit(v)),
{
    proof {
        lemma_byte_bits(v);
    }
    let value = (v >> 1) | (v << 7);
    (value, pack_flags(value == 0, false, false, v & 0x01 != 0))
}

/// Rotates `v` left by one bit through the carry: the carry comes in as
/// bit 0, and bit 7 becomes the new carry.
pub fn rl8(v: u8, carry: bool) -> (out: (u8, Flags))
    ensures
        out.0 == rl_value(v, carry),
        out.1 == shift_flags(rl_value(v, carry), top_bit(v)),
{
    proof {
        lemma_byte_bits(v);
        lemma_left_shift(v);
    }
    let value = if carry { (v << 1) | 1 } else { v << 1 };
    (value, pack_flags(value == 0, false, false, v & 0x80 != 0))
}

/// Rotates `v` right by one bit through the carry: the carry comes in as
/// bit 7, and bit 0 becomes the new carry.
pub fn rr8(v: u8, carry: bool) -> (out: (u8, Flags))
    ensures
        out.0 == rr_value(v, carry),
        out.1 == shift_flags(rr_value(v, carry), bottom_bit(v)),
{
    proof {
        lemma_byte_bits(v);
    }
    let value = if carry { (v >> 1) | 0x80 } else { v >> 1 };
    (value, pack_flags(value == 0, false, false, v & 0x01 != 0))
}

/// Shifts `v` left by one bit.
pub fn sla8(v: u8) -> (out: (u8, Flags))
    ensures
        out.0 == sla_value(v),
        out.1 == shift_flags(sla_value(v), top_bit(v)),
{
    proof {
        lemma_byte_bits(v);
        lemma_left_shift(v);
    }
    let value = v << 1;
    (value, pack_flags(value == 0, false, false, v & 0x80 != 0))
}

/// Shifts `v` right by one bit and keeps its sign bit.
pub fn sra8(v: u8) -> (out: (u8, Flags))
    ensures
        out.0 == sra_value(v),
        out.1 == shift_flags(sra_value(v), bottom_bit(v)),
{
    proof {
        lemma_byte_bits(v);
    }
    let value = (v >> 1) | (v & 0x80);
    (value, pack_flags(value == 0, false, false, v & 0x01 != 0))
}

/// Shifts `v` right by one bit and clears bit 7.
pub fn srl8(v: u8) -> (out: (u8, Flags))
    ensures
        out.0 == srl_value(v),
        out.1 == shift_flags(srl_value(v), bottom_bit(v)),
{
    proof {
        lemma_byte_bits(v);
    }
    let value = v >> 1;
    (value, pack_flags(value == 0, false, false, v & 0x01 != 0))
}

/// Exchanges the two nibbles of `v`.
pub fn swap8(v: u8) -> (out: (u8, Flags))
    ensures
        out.0 == swap_value(v),
        out.1 == shift_flags(swap_value(v), false),
{
    proof {
        lemma_byte_bits(v);
    }
    let value = (v << 4) | (v >> 4);
    (value, pack_flags(value == 0, false, false, false))
}

/// The mask of bit `index % 8`.
fn bit_mask(index: u8) -> (mask: u8)
    ensures
        mask == 1u8 << (index % 8),
{
    1u8 << (index % 8)
}

/// Tests bit `index % 8` of `v`; `flags` are the flags before it.
pub fn bit8(v: u8, index: u8, flags: Flags) -> (out: Flags)
    ensures
        out == bit_flags(v, index, flags),
{
    proof {
        lemma_flag_masks(flags);
    }
    pack_flags(v & bit_mask(index) == 0, false, true, flags & F_CARRY != 0)
}

/// Sets bit `index % 8` of `v`.
pub fn set8(v: u8, index: u8) -> (out: u8)
    ensures
        out == set_value(v, index),
{
    v | bit_mask(index)
}

/// Clears bit `index % 8` of `v`.
pub fn res8(v: u8, index: u8) -> (out: u8)
    ensures
        out == res_value(v, index),
{
    v & !bit_mask(index)
}

/// Decimal adjustment: corrects the accumulator `a` after an addition or a
/// subtraction of two packed decimal numbers; `flags` are the flags that
/// the operation left.
pub fn daa8(a: u8, flags: Flags) -> (out: (u8, Flags))
    ensures
        out.0 == daa_value(a, flags),
        out.1 == daa_flags(a, flags),
{
    proof {
        lemma_flag_masks(flags);
        lemma_byte_bits(a);
    }
    let subtract = flags & F_SUBTRACTION != 0;
    let mut adj: u8 = 0;
    let mut carry = false;
    if flags & F_HALF_CARRY != 0 || (!subtract && (a & 0x0F) > 0x09) {
        adj += 0x06;
    }
    if flags & F_CARRY != 0 || (!subtract && a > 0x99) {
        adj += 0x60;
        carry = true;
    }
    proof {
        assert(adj == daa_correction(a, flags));
        lemma_wrap_byte(a - adj);
        lemma_wrap_byte(a + adj);
    }
    let value = if subtract { a.wrapping_sub(adj) } else { a.wrapping_add(adj) };
    (value, pack_flags(value == 0, subtract, false, carry))
}

/// Inverts every bit of the accumulator `a`; `flags` are the flags before
/// it.
pub fn cpl8(a: u8, flags: Flags) -> (out: (u8, Flags))
    ensures
        out.0 == cpl_value(a),
        out.1 == cpl_flags(flags),
{
    proof {
        lemma_flag_masks(flags);
        lemma_byte_bits(a);
    }
    (!a, pack_flags(flags & F_ZERO != 0, true, true, flags & F_CARRY != 0))
}

/// The flags after setting Carry; `flags` are the flags before it.
pub fn scf(flags: Flags) -> (out: Flags)
    ensures
        out == scf_flags(flags),
{
    proof {
        lemma_flag_masks(flags);
    }
    pack_flags(flags & F_ZERO != 0, false, false, true)
}

/// The flags after inverting Carry; `flags` are the flags before it.
pub fn ccf(flags: Flags) -> (out: Flags)
    ensures
        out == ccf_flags(flags),
{
    proof {
        lemma_flag_masks(flags);
    }
    pack_flags(flags & F_ZERO != 0, false, false, flags & F_CARRY == 0)
}

/// Adds the word `y` to `x`; `flags` are the flags before it.
pub fn add16(x: u16, y: u16, flags: Flags) -> (out: (u16, Flags))
    ensures
        out.0 == add16_value(x, y),
        out.1 == add16_flags(x, y, flags),
{
    proof {
        lemma_flag_masks(flags);
        lemma_word_bits(x);
        lemma_word_bits(y);
    }
    let value = x.wrapping_add(y);
    let half = (x & 0x0FFF) + (y & 0x0FFF) > 0x0FFF;
    let carry = x as u32 + y as u32 > 0xFFFF;
    (value, pack_flags(flags & F_ZERO != 0, false, half, carry))
}

/// Moves the word `base` by the signed offset that `byte` encodes.
pub fn offset16(base: u16, byte: u8) -> (out: (u16, Flags))
    ensures
        out.0 == offset_value(base, byte),
        out.1 == offset_flags(base, byte),
{
    proof {
        lemma_word_bits(base);
        lemma_byte_bits(byte);
    }
    let value = if byte < 0x80 {
        base.wrapping_add(byte as u16)
    } else {
        base.wrapping_sub(0x100 - byte as u16)
    };
    let half = (base & 0x000F) + (byte & 0x0F) as u16 > 0x000F;
    let carry = (base & 0x00FF) + byte as u16 > 0x00FF;
    (value, pack_flags(false, false, half, carry))
}

} // verus!
