//! The four condition flags, which live in the high nibble of the flags
//! register: bit 7 is Zero, bit 6 Subtract, bit 5 Half-Carry, bit 4 Carry.
//! The low nibble of the register is always zero.

use vstd::prelude::*;

verus! {

/// A flags byte, or a mask that selects flags in one.
pub type Flags = u8;

/// The result of the last operation was zero.
pub const F_ZERO: Flags = 0x80;

/// The last operation was a subtraction.
pub const F_SUBTRACTION: Flags = 0x40;

/// The last operation carried out of, or borrowed into, bit 3.
pub const F_HALF_CARRY: Flags = 0x20;

/// The last operation carried out of, or borrowed into, bit 7.
pub const F_CARRY: Flags = 0x10;

/// The flags byte in which exactly the given flags are set.
pub open spec fn flags_byte(zero: bool, subtract: bool, half_carry: bool, carry: bool) -> Flags {
    ((if zero { 128int } else { 0 }) + (if subtract { 64int } else { 0 })
        + (if half_carry { 32int } else { 0 }) + (if carry { 16int } else { 0 })) as u8
}

/// Whether Zero is set in the flags byte `f`.
pub open spec fn zero_flag(f: Flags) -> bool {
    (f / 128) % 2 == 1
}

/// Whether Subtract is set in the flags byte `f`.
pub open spec fn subtract_flag(f: Flags) -> bool {
    (f / 64) % 2 == 1
}

/// Whether Half-Carry is set in the flags byte `f`.
pub open spec fn half_carry_flag(f: Flags) -> bool {
    (f / 32) % 2 == 1
}

/// Whether Carry is set in the flags byte `f`.
pub open spec fn carry_flag(f: Flags) -> bool {
    (f / 16) % 2 == 1
}

/// `f` with its low nibble cleared: the part of a byte that the flags
/// register keeps.
pub open spec fn flag_bits(f: u8) -> Flags {
    (f - f % 16) as u8
}

/// What masking a flags byte with each of the four flag masks tells, and
/// what masking off the low nibble leaves.
pub proof fn lemma_flag_masks(f: u8)
    by (bit_vector)
    ensures
        (f & 0x80 != 0) == ((f / 128) % 2 == 1),
        (f & 0x40 != 0) == ((f / 64) % 2 == 1),
        (f & 0x20 != 0) == ((f / 32) % 2 == 1),
        (f & 0x10 != 0) == ((f / 16) % 2 == 1),
        f & 0xF0 == f - f % 16,
        (f & 0xF0) % 16 == 0,
        f & 0x10 == if (f / 16) % 2 == 1 {
            16u8
        } else {
            0u8
        },
{
}

/// Or-ing masks of distinct flags adds them up.
proof fn lemma_disjoint_masks(z: u8, n: u8, h: u8, c: u8)
    by (bit_vector)
    requires
        z == 0 || z == 0x80,
        n == 0 || n == 0x40,
        h == 0 || h == 0x20,
        c == 0 || c == 0x10,
    ensures
        z | n | h | c == z + n + h + c,
{
}

/// Builds the flags byte in which exactly the given flags are set.
pub fn pack_flags(zero: bool, subtract: bool, half_carry: bool, carry: bool) -> (f: Flags)
    ensures
        f == flags_byte(zero, subtract, half_carry, carry),
{
    let z: u8 = if zero { F_ZERO } else { 0 };
    let n: u8 = if subtract { F_SUBTRACTION } else { 0 };
    let h: u8 = if half_carry { F_HALF_CARRY } else { 0 };
    let c: u8 = if carry { F_CARRY } else { 0 };
    proof {
        lemma_disjoint_masks(z, n, h, c);
    }
    z | n | h | c
}

/// A packed flags byte gives back the four flags it was made from, and its
/// low nibble is zero.
pub proof fn lemma_flags_byte(zero: bool, subtract: bool, half_carry: bool, carry: bool)
    ensures
        zero_flag(flags_byte(zero, subtract, half_carry, carry)) == zero,
        subtract_flag(flags_byte(zero, subtract, half_carry, carry)) == subtract,
        half_carry_flag(flags_byte(zero, subtract, half_carry, carry)) == half_carry,
        carry_flag(flags_byte(zero, subtract, half_carry, carry)) == carry,
        flags_byte(zero, subtract, half_carry, carry) % 16 == 0,
        flag_bits(flags_byte(zero, subtract, half_carry, carry)) == flags_byte(
            zero,
            subtract,
            half_carry,
            carry,
        ),
{
}

} // verus!
