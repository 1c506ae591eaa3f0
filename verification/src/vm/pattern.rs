//! Families of opcodes: fixed bits, and up to two fields that hold operand
//! selectors.

use vstd::prelude::*;
use vstd::std_specs::bits::u8_trailing_zeros;

verus! {

/// A family of opcodes. The bits of `mask1` and of `mask2` are the two
/// fields of the opcode; every other bit is fixed, to its value in
/// `pattern`.
#[derive(Default, Debug, Clone, Copy)]
pub struct OpPattern {
    pub pattern: u8,
    pub mask1: u8,
    pub mask2: u8,
}

/// The field of `byte` that the bits of `mask` select, moved down so that
/// the lowest bit of the mask lands on bit 0.
pub open spec fn field(mask: u8, byte: u8) -> u8 {
    (mask & byte) >> u8_trailing_zeros(mask)
}

/// Where the lowest set bit of each field mask of the instruction set lies.
proof fn lemma_mask_bits()
    by (bit_vector)
    ensures
        (0x07u8 >> 0u8) & 1u8 == 1u8,
        (0x18u8 >> 0u8) & 1u8 == 0u8,
        (0x18u8 >> 1u8) & 1u8 == 0u8,
        (0x18u8 >> 2u8) & 1u8 == 0u8,
        (0x18u8 >> 3u8) & 1u8 == 1u8,
        (0x30u8 >> 0u8) & 1u8 == 0u8,
        (0x30u8 >> 1u8) & 1u8 == 0u8,
        (0x30u8 >> 2u8) & 1u8 == 0u8,
        (0x30u8 >> 3u8) & 1u8 == 0u8,
        (0x30u8 >> 4u8) & 1u8 == 1u8,
        (0x38u8 >> 0u8) & 1u8 == 0u8,
        (0x38u8 >> 1u8) & 1u8 == 0u8,
        (0x38u8 >> 2u8) & 1u8 == 0u8,
        (0x38u8 >> 3u8) & 1u8 == 1u8,
{
}

/// The number of trailing zeros of each field mask of the instruction set.
proof fn lemma_mask_shifts()
    ensures
        u8_trailing_zeros(0x07) == 0,
        u8_trailing_zeros(0x18) == 3,
        u8_trailing_zeros(0x30) == 4,
        u8_trailing_zeros(0x38) == 3,
{
    lemma_mask_bits();
}

/// What masking and shifting a field of an opcode down computes.
proof fn lemma_field_values(byte: u8)
    by (bit_vector)
    ensures
        (0x07u8 & byte) >> 0u32 == byte % 8,
        (0x18u8 & byte) >> 3u32 == ((byte / 8) % 8) % 4,
        (0x30u8 & byte) >> 4u32 == ((byte / 8) % 8) / 2,
        (0x38u8 & byte) >> 3u32 == (byte / 8) % 8,
{
}

/// The fields of an opcode by the masks of the instruction set: the low
/// three bits, the middle three bits, and the lower two and the upper two
/// of the middle three.
pub proof fn lemma_fields_of_opcode(byte: u8)
    ensures
        field(0x07, byte) == byte % 8,
        field(0x38, byte) == (byte / 8) % 8,
        field(0x18, byte) == ((byte / 8) % 8) % 4,
        field(0x30, byte) == ((byte / 8) % 8) / 2,
{
    lemma_mask_shifts();
    lemma_field_values(byte);
}

impl OpPattern {
    /// Whether `byte` belongs to the family: it agrees with `pattern`
    /// outside the two fields.
    pub open spec fn spec_matches(&self, byte: u8) -> bool {
        byte & !(self.mask1 | self.mask2) == self.pattern
    }

    /// A family with two fields.
    pub fn double(pattern: u8, mask1: u8, mask2: u8) -> (family: OpPattern)
        ensures
            family == (OpPattern { pattern, mask1, mask2 }),
    {
        OpPattern { pattern, mask1, mask2 }
    }

    /// A family with one field.
    pub fn single(pattern: u8, mask: u8) -> (family: OpPattern)
        ensures
            family == (OpPattern { pattern, mask1: mask, mask2: 0 }),
    {
        OpPattern::double(pattern, mask, 0)
    }

    /// A family of one opcode.
    pub fn plain(pattern: u8) -> (family: OpPattern)
        ensures
            family == (OpPattern { pattern, mask1: 0, mask2: 0 }),
    {
        OpPattern::double(pattern, 0, 0)
    }

    /// The bits of both fields.
    pub fn full_mask(&self) -> (mask: u8)
        ensures
            mask == self.mask1 | self.mask2,
    {
        self.mask1 | self.mask2
    }

    /// The first field of `byte`.
    pub fn data1(&self, byte: u8) -> (value: u8)
        requires
            self.mask1 != 0,
        ensures
            value == field(self.mask1, byte),
    {
        (self.mask1 & byte) >> self.mask1.trailing_zeros()
    }

    /// The second field of `byte`.
    pub fn data2(&self, byte: u8) -> (value: u8)
        requires
            self.mask2 != 0,
        ensures
            value == field(self.mask2, byte),
    {
        (self.mask2 & byte) >> self.mask2.trailing_zeros()
    }

    /// Whether `byte` belongs to the family.
    #[verifier::when_used_as_spec(spec_matches)]
    pub fn matches(&self, byte: u8) -> (fits: bool)
        ensures
            fits == self.spec_matches(byte),
    {
        byte & !self.full_mask() == self.pattern
    }
}

} // verus!
