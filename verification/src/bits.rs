//! Facts about masks and single-bit updates that the register code relies on.

use vstd::prelude::*;

verus! {

/// Masking a 32-bit value with a low mask keeps its remainder.
pub proof fn lemma_mask_u32(x: u32)
    by (bit_vector)
    ensures
        x & 0xFFFF == x % 0x1_0000,
        x & 0x7FFF == x % 0x8000,
        x & 0xFFF == x % 0x1000,
        x & 0xFF == x % 0x100,
        x & 0x7F == x % 0x80,
        x & 0x3F == x % 64,
        x & 0x1F == x % 32,
        x & 0xF == x % 16,
        x & 0x7 == x % 8,
        x & 0x3 == x % 4,
        x & 0x1 == x % 2,
        x >> 1 == x / 2,
        x >> 24 == x / 0x100_0000,
        x >> 31 == x / 0x8000_0000,
{
}

/// Masking a 16-bit value with a low mask keeps its remainder.
pub proof fn lemma_mask_u16(x: u16)
    by (bit_vector)
    ensures
        x & 0x7 == x % 8,
        x & 0xFF == x % 0x100,
{
}

/// Masking a 64-bit value with its low word keeps its remainder.
pub proof fn lemma_mask_u64(x: u64)
    by (bit_vector)
    ensures
        x & 0xFFFF_FFFF == x % 0x1_0000_0000,
        x & 0xFFFF == x % 0x1_0000,
        x & 0xFF == x % 0x100,
{
}

/// Setting or clearing one bit twice is the same as doing it once.
pub proof fn lemma_bit_idempotent(p: u32, b: u32)
    by (bit_vector)
    requires
        b < 32,
    ensures
        (p | (1u32 << b)) | (1u32 << b) == p | (1u32 << b),
        (p & !(1u32 << b)) & !(1u32 << b) == p & !(1u32 << b),
{
}

/// Raising the underflow flag (bit 8) of a 16-bit timer control value leaves
/// its interrupt-enable bit (bit 5) alone, and raising it again changes nothing.
pub proof fn lemma_u16_flag_bit8(t: u16)
    by (bit_vector)
    ensures
        ((t | 0x0100u16) & 0x0020u16 != 0) == (t & 0x0020u16 != 0),
        (t | 0x0100u16) | 0x0100u16 == t | 0x0100u16,
        (0u16 & 0x0020u16) == 0u16,
{
}

/// The low three bits of a 32-bit value, as a byte, keep their value and
/// each of their bits.
pub proof fn lemma_low3(data: u32)
    by (bit_vector)
    ensures
        data & 0x07 < 8,
        ((data & 0x07) as u8) & 0x07 == (data & 0x07) as u8,
        ((((data & 0x07) as u8) & 0x07u8) as u32) == data & 0x07,
        ((data & 0x07) % 0x100) as u8 == (data & 0x07) as u8,
        ((((data & 0x07) as u8) & (1u8 << 0u8)) != 0) == (((data & 0x07) & (1u32 << 0u32)) != 0),
        ((((data & 0x07) as u8) & (1u8 << 1u8)) != 0) == (((data & 0x07) & (1u32 << 1u32)) != 0),
        ((((data & 0x07) as u8) & (1u8 << 2u8)) != 0) == (((data & 0x07) & (1u32 << 2u32)) != 0),
        (0u8 & 0x07u8) as u32 == 0u32,
{
}

} // verus!
