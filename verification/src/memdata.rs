//! The integer types a memory access can move: 8, 16, 32 and 64 bits.

use vstd::prelude::*;

verus! {

/// The integer types of memory accesses; implemented for `u8`, `u16`,
/// `u32` and `u64` only.
pub trait IntType {}

impl IntType for u8 {}
impl IntType for u16 {}
impl IntType for u32 {}
impl IntType for u64 {}

/// A memory access type, converted to and from the 32-bit values that
/// handlers pass.
pub trait MemoryData: IntType + Copy + Sized {
    /// The number of value bits.
    spec fn value_bits() -> nat;

    /// The value as a number.
    spec fn value(self) -> nat;

    /// The low bits of `v`.
    fn from_u32(v: u32) -> (r: Self)
        ensures
            r.value() == v as nat % vstd::arithmetic::power2::pow2(Self::value_bits());

    /// The low 32 bits of the value.
    fn to_u32(self) -> (r: u32)
        ensures
            r as nat == self.value() % 0x1_0000_0000;
}

impl MemoryData for u8 {
    open spec fn value_bits() -> nat { 8 }
    open spec fn value(self) -> nat { self as nat }

    fn from_u32(v: u32) -> (r: Self) {
        proof { vstd::arithmetic::power2::lemma2_to64(); }
        (v % 0x100) as u8
    }

    fn to_u32(self) -> (r: u32) {
        self as u32
    }
}

impl MemoryData for u16 {
    open spec fn value_bits() -> nat { 16 }
    open spec fn value(self) -> nat { self as nat }

    fn from_u32(v: u32) -> (r: Self) {
        proof { vstd::arithmetic::power2::lemma2_to64(); }
        (v % 0x1_0000) as u16
    }

    fn to_u32(self) -> (r: u32) {
        self as u32
    }
}

impl MemoryData for u32 {
    open spec fn value_bits() -> nat { 32 }
    open spec fn value(self) -> nat { self as nat }

    fn from_u32(v: u32) -> (r: Self) {
        proof {
            vstd::arithmetic::power2::lemma2_to64();
            vstd::arithmetic::div_mod::lemma_small_mod(v as nat, vstd::arithmetic::power2::pow2(32));
        }
        v
    }

    fn to_u32(self) -> (r: u32) {
        self
    }
}

impl MemoryData for u64 {
    open spec fn value_bits() -> nat { 64 }
    open spec fn value(self) -> nat { self as nat }

    fn from_u32(v: u32) -> (r: Self) {
        proof {
            vstd::arithmetic::power2::lemma2_to64();
            vstd::arithmetic::div_mod::lemma_small_mod(v as nat, vstd::arithmetic::power2::pow2(64));
        }
        v as u64
    }

    fn to_u32(self) -> (r: u32) {
        (self % 0x1_0000_0000) as u32
    }
}

} // verus!
