use vstd::prelude::*;

verus! {

/// Carry (C).
pub const CARRY: u8 = 0b0000_0001;
/// Zero (Z).
pub const ZERO: u8 = 0b0000_0010;
/// Interrupt disable (I).
pub const INTERRUPT_DISABLE: u8 = 0b0000_0100;
/// Decimal mode (D).
pub const DECIMAL_MODE: u8 = 0b0000_1000;
/// Break (B).
pub const BREAK: u8 = 0b0001_0000;
/// Unused bit, pushed as one by PHP and BRK.
pub const RESERVED: u8 = 0b0010_0000;
/// Overflow (V).
pub const OVERFLOW: u8 = 0b0100_0000;
/// Negative (N).
pub const NEGATIVE: u8 = 0b1000_0000;

/// The processor status register: eight named bits held in one byte.
#[derive(Debug, Clone, Copy, PartialEq, Eq, Structural)]
pub struct StatusFlags {
    pub bits: u8,
}

/// The status byte after the zero and negative bits were recomputed for `value`:
/// zero is set iff `value == 0`, negative iff bit 7 of `value` is set, other bits are kept.
pub open spec fn with_zero_negative(bits: u8, value: u8) -> u8 {
    (bits & !(ZERO | NEGATIVE)) | (if value == 0 { ZERO } else { 0 }) | (value & NEGATIVE)
}

impl StatusFlags {
    /// Whether every bit of `mask` is set.
    pub open spec fn has(self, mask: u8) -> bool {
        self.bits & mask == mask
    }

    pub fn empty() -> (r: StatusFlags)
        ensures
            r.bits == 0,
    {
        StatusFlags { bits: 0 }
    }

    pub fn from_bits(bits: u8) -> (r: StatusFlags)
        ensures
            r.bits == bits,
    {
        StatusFlags { bits }
    }

    pub fn bits(&self) -> (r: u8)
        ensures
            r == self.bits,
    {
        self.bits
    }

    /// Whether every bit of `mask` is set.
    pub fn contains(&self, mask: u8) -> (r: bool)
        ensures
            r == self.has(mask),
    {
        self.bits & mask == mask
    }

    /// Sets the bits of `mask`.
    pub fn insert(&mut self, mask: u8)
        ensures
            final(self).bits == old(self).bits | mask,
    {
        self.bits = self.bits | mask;
    }

    /// Sets the bits of `mask` when `on`, clears them otherwise.
    pub fn set(&mut self, mask: u8, on: bool)
        ensures
            final(self).bits == if on {
                old(self).bits | mask
            } else {
                old(self).bits & !mask
            },
    {
        if on {
            self.bits = self.bits | mask;
        } else {
            self.bits = self.bits & !mask;
        }
    }

    /// Clears the bits of `flags`.
    pub fn clear_flags(&mut self, flags: u8)
        ensures
            final(self).bits == old(self).bits & !flags,
    {
        self.bits = self.bits & !flags;
    }

    /// Sets zero when `value` is zero and negative when bit 7 of `value` is set,
    /// each tested on its own; no bit is cleared.
    pub fn set_zero_negative_flags(&mut self, value: u8)
        ensures
            final(self).bits == old(self).bits | (if value == 0 { ZERO } else { 0 }) | (value
                & NEGATIVE),
    {
        let zero: u8 = if value == 0 {
            ZERO
        } else {
            0
        };
        self.bits = self.bits | zero | (value & NEGATIVE);
    }

    /// Clears zero and negative, recomputes them for `value`, and returns `value`
    /// for the caller to store in the target register.
    pub fn set_register_flags(&mut self, value: u8) -> (r: u8)
        ensures
            r == value,
            final(self).bits == with_zero_negative(old(self).bits, value),
    {
        self.clear_flags(ZERO | NEGATIVE);
        self.set_zero_negative_flags(value);
        value
    }
}

} // verus!

verus! {

/// After the register flag update for `value`, zero is set exactly when `value` is zero and
/// negative exactly when bit 7 of `value` is set, whatever the flags were before; the other
/// bits are kept.
pub proof fn lemma_register_flags(bits: u8, value: u8)
    ensures
        (StatusFlags { bits: with_zero_negative(bits, value) }).has(ZERO) == (value == 0),
        (StatusFlags { bits: with_zero_negative(bits, value) }).has(NEGATIVE) == (value >= 0x80),
        with_zero_negative(bits, value) & !(ZERO | NEGATIVE) == bits & !(ZERO | NEGATIVE),
{
    let z: u8 = if value == 0 {
        ZERO
    } else {
        0
    };
    assert(((bits & !(2u8 | 128u8)) | z | (value & 128u8)) & 2u8 == 2u8 <==> z == 2u8)
        by (bit_vector)
        requires
            z == 2u8 || z == 0u8,
    ;
    assert(((bits & !(2u8 | 128u8)) | z | (value & 128u8)) & 128u8 == 128u8 <==> value >= 128u8)
        by (bit_vector)
        requires
            z == 2u8 || z == 0u8,
    ;
    assert(((bits & !(2u8 | 128u8)) | z | (value & 128u8)) & !(2u8 | 128u8) == bits & !(2u8
        | 128u8)) by (bit_vector)
        requires
            z == 2u8 || z == 0u8,
    ;
}

} // verus!
