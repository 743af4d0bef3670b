//! The status register and its four flags.

use vstd::prelude::*;

verus! {

/// Bit 7: set when the result of an operation is zero.
pub const ZERO_FLAG_BIT_MASK: u8 = 0b1000_0000;

/// Bit 6: set when the last operation was a subtraction.
pub const SUBTRACTION_FLAG_BIT_MASK: u8 = 0b0100_0000;

/// Bit 5: set on a carry or borrow between the two nibbles of a byte.
pub const HALF_CARRY_FLAG_BIT_MASK: u8 = 0b0010_0000;

/// Bit 4: set on a carry or borrow out of the whole byte.
pub const CARRY_FLAG_BIT_MASK: u8 = 0b0001_0000;

/// Bits 0 to 3, which the hardware does not implement and always reads as 0.
pub const RESERVED_BITS_MASK: u8 = 0b0000_1111;

/// The status register: four flags packed into the high nibble of one byte.
#[derive(Debug, Clone, Copy, PartialEq, Eq, Structural)]
pub struct Flags(pub u8);

/// The byte `before` with the bits under `mask` replaced by `bit`.
pub open spec fn replace_bit(before: u8, mask: u8, bit: bool) -> u8 {
    (before & !mask) | (if bit {
        mask
    } else {
        0u8
    })
}

/// Replacing one flag bit gives that bit its new value and keeps every other
/// bit of the byte.
proof fn lemma_replace_bit(before: u8, mask: u8, bit: bool)
    by (bit_vector)
    requires
        mask == 0x80 || mask == 0x40 || mask == 0x20 || mask == 0x10,
    ensures
        (replace_bit(before, mask, bit) & mask != 0) == bit,
        mask != 0x80 ==> replace_bit(before, mask, bit) & 0x80 == before & 0x80,
        mask != 0x40 ==> replace_bit(before, mask, bit) & 0x40 == before & 0x40,
        mask != 0x20 ==> replace_bit(before, mask, bit) & 0x20 == before & 0x20,
        mask != 0x10 ==> replace_bit(before, mask, bit) & 0x10 == before & 0x10,
        replace_bit(before, mask, bit) & 0x0F == before & 0x0F,
{
}

impl Flags {
    /// Whether the zero flag (bit 7) is set.
    pub open spec fn zero(self) -> bool {
        self.0 & ZERO_FLAG_BIT_MASK != 0
    }

    /// Whether the subtract flag (bit 6) is set.
    pub open spec fn subtract(self) -> bool {
        self.0 & SUBTRACTION_FLAG_BIT_MASK != 0
    }

    /// Whether the half-carry flag (bit 5) is set.
    pub open spec fn half_carry(self) -> bool {
        self.0 & HALF_CARRY_FLAG_BIT_MASK != 0
    }

    /// Whether the carry flag (bit 4) is set.
    pub open spec fn carry(self) -> bool {
        self.0 & CARRY_FLAG_BIT_MASK != 0
    }

    /// The four bits below the flags.
    pub open spec fn reserved_bits(self) -> u8 {
        self.0 & RESERVED_BITS_MASK
    }

    /// The register is well formed when its reserved bits are all zero.
    pub open spec fn wf(self) -> bool {
        self.reserved_bits() == 0
    }

    /// This register with its four flags replaced and its reserved bits
    /// kept.
    pub open spec fn with_flags(self, zero: bool, subtract: bool, half_carry: bool, carry: bool)
        -> Flags {
        Flags(
            (self.0 & RESERVED_BITS_MASK) | (if zero {
                ZERO_FLAG_BIT_MASK
            } else {
                0u8
            }) | (if subtract {
                SUBTRACTION_FLAG_BIT_MASK
            } else {
                0u8
            }) | (if half_carry {
                HALF_CARRY_FLAG_BIT_MASK
            } else {
                0u8
            }) | (if carry {
                CARRY_FLAG_BIT_MASK
            } else {
                0u8
            }),
        )
    }

    /// Replacing the four flags gives each its new value, keeps the reserved
    /// bits and so keeps a well-formed register well formed.
    pub proof fn lemma_with_flags(self, zero: bool, subtract: bool, half_carry: bool, carry: bool)
        ensures
            self.with_flags(zero, subtract, half_carry, carry).zero() == zero,
            self.with_flags(zero, subtract, half_carry, carry).subtract() == subtract,
            self.with_flags(zero, subtract, half_carry, carry).half_carry() == half_carry,
            self.with_flags(zero, subtract, half_carry, carry).carry() == carry,
            self.with_flags(zero, subtract, half_carry, carry).reserved_bits()
                == self.reserved_bits(),
            self.wf() ==> self.with_flags(zero, subtract, half_carry, carry).wf(),
    {
        let x: u8 = self.0;
        let z: u8 = if zero { 0x80 } else { 0 };
        let n: u8 = if subtract { 0x40 } else { 0 };
        let h: u8 = if half_carry { 0x20 } else { 0 };
        let c: u8 = if carry { 0x10 } else { 0 };
        let y: u8 = (x & 0x0F) | z | n | h | c;
        assert(y & 0x80 == z && y & 0x40 == n && y & 0x20 == h && y & 0x10 == c && y & 0x0F == x
            & 0x0F) by (bit_vector)
            requires
                y == (x & 0x0F) | z | n | h | c,
                z == 0x80 || z == 0,
                n == 0x40 || n == 0,
                h == 0x20 || h == 0,
                c == 0x10 || c == 0,
        ;
    }

    /// Two status registers with the same four flags and the same reserved
    /// bits are the same register.
    pub proof fn lemma_determined_by_bits(self, other: Flags)
        requires
            self.zero() == other.zero(),
            self.subtract() == other.subtract(),
            self.half_carry() == other.half_carry(),
            self.carry() == other.carry(),
            self.reserved_bits() == other.reserved_bits(),
        ensures
            self == other,
    {
        let x: u8 = self.0;
        let y: u8 = other.0;
        assert(x == y) by (bit_vector)
            requires
                (x & 0x80 != 0) == (y & 0x80 != 0),
                (x & 0x40 != 0) == (y & 0x40 != 0),
                (x & 0x20 != 0) == (y & 0x20 != 0),
                (x & 0x10 != 0) == (y & 0x10 != 0),
                x & 0x0F == y & 0x0F,
        ;
    }

    /// A register that shows the four given flags and the reserved bits of
    /// this one is this one with its flags replaced.
    pub proof fn lemma_flags_replaced(
        self,
        after: Flags,
        zero: bool,
        subtract: bool,
        half_carry: bool,
        carry: bool,
    )
        requires
            after.zero() == zero,
            after.subtract() == subtract,
            after.half_carry() == half_carry,
            after.carry() == carry,
            after.reserved_bits() == self.reserved_bits(),
        ensures
            after == self.with_flags(zero, subtract, half_carry, carry),
    {
        self.lemma_with_flags(zero, subtract, half_carry, carry);
        after.lemma_determined_by_bits(self.with_flags(zero, subtract, half_carry, carry));
    }

    #[inline]
    pub fn get_zero_flag(&self) -> (set: bool)
        ensures
            set == self.zero(),
    {
        self.0 & ZERO_FLAG_BIT_MASK != 0
    }

    #[inline]
    pub fn get_subtract_flag(&self) -> (set: bool)
        ensures
            set == self.subtract(),
    {
        self.0 & SUBTRACTION_FLAG_BIT_MASK != 0
    }

    #[inline]
    pub fn get_half_carry_flag(&self) -> (set: bool)
        ensures
            set == self.half_carry(),
    {
        self.0 & HALF_CARRY_FLAG_BIT_MASK != 0
    }

    #[inline]
    pub fn get_carry_flag(&self) -> (set: bool)
        ensures
            set == self.carry(),
    {
        self.0 & CARRY_FLAG_BIT_MASK != 0
    }

    /// Sets or clears the zero flag and leaves every other bit as it was.
    #[inline]
    pub fn set_zero_flag(&mut self, value: bool)
        ensures
            final(self).0 == replace_bit(old(self).0, ZERO_FLAG_BIT_MASK, value),
            final(self).zero() == value,
            final(self).subtract() == old(self).subtract(),
            final(self).half_carry() == old(self).half_carry(),
            final(self).carry() == old(self).carry(),
            final(self).reserved_bits() == old(self).reserved_bits(),
            old(self).wf() ==> final(self).wf(),
    {
        proof {
            lemma_replace_bit(self.0, ZERO_FLAG_BIT_MASK, value);
        }
        self.0 = (self.0 & !ZERO_FLAG_BIT_MASK) | (if value {
            ZERO_FLAG_BIT_MASK
        } else {
            0
        });
    }

    /// Sets or clears the subtract flag and leaves every other bit as it was.
    #[inline]
    pub fn set_subtract_flag(&mut self, value: bool)
        ensures
            final(self).0 == replace_bit(old(self).0, SUBTRACTION_FLAG_BIT_MASK, value),
            final(self).zero() == old(self).zero(),
            final(self).subtract() == value,
            final(self).half_carry() == old(self).half_carry(),
            final(self).carry() == old(self).carry(),
            final(self).reserved_bits() == old(self).reserved_bits(),
            old(self).wf() ==> final(self).wf(),
    {
        proof {
            lemma_replace_bit(self.0, SUBTRACTION_FLAG_BIT_MASK, value);
        }
        self.0 = (self.0 & !SUBTRACTION_FLAG_BIT_MASK) | (if value {
            SUBTRACTION_FLAG_BIT_MASK
        } else {
            0
        });
    }

    /// Sets or clears the half-carry flag and leaves every other bit as it
    /// was.
    #[inline]
    pub fn set_half_carry_flag(&mut self, value: bool)
        ensures
            final(self).0 == replace_bit(old(self).0, HALF_CARRY_FLAG_BIT_MASK, value),
            final(self).zero() == old(self).zero(),
            final(self).subtract() == old(self).subtract(),
            final(self).half_carry() == value,
            final(self).carry() == old(self).carry(),
            final(self).reserved_bits() == old(self).reserved_bits(),
            old(self).wf() ==> final(self).wf(),
    {
        proof {
            lemma_replace_bit(self.0, HALF_CARRY_FLAG_BIT_MASK, value);
        }
        self.0 = (self.0 & !HALF_CARRY_FLAG_BIT_MASK) | (if value {
            HALF_CARRY_FLAG_BIT_MASK
        } else {
            0
        });
    }

    /// Sets or clears the carry flag and leaves every other bit as it was.
    #[inline]
    pub fn set_carry_flag(&mut self, value: bool)
        ensures
            final(self).0 == replace_bit(old(self).0, CARRY_FLAG_BIT_MASK, value),
            final(self).zero() == old(self).zero(),
            final(self).subtract() == old(self).subtract(),
            final(self).half_carry() == old(self).half_carry(),
            final(self).carry() == value,
            final(self).reserved_bits() == old(self).reserved_bits(),
            old(self).wf() ==> final(self).wf(),
    {
        proof {
            lemma_replace_bit(self.0, CARRY_FLAG_BIT_MASK, value);
        }
        self.0 = (self.0 & !CARRY_FLAG_BIT_MASK) | (if value {
            CARRY_FLAG_BIT_MASK
        } else {
            0
        });
    }

    /// Forces the reserved bits to zero and keeps the four flags.
    ///
    /// Every path that loads an arbitrary byte into the register ends with
    /// this call.
    pub fn sanitize(&mut self)
        ensures
            final(self).0 == old(self).0 & 0xF0,
            final(self).zero() == old(self).zero(),
            final(self).subtract() == old(self).subtract(),
            final(self).half_carry() == old(self).half_carry(),
            final(self).carry() == old(self).carry(),
            final(self).wf(),
    {
        let before: u8 = self.0;
        assert((before & 0xF0) & 0x80 == before & 0x80 && (before & 0xF0) & 0x40 == before & 0x40
            && (before & 0xF0) & 0x20 == before & 0x20 && (before & 0xF0) & 0x10 == before & 0x10
            && (before & 0xF0) & 0x0F == 0) by (bit_vector);
        self.0 = self.0 & 0xF0;
    }
}

} // verus!
