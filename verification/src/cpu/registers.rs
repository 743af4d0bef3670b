//! The register file and its 16-bit pairs.

use super::alu::AluResult;
use super::flags::Flags;
use vstd::prelude::*;

verus! {

/// The 16-bit value whose high byte is `high` and whose low byte is `low`.
pub open spec fn compose(high: u8, low: u8) -> u16 {
    (high * 256 + low) as u16
}

/// The high byte of a 16-bit value.
pub open spec fn high_byte(value: u16) -> u8 {
    (value / 256) as u8
}

/// The low byte of a 16-bit value.
pub open spec fn low_byte(value: u16) -> u8 {
    (value % 256) as u8
}

/// Splitting a 16-bit value into its two bytes and composing them again
/// gives the value back, and composing two bytes and splitting the result
/// gives the bytes back: the two halves partition the sixteen bits.
pub proof fn lemma_compose_split(value: u16, high: u8, low: u8)
    ensures
        compose(high_byte(value), low_byte(value)) == value,
        high_byte(compose(high, low)) == high,
        low_byte(compose(high, low)) == low,
{
}

/// Shifting the high byte up and or-ing the low byte in composes the pair.
proof fn lemma_compose_bits(high: u8, low: u8)
    by (bit_vector)
    ensures
        ((high as u16) << 8) | (low as u16) == high * 256 + low,
{
}

/// Masking and shifting splits a 16-bit value into its two bytes.
proof fn lemma_split_bits(value: u16)
    by (bit_vector)
    ensures
        (value & 0xFF00) >> 8 == value / 256,
        value & 0xFF == value % 256,
{
}

/// Composes a 16-bit value from its two bytes.
pub fn compose_bytes(high: u8, low: u8) -> (value: u16)
    ensures
        value == compose(high, low),
{
    proof {
        lemma_compose_bits(high, low);
    }
    (high as u16) << 8 | low as u16
}

/// The register file: seven 8-bit registers, the flags and the stack pointer.
///
/// The pairs AF, BC, DE and HL are computed from their two halves on every
/// read and split on every write; no 16-bit copy of them is stored.
#[derive(Debug, Clone, Copy, PartialEq, Eq, Structural)]
pub struct Registers {
    pub a: u8,
    pub f: Flags,
    pub b: u8,
    pub c: u8,
    pub d: u8,
    pub e: u8,
    pub h: u8,
    pub l: u8,
    pub sp: u16,
}

impl Registers {
    /// The pair AF: A is the high byte, the flags are the low byte.
    pub open spec fn af(self) -> u16 {
        compose(self.a, self.f.0)
    }

    /// The pair BC.
    pub open spec fn bc(self) -> u16 {
        compose(self.b, self.c)
    }

    /// The pair DE.
    pub open spec fn de(self) -> u16 {
        compose(self.d, self.e)
    }

    /// The pair HL.
    pub open spec fn hl(self) -> u16 {
        compose(self.h, self.l)
    }

    /// This register file after a write of `value` to AF: A takes the high
    /// byte, the flags take the low byte with its low nibble cleared.
    pub open spec fn with_af(self, value: u16) -> Registers {
        Registers { a: high_byte(value), f: Flags(low_byte(value) & 0xF0), ..self }
    }

    /// This register file after a write of `value` to BC.
    pub open spec fn with_bc(self, value: u16) -> Registers {
        Registers { b: high_byte(value), c: low_byte(value), ..self }
    }

    /// This register file after a write of `value` to DE.
    pub open spec fn with_de(self, value: u16) -> Registers {
        Registers { d: high_byte(value), e: low_byte(value), ..self }
    }

    /// This register file after a write of `value` to HL.
    pub open spec fn with_hl(self, value: u16) -> Registers {
        Registers { h: high_byte(value), l: low_byte(value), ..self }
    }

    /// This register file after an ALU operation: A takes the result, the
    /// four flags are replaced, everything else stays.
    pub open spec fn after_alu(self, result: AluResult) -> Registers {
        Registers {
            a: result.value,
            f: self.f.with_flags(
                result.zero,
                result.subtract,
                result.half_carry,
                result.carry,
            ),
            ..self
        }
    }

    /// The register file is well formed when its flags are.
    pub open spec fn wf(self) -> bool {
        self.f.wf()
    }

    /// The register file with every register, the flags and the stack
    /// pointer at zero.
    pub open spec fn zeroed() -> Registers {
        Registers { a: 0, f: Flags(0), b: 0, c: 0, d: 0, e: 0, h: 0, l: 0, sp: 0 }
    }

    /// A pair reads back as the value that was written to it. AF reads back
    /// as the value written with its low nibble cleared, and is well formed
    /// after any write.
    pub proof fn lemma_write_then_read(self, value: u16)
        ensures
            self.with_bc(value).bc() == value,
            self.with_de(value).de() == value,
            self.with_hl(value).hl() == value,
            self.with_af(value).af() == value & 0xFFF0,
            self.with_af(value).f.0 & 0x0F == 0,
            self.with_af(value).wf(),
    {
        lemma_compose_split(value, 0, 0);
        assert(((value / 256) as u8) * 256 + (((value % 256) as u8) & 0xF0) == value & 0xFFF0
            && (((value % 256) as u8) & 0xF0) & 0x0F == 0) by (bit_vector);
    }

    pub fn default() -> (registers: Registers)
        ensures
            registers == Registers::zeroed(),
            registers.wf(),
    {
        assert(0u8 & 0x0F == 0) by (bit_vector);
        Registers { a: 0, f: Flags(0), b: 0, c: 0, d: 0, e: 0, h: 0, l: 0, sp: 0 }
    }

    pub fn read_af(&self) -> (value: u16)
        ensures
            value == self.af(),
    {
        compose_bytes(self.a, self.f.0)
    }

    /// Writes A and the flags. The low nibble of `value` is dropped: the
    /// flags come out well formed whatever was written.
    pub fn write_af(&mut self, value: u16)
        ensures
            *final(self) == old(self).with_af(value),
            final(self).f.0 & 0x0F == 0,
            final(self).wf(),
    {
        proof {
            lemma_split_bits(value);
            self.lemma_write_then_read(value);
        }
        self.a = ((value & 0xFF00) >> 8) as u8;
        self.f = Flags((value & 0xFF) as u8);
        self.f.sanitize();
    }

    pub fn read_bc(&self) -> (value: u16)
        ensures
            value == self.bc(),
    {
        compose_bytes(self.b, self.c)
    }

    pub fn write_bc(&mut self, value: u16)
        ensures
            *final(self) == old(self).with_bc(value),
    {
        proof {
            lemma_split_bits(value);
        }
        self.b = ((value & 0xFF00) >> 8) as u8;
        self.c = (value & 0xFF) as u8;
    }

    pub fn read_de(&self) -> (value: u16)
        ensures
            value == self.de(),
    {
        compose_bytes(self.d, self.e)
    }

    pub fn write_de(&mut self, value: u16)
        ensures
            *final(self) == old(self).with_de(value),
    {
        proof {
            lemma_split_bits(value);
        }
        self.d = ((value & 0xFF00) >> 8) as u8;
        self.e = (value & 0xFF) as u8;
    }

    pub fn read_hl(&self) -> (value: u16)
        ensures
            value == self.hl(),
    {
        compose_bytes(self.h, self.l)
    }

    pub fn write_hl(&mut self, value: u16)
        ensures
            *final(self) == old(self).with_hl(value),
    {
        proof {
            lemma_split_bits(value);
        }
        self.h = ((value & 0xFF00) >> 8) as u8;
        self.l = (value & 0xFF) as u8;
    }
}

} // verus!
