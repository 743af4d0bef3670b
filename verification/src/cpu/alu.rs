//! What each operation of the arithmetic and logic block computes.

use vstd::prelude::*;

verus! {

/// The eight operations of the accumulator's arithmetic and logic block, in
/// the order in which bits 3 to 5 of an opcode select them.
#[derive(Debug, Clone, Copy, PartialEq, Eq, Structural)]
pub enum AluOp {
    Add,
    Adc,
    Sub,
    Sbc,
    And,
    Xor,
    Or,
    Cp,
}

/// What one operation leaves behind: the new accumulator and the four flags.
pub struct AluResult {
    pub value: u8,
    pub zero: bool,
    pub subtract: bool,
    pub half_carry: bool,
    pub carry: bool,
}

/// A carry or borrow as the number it adds: 1 when set, 0 when clear.
pub open spec fn carry_value(carry: bool) -> int {
    if carry {
        1
    } else {
        0
    }
}

/// `a + value + carry_in`, kept to eight bits.
///
/// Carry is the carry out of bit 7 of the whole sum, half-carry the carry
/// out of bit 3 of the whole sum; the carry coming in counts for both.
pub open spec fn alu_add(a: u8, value: u8, carry_in: bool) -> AluResult {
    let total = a + value + carry_value(carry_in);
    AluResult {
        value: (total % 256) as u8,
        zero: total % 256 == 0,
        subtract: false,
        half_carry: (a & 0xF) + (value & 0xF) + carry_value(carry_in) > 0xF,
        carry: total > 0xFF,
    }
}

/// `a - value - borrow_in`, kept to eight bits.
///
/// Carry is the borrow into bit 7, half-carry the borrow into bit 3; the
/// borrow coming in counts for both.
pub open spec fn alu_sub(a: u8, value: u8, borrow_in: bool) -> AluResult {
    let total = a - value - carry_value(borrow_in);
    AluResult {
        value: (total % 256) as u8,
        zero: total % 256 == 0,
        subtract: true,
        half_carry: (a & 0xF) < (value & 0xF) + carry_value(borrow_in),
        carry: a < value + carry_value(borrow_in),
    }
}

/// Bitwise and. Half-carry is always set, carry always clear.
pub open spec fn alu_and(a: u8, value: u8) -> AluResult {
    AluResult {
        value: a & value,
        zero: a & value == 0,
        subtract: false,
        half_carry: true,
        carry: false,
    }
}

/// Bitwise exclusive or. Half-carry and carry are always clear.
pub open spec fn alu_xor(a: u8, value: u8) -> AluResult {
    AluResult {
        value: a ^ value,
        zero: a ^ value == 0,
        subtract: false,
        half_carry: false,
        carry: false,
    }
}

/// Bitwise or. Half-carry and carry are always clear.
pub open spec fn alu_or(a: u8, value: u8) -> AluResult {
    AluResult {
        value: a | value,
        zero: a | value == 0,
        subtract: false,
        half_carry: false,
        carry: false,
    }
}

/// The flags of `a - value`, with the accumulator left as it was.
pub open spec fn alu_cp(a: u8, value: u8) -> AluResult {
    AluResult { value: a, ..alu_sub(a, value, false) }
}

impl AluOp {
    /// What this operation leaves for accumulator `a`, operand `value` and
    /// the carry flag `carry` as it stood before.
    pub open spec fn apply(self, a: u8, value: u8, carry: bool) -> AluResult {
        match self {
            AluOp::Add => alu_add(a, value, false),
            AluOp::Adc => alu_add(a, value, carry),
            AluOp::Sub => alu_sub(a, value, false),
            AluOp::Sbc => alu_sub(a, value, carry),
            AluOp::And => alu_and(a, value),
            AluOp::Xor => alu_xor(a, value),
            AluOp::Or => alu_or(a, value),
            AluOp::Cp => alu_cp(a, value),
        }
    }
}

/// Adding with the carry set is adding without it and then adding one: the
/// result and the zero flag are those of the second addition, and carry and
/// half-carry are set when either addition sets them.
pub proof fn lemma_add_with_carry_is_two_adds(a: u8, value: u8)
    ensures
        alu_add(a, value, true).value == alu_add(alu_add(a, value, false).value, 1, false).value,
        alu_add(a, value, true).zero == alu_add(alu_add(a, value, false).value, 1, false).zero,
        alu_add(a, value, true).carry == (alu_add(a, value, false).carry || alu_add(
            alu_add(a, value, false).value,
            1,
            false,
        ).carry),
        alu_add(a, value, true).half_carry == (alu_add(a, value, false).half_carry || alu_add(
            alu_add(a, value, false).value,
            1,
            false,
        ).half_carry),
{
    let first: u8 = ((a + value) % 256) as u8;
    assert(((a & 0xF) + (value & 0xF) + 1 > 0xF) == ((a & 0xF) + (value & 0xF) > 0xF || (first
        & 0xF) + (1u8 & 0xF) > 0xF)) by (bit_vector)
        requires
            first == ((a + value) % 256) as u8,
    ;
}

} // verus!
