//! The two opcode tables: from an opcode byte to its instruction.

use super::alu::AluOp;
use vstd::prelude::*;

verus! {

/// The opcode that selects the second table: the byte after it is looked up
/// there.
pub const PREFIX_BYTE: u8 = 0xCB;

/// What an opcode stands for.
///
/// `Unimplemented` marks every opcode without a handler. It is a variant of
/// its own, so an opcode without a handler can never pass for `Nop`.
#[derive(Debug, Clone, Copy, PartialEq, Eq, Structural)]
pub enum Instruction {
    /// Does nothing.
    Nop,
    /// Loads the 16-bit immediate that follows the opcode into BC.
    LoadBcImm16,
    /// Stores A at the address held in BC.
    StoreAAtBc,
    /// Combines A with the 8-bit operand that `source` selects.
    Alu { op: AluOp, source: u8 },
    /// No handler is assigned.
    Unimplemented,
}

/// The operation that bits 3 to 5 of an opcode of the ALU block select.
pub open spec fn alu_op_at(index: int) -> AluOp {
    if index == 0 {
        AluOp::Add
    } else if index == 1 {
        AluOp::Adc
    } else if index == 2 {
        AluOp::Sub
    } else if index == 3 {
        AluOp::Sbc
    } else if index == 4 {
        AluOp::And
    } else if index == 5 {
        AluOp::Xor
    } else if index == 6 {
        AluOp::Or
    } else {
        AluOp::Cp
    }
}

/// The primary table: one entry for each of the 256 opcodes.
///
/// The ALU block runs from 0x80 to 0xBF: eight operations of eight
/// opcodes each, the low three bits selecting the operand.
pub open spec fn primary_entry(opcode: u8) -> Instruction {
    if opcode == 0x00 {
        Instruction::Nop
    } else if opcode == 0x01 {
        Instruction::LoadBcImm16
    } else if opcode == 0x02 {
        Instruction::StoreAAtBc
    } else if 0x80 <= opcode <= 0xBF {
        Instruction::Alu { op: alu_op_at((opcode - 0x80) / 8), source: (opcode % 8) as u8 }
    } else {
        Instruction::Unimplemented
    }
}

/// The table behind the prefix byte: no entry has a handler yet.
pub open spec fn prefixed_entry(opcode: u8) -> Instruction {
    Instruction::Unimplemented
}

impl Instruction {
    /// An operand selector is one of the eight values 0 to 7.
    pub open spec fn wf(self) -> bool {
        self matches Instruction::Alu { source, .. } ==> source < 8
    }

    /// Looks `opcode` up in the primary table.
    pub fn decode(opcode: u8) -> (instruction: Instruction)
        ensures
            instruction == primary_entry(opcode),
            instruction.wf(),
    {
        if opcode == 0x00 {
            Instruction::Nop
        } else if opcode == 0x01 {
            Instruction::LoadBcImm16
        } else if opcode == 0x02 {
            Instruction::StoreAAtBc
        } else if 0x80 <= opcode && opcode <= 0xBF {
            let source: u8 = opcode & 0x07;
            let operation: u8 = (opcode >> 3) & 0x07;
            assert(source == opcode % 8 && operation == (opcode - 0x80) / 8) by (bit_vector)
                requires
                    0x80 <= opcode <= 0xBF,
                    source == opcode & 0x07,
                    operation == (opcode >> 3) & 0x07,
            ;
            let op = match operation {
                0 => AluOp::Add,
                1 => AluOp::Adc,
                2 => AluOp::Sub,
                3 => AluOp::Sbc,
                4 => AluOp::And,
                5 => AluOp::Xor,
                6 => AluOp::Or,
                _ => AluOp::Cp,
            };
            Instruction::Alu { op, source }
        } else {
            Instruction::Unimplemented
        }
    }

    /// Looks `opcode` up in the table behind the prefix byte.
    pub fn decode_prefixed(opcode: u8) -> (instruction: Instruction)
        ensures
            instruction == prefixed_entry(opcode),
            instruction.wf(),
    {
        Instruction::Unimplemented
    }
}

/// Only opcode 0x00 is a no-operation, and the opcodes with a handler are
/// exactly 0x00, 0x01, 0x02 and the ALU block.
pub proof fn lemma_primary_table(opcode: u8)
    ensures
        primary_entry(opcode) is Nop <==> opcode == 0x00,
        primary_entry(opcode) is Unimplemented <==> !(opcode <= 0x02 || 0x80 <= opcode <= 0xBF),
        prefixed_entry(opcode) is Unimplemented,
{
}

} // verus!
