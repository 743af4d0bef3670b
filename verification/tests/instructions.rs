use gb_cpu::cpu::alu::AluOp;
use gb_cpu::cpu::instructions::{Instruction, PREFIX_BYTE};

#[test]
fn prefix_byte_is_cb() {
    assert_eq!(PREFIX_BYTE, 0xCB);
}

#[test]
fn first_opcodes_have_their_handlers() {
    assert_eq!(Instruction::decode(0x00), Instruction::Nop);
    assert_eq!(Instruction::decode(0x01), Instruction::LoadBcImm16);
    assert_eq!(Instruction::decode(0x02), Instruction::StoreAAtBc);
    assert_eq!(Instruction::decode(0x03), Instruction::Unimplemented);
}

#[test]
fn alu_block_selects_operation_and_operand() {
    let operations = [
        AluOp::Add,
        AluOp::Adc,
        AluOp::Sub,
        AluOp::Sbc,
        AluOp::And,
        AluOp::Xor,
        AluOp::Or,
        AluOp::Cp,
    ];
    for (index, op) in operations.iter().enumerate() {
        for source in 0..8u8 {
            let opcode = 0x80 + 8 * index as u8 + source;
            assert_eq!(
                Instruction::decode(opcode),
                Instruction::Alu { op: *op, source }
            );
        }
    }
    assert_eq!(
        Instruction::decode(0x86),
        Instruction::Alu { op: AluOp::Add, source: 6 }
    );
    assert_eq!(
        Instruction::decode(0x8F),
        Instruction::Alu { op: AluOp::Adc, source: 7 }
    );
    assert_eq!(
        Instruction::decode(0xBF),
        Instruction::Alu { op: AluOp::Cp, source: 7 }
    );
}

#[test]
fn every_other_opcode_is_unimplemented() {
    for opcode in 0..=255u8 {
        let assigned = opcode <= 0x02 || (0x80..=0xBF).contains(&opcode);
        let instruction = Instruction::decode(opcode);
        assert_eq!(instruction == Instruction::Unimplemented, !assigned);
        assert_eq!(instruction == Instruction::Nop, opcode == 0x00);
    }
    assert_eq!(Instruction::decode(0x7F), Instruction::Unimplemented);
    assert_eq!(Instruction::decode(0xC0), Instruction::Unimplemented);
    assert_eq!(Instruction::decode(PREFIX_BYTE), Instruction::Unimplemented);
}

#[test]
fn prefixed_table_has_no_handler() {
    for opcode in 0..=255u8 {
        assert_eq!(Instruction::decode_prefixed(opcode), Instruction::Unimplemented);
    }
}
