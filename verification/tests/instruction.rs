use rust_boy::cpu::instruction::{ArithmeticTarget, Instruction, JumpCondition, PREFIX_OPCODE};

#[test]
fn add_c_decodes() {
    assert_eq!(
        Instruction::from_byte(0x81, false),
        Some(Instruction::ADD(ArithmeticTarget::C))
    );
    assert_eq!(
        Instruction::from_byte_non_prefixed(0x81),
        Some(Instruction::ADD(ArithmeticTarget::C))
    );
}

#[test]
fn unconditional_jump_decodes() {
    assert_eq!(
        Instruction::from_byte(0xC3, false),
        Some(Instruction::JP(JumpCondition::Always))
    );
    assert_eq!(
        Instruction::from_byte_non_prefixed(0xC3),
        Some(Instruction::JP(JumpCondition::Always))
    );
}

#[test]
fn every_other_opcode_is_unmapped() {
    for byte in 0..=255u8 {
        if byte != 0x81 && byte != 0xC3 {
            assert_eq!(Instruction::from_byte(byte, false), None);
            assert_eq!(Instruction::from_byte_non_prefixed(byte), None);
        }
    }
}

#[test]
fn prefixed_table_is_empty() {
    for byte in 0..=255u8 {
        assert_eq!(Instruction::from_byte(byte, true), None);
        assert_eq!(Instruction::from_byte_prefixed(byte), None);
    }
}

#[test]
fn the_tables_are_disjoint() {
    assert_eq!(Instruction::from_byte(0x81, true), None);
    assert_eq!(Instruction::from_byte(0xC3, true), None);
}

#[test]
fn prefix_opcode_is_cb() {
    assert_eq!(PREFIX_OPCODE, 0xCB);
    assert_eq!(Instruction::from_byte(PREFIX_OPCODE, false), None);
}
