use stack_cpu::isa::{opcode_to_name, Condition, Instruction, Operation};

#[test]
fn every_named_instruction_has_its_mnemonic() {
    let names = [
        "NOP", "LIT", "DUP", "DROP", "SWAP", "PUSH", "POP", "LOOP", "JUMP", "RETURN", "GT_JUMP",
        "LT_JUMP", "NE_JUMP", "EQ_JUMP", "FETCH", "STORE", "ADD", "SUBTRACT", "MULTIPLY",
        "DIVMOD", "AND", "OR", "XOR", "SHL", "SHR", "ZERO_EXIT", "INC", "DEC", "IN", "OUT",
        "WAIT",
    ];
    assert_eq!(names.len(), 31);
    for (opcode, name) in names.iter().enumerate() {
        assert_eq!(opcode_to_name(opcode as i32), *name);
    }
}

#[test]
fn every_other_word_is_a_call() {
    for opcode in [31, 32, 100, 1_000_000, i32::MAX, -1, -31, i32::MIN] {
        assert_eq!(opcode_to_name(opcode), "CALL");
        assert_eq!(Instruction::decode(opcode), Instruction::Call(opcode));
    }
}

#[test]
fn decoding_follows_the_encoding() {
    assert_eq!(Instruction::decode(0), Instruction::Nop);
    assert_eq!(Instruction::decode(1), Instruction::Lit);
    assert_eq!(Instruction::decode(9), Instruction::Return);
    assert_eq!(Instruction::decode(10), Instruction::Branch(Condition::Greater));
    assert_eq!(Instruction::decode(11), Instruction::Branch(Condition::Less));
    assert_eq!(Instruction::decode(12), Instruction::Branch(Condition::NotEqual));
    assert_eq!(Instruction::decode(13), Instruction::Branch(Condition::Equal));
    assert_eq!(Instruction::decode(16), Instruction::Binary(Operation::Add));
    assert_eq!(Instruction::decode(17), Instruction::Binary(Operation::Subtract));
    assert_eq!(Instruction::decode(18), Instruction::Binary(Operation::Multiply));
    assert_eq!(Instruction::decode(19), Instruction::DivMod);
    assert_eq!(Instruction::decode(20), Instruction::Binary(Operation::And));
    assert_eq!(Instruction::decode(23), Instruction::Binary(Operation::ShiftLeft));
    assert_eq!(Instruction::decode(24), Instruction::Binary(Operation::ShiftRight));
    assert_eq!(Instruction::decode(25), Instruction::ZeroExit);
    assert_eq!(Instruction::decode(30), Instruction::Wait);
}

#[test]
fn operations_take_the_top_as_their_first_operand() {
    assert_eq!(Operation::Add.apply(3, 5), 8);
    assert_eq!(Operation::Subtract.apply(3, 5), 2);
    assert_eq!(Operation::Multiply.apply(3, 5), 15);
    assert_eq!(Operation::And.apply(6, 3), 2);
    assert_eq!(Operation::Or.apply(6, 3), 7);
    assert_eq!(Operation::Xor.apply(6, 3), 5);
    assert_eq!(Operation::ShiftLeft.apply(4, 1), 16);
    assert_eq!(Operation::ShiftRight.apply(4, -16), 0x0fff_ffff);
    assert_eq!(Operation::Subtract.apply(1, i32::MIN), i32::MAX);
}

#[test]
fn conditions_compare_the_second_operand_with_the_first() {
    assert!(Condition::Greater.test(3, 5));
    assert!(!Condition::Greater.test(5, 3));
    assert!(Condition::Less.test(5, 3));
    assert!(!Condition::Less.test(3, 5));
    assert!(Condition::NotEqual.test(5, 3));
    assert!(!Condition::NotEqual.test(3, 3));
    assert!(Condition::Equal.test(3, 3));
    assert!(!Condition::Equal.test(3, 5));
}
