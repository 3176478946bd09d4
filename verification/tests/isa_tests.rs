use nanocore::nanocore::{encode, NanoCore, Operands};
use nanocore::{AssemblerError, Op, OperandShape};

const ALL: [Op; 40] = [
    Op::HLT,
    Op::NOP,
    Op::LDI,
    Op::LDA,
    Op::LDR,
    Op::MOV,
    Op::STORE,
    Op::PUSH,
    Op::POP,
    Op::ADD,
    Op::ADDI,
    Op::SUB,
    Op::SUBI,
    Op::INC,
    Op::DEC,
    Op::AND,
    Op::OR,
    Op::XOR,
    Op::NOT,
    Op::CMP,
    Op::SHL,
    Op::SHR,
    Op::JMP,
    Op::JZ,
    Op::JNZ,
    Op::PRINT,
    Op::MUL,
    Op::MULI,
    Op::DIV,
    Op::DIVI,
    Op::MOD,
    Op::MODI,
    Op::CALL,
    Op::RET,
    Op::ROL,
    Op::ROR,
    Op::IN,
    Op::JMPR,
    Op::CALLR,
    Op::STR,
];

#[test]
fn opcodes_are_the_numbers_from_zero() {
    for (i, op) in ALL.iter().enumerate() {
        assert_eq!(u8::from(*op), i as u8);
    }
    assert_eq!(nanocore::OPCODE_COUNT, 40);
}

#[test]
fn opcode_round_trip_for_every_operation() {
    for op in ALL {
        let byte: u8 = op.into();
        assert_eq!(Op::from(byte), op);
    }
}

#[test]
fn byte_round_trip_for_every_assigned_byte() {
    for byte in 0u8..40 {
        assert_eq!(u8::from(Op::from(byte)), byte);
    }
}

#[test]
fn unassigned_bytes_decode_to_nop() {
    for byte in 40u8..=255 {
        assert_eq!(Op::from(byte), Op::NOP);
    }
}

#[test]
fn mnemonic_round_trip_for_every_operation() {
    for op in ALL {
        assert_eq!(Op::parse(op.name()), Ok(op));
        let chars: Vec<char> = op.name().chars().collect();
        assert_eq!(Op::from_mnemonic(&chars), Some(op));
    }
}

#[test]
fn mnemonics_as_written() {
    assert_eq!(Op::STORE.name(), "STORE");
    assert_eq!(Op::JZ.name(), "JZ");
    assert_eq!(Op::CALLR.name(), "CALLR");
    let text: &str = Op::PRINT.into();
    assert_eq!(text, "PRINT");
}

#[test]
fn unknown_mnemonic_is_a_syntax_error() {
    assert_eq!(
        Op::parse("FOO"),
        Err(AssemblerError::SyntaxError {
            line: 0,
            message: "Invalid operation: FOO".to_string()
        })
    );
    assert!(Op::parse("ldi").is_err());
    assert!(Op::parse("").is_err());
    assert!(Op::parse("LDI ").is_err());
    assert_eq!(Op::from_mnemonic(&['L', 'D']), None);
}

#[test]
fn instruction_lengths() {
    assert_eq!(Op::HLT.instruction_len(), 1);
    assert_eq!(Op::NOP.instruction_len(), 1);
    assert_eq!(Op::RET.instruction_len(), 1);
    for op in [Op::LDI, Op::LDA, Op::STORE, Op::ADDI, Op::SUBI, Op::MULI, Op::DIVI, Op::MODI] {
        assert_eq!(op.instruction_len(), 3);
    }
    for op in [
        Op::LDR,
        Op::MOV,
        Op::PUSH,
        Op::POP,
        Op::ADD,
        Op::SUB,
        Op::INC,
        Op::DEC,
        Op::AND,
        Op::OR,
        Op::XOR,
        Op::NOT,
        Op::CMP,
        Op::SHL,
        Op::SHR,
        Op::JMP,
        Op::JZ,
        Op::JNZ,
        Op::PRINT,
        Op::MUL,
        Op::DIV,
        Op::MOD,
        Op::CALL,
        Op::ROL,
        Op::ROR,
        Op::IN,
        Op::JMPR,
        Op::CALLR,
        Op::STR,
    ] {
        assert_eq!(op.instruction_len(), 2);
    }
}

#[test]
fn operand_shapes() {
    assert_eq!(Op::HLT.operand_shape(), OperandShape::Bare);
    assert_eq!(Op::INC.operand_shape(), OperandShape::Reg);
    assert_eq!(Op::LDI.operand_shape(), OperandShape::RegImm);
    assert_eq!(Op::ADD.operand_shape(), OperandShape::RegReg);
    assert_eq!(Op::STORE.operand_shape(), OperandShape::RegAddr);
    assert_eq!(Op::CALL.operand_shape(), OperandShape::Addr);
    assert_eq!(Operands::RegReg(1, 2).operand_shape(), OperandShape::RegReg);
    assert_eq!(Operands::Bare.operand_shape(), OperandShape::Bare);
    assert_eq!(Operands::RegImm(3, 9).parts(), (3, 9));
    assert_eq!(Operands::Addr(7).parts(), (7, 0));
}

#[test]
fn encode_gives_the_bytes_of_an_instruction() {
    assert_eq!(encode(Op::HLT, &Operands::Bare), vec![0x00]);
    assert_eq!(encode(Op::INC, &Operands::Reg(3)), vec![0x0D, 3]);
    assert_eq!(encode(Op::LDI, &Operands::RegImm(2, 200)), vec![0x02, 2, 200]);
    assert_eq!(encode(Op::ADD, &Operands::RegReg(2, 1)), vec![0x09, 0x21]);
    assert_eq!(encode(Op::ADD, &Operands::RegReg(15, 15)), vec![0x09, 0xFF]);
    assert_eq!(encode(Op::STORE, &Operands::RegAddr(1, 0x80)), vec![0x06, 1, 0x80]);
    assert_eq!(encode(Op::JMP, &Operands::Addr(0x10)), vec![0x16, 0x10]);
}

#[test]
fn fetch_decode_reads_what_encode_wrote() {
    let cases = [
        (Op::HLT, Operands::Bare),
        (Op::RET, Operands::Bare),
        (Op::PUSH, Operands::Reg(15)),
        (Op::LDI, Operands::RegImm(4, 0xAB)),
        (Op::CMP, Operands::RegReg(7, 9)),
        (Op::LDA, Operands::RegAddr(0, 0xF0)),
        (Op::CALL, Operands::Addr(0x42)),
        (Op::STR, Operands::RegReg(0, 15)),
    ];
    for (op, operands) in cases {
        let mut nano = NanoCore::new();
        nano.load_program(&encode(op, &operands), 0x20).unwrap();
        assert_eq!(nano.fetch_decode(), (op, operands));
    }
}

#[test]
fn encoding_what_was_decoded_gives_the_program_back() {
    let program: Vec<u8> = vec![
        0x02, 0x00, 0xFD, 0x02, 0x01, 0x41, 0x19, 0x01, 0x09, 0x21, 0x0B, 0x20, 0x0D, 0x00, 0x17,
        0x18, 0x0D, 0x01, 0x14, 0x01, 0x15, 0x01, 0x16, 0x06, 0x00,
    ];
    let mut nano = NanoCore::new();
    nano.load_program(&program, 0).unwrap();
    let mut again: Vec<u8> = Vec::new();
    while (nano.cpu.pc as usize) < program.len() {
        let (op, operands) = nano.fetch_decode();
        again.extend(encode(op, &operands));
        nano.cpu.pc += op.instruction_len();
    }
    assert_eq!(again, program);
}

#[test]
fn fetch_wraps_around_the_end_of_memory() {
    let mut nano = NanoCore::new();
    nano.cpu.memory[0xFF] = 0x02;
    nano.cpu.memory[0x00] = 0x05;
    nano.cpu.memory[0x01] = 0x77;
    nano.cpu.pc = 0xFF;
    assert_eq!(nano.fetch_decode(), (Op::LDI, Operands::RegImm(5, 0x77)));
    assert_eq!(nano.current_instruction_bin, "00000010 │ 0x02 │ 002");
}
