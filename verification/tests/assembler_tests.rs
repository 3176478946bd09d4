use nanocore::assembler::Assembler;
use nanocore::Op;

#[test]
#[allow(clippy::identity_op)]
fn test_assemble() {
    let mut c = Assembler::default();
    let _ = c.assemble(
        "LDI R0 253
                 LDI R1 65
                 PRINT R1
                 ADD R2 R1
                 SUB R2 R0
                 INC R0
                 JZ 0x18
                 INC R1
                 SHL R1
                 SHR R1
                 JMP 0x06
                 HLT",
    );

    assert_eq!(
        &c.program,
        &[
            0x02, 0x00, 0xFD, 0x02, 0x01, 0x41, 0x19, 0x01, 0x09, 0x21, 0x0B, 0x20, 0x0D, 0x00,
            0x17, 0x18, 0x0D, 0x01, 0x14, 0x01, 0x15, 0x01, 0x16, 0x06, 0x00,
        ]
    )
}

#[test]
fn test_assemble_rotate() {
    let mut c = Assembler::default();
    c.assemble(
        "LDI R0 1
             ROL R0
             ROR R0
             HLT",
    )
    .unwrap();

    assert_eq!(
        &c.program,
        &[
            Op::LDI.into(),
            0,
            1,
            Op::ROL.into(),
            0,
            Op::ROR.into(),
            0,
            Op::HLT.into()
        ]
    )
}

#[test]
fn test_assemble_stack() {
    let mut c = Assembler::default();
    c.assemble(
        "PUSH R0
             POP R1",
    )
    .unwrap();

    assert_eq!(&c.program, &[Op::PUSH.into(), 0, Op::POP.into(), 1,])
}

#[test]
fn test_assemble_arithmetic() {
    let mut c = Assembler::default();
    c.assemble(
        "ADD R0 R1
             SUB R0 R1
             MUL R0 R1
             DIV R0 R1
             MOD R0 R1
             ADDI R0 1
             SUBI R0 1
             MULI R0 1
             DIVI R0 1
             MODI R0 1",
    )
    .unwrap();

    assert_eq!(
        &c.program,
        &[
            Op::ADD.into(),
            0x01,
            Op::SUB.into(),
            0x01,
            Op::MUL.into(),
            0x01,
            Op::DIV.into(),
            0x01,
            Op::MOD.into(),
            0x01,
            Op::ADDI.into(),
            0,
            1,
            Op::SUBI.into(),
            0,
            1,
            Op::MULI.into(),
            0,
            1,
            Op::DIVI.into(),
            0,
            1,
            Op::MODI.into(),
            0,
            1,
        ]
    )
}

#[test]
fn test_assemble_control_flow() {
    let mut c = Assembler::default();
    c.assemble(
        "JMP 0x10
             JZ 0x10
             JNZ 0x10
             CALL 0x10
             RET",
    )
    .unwrap();
    assert_eq!(
        &c.program,
        &[
            Op::JMP.into(),
            0x10,
            Op::JZ.into(),
            0x10,
            Op::JNZ.into(),
            0x10,
            Op::CALL.into(),
            0x10,
            Op::RET.into(),
        ]
    )
}

#[test]
fn test_assemble_logic() {
    let mut c = Assembler::default();
    c.assemble(
        "AND R0 R1
             OR R0 R1
             XOR R0 R1
             NOT R0
             CMP R0 R1",
    )
    .unwrap();

    assert_eq!(
        &c.program,
        &[
            Op::AND.into(),
            0x01,
            Op::OR.into(),
            0x01,
            Op::XOR.into(),
            0x01,
            Op::NOT.into(),
            0,
            Op::CMP.into(),
            0x01,
        ]
    )
}

#[test]
fn test_assemble_constants() {
    let mut c = Assembler::default();
    c.assemble(
        ".CONST VAL 10
             .CONST ADDR 0x10
             LDI R0 VAL
             JMP ADDR",
    )
    .unwrap();

    assert_eq!(&c.program, &[Op::LDI.into(), 0, 10, Op::JMP.into(), 0x10,])
}

#[test]
fn test_assemble_input() {
    let mut c = Assembler::default();
    c.assemble(
        "IN R0
             PRINT R0",
    )
    .unwrap();

    assert_eq!(&c.program, &[Op::IN.into(), 0, Op::PRINT.into(), 0,])
}

#[test]
fn test_assemble_indirect_jumps() {
    let mut c = Assembler::default();
    c.assemble(
        "JMPR R0
             CALLR R1",
    )
    .unwrap();

    assert_eq!(&c.program, &[Op::JMPR.into(), 0, Op::CALLR.into(), 1,])
}

#[test]
fn test_assemble_data_directives() {
    let mut c = Assembler::default();
    c.assemble(
        ".DB 0x01 0x02 10
             .STRING \"ABC\"
             LDI R0 0xFF",
    )
    .unwrap();

    assert_eq!(
        &c.program,
        &[
            0x01,
            0x02,
            10, // .DB
            0x41,
            0x42,
            0x43, // .STRING "ABC"
            Op::LDI.into(),
            0,
            0xFF // LDI R0 0xFF
        ]
    )
}

#[test]
fn test_assemble_str() {
    let mut c = Assembler::default();
    c.assemble("STR R0 R1").unwrap();

    assert_eq!(&c.program, &[Op::STR.into(), 0x01])
}
