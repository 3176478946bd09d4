use nanocore::{assembler::Assembler, nanocore::NanoCore};

#[test]
fn test_jmpr() {
    let mut assembler = Assembler::default();
    assembler
        .assemble(
            "LDI R0 6
         JMPR R0
         HLT
         LDI R1 1
         HLT",
        )
        .unwrap();

    let mut nano = NanoCore::new();
    nano.load_program(&assembler.program, 0).unwrap();
    nano.run().unwrap();

    assert_eq!(nano.cpu.registers[1], 1);
}

#[test]
fn test_callr() {
    let mut assembler = Assembler::default();
    assembler
        .assemble(
            "LDI R0 0x06
         CALLR R0
         HLT
         LDI R1 0xFF
         RET",
        )
        .unwrap();

    let mut vm = NanoCore::new();
    vm.load_program(&assembler.program, 0).unwrap();
    vm.run().unwrap();

    assert_eq!(vm.cpu.registers[1], 0xFF);
}
