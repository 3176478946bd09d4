use nanocore::assembler::Assembler;
use nanocore::nanocore::NanoCore;
use nanocore::symbols::SymbolTable;
use nanocore::AssemblerError;

fn assemble(text: &str) -> Result<Vec<u8>, AssemblerError> {
    let mut a = Assembler::default();
    a.assemble(text)?;
    Ok(a.program)
}

fn chars(text: &str) -> Vec<char> {
    text.chars().collect()
}

#[test]
fn a_constant_gives_the_same_bytes_as_its_value() {
    let with_constant = assemble(".CONST VAL 10\nLDI R0 VAL\nHLT").unwrap();
    let with_literal = assemble("LDI R0 10\nHLT").unwrap();
    assert_eq!(with_constant, with_literal);
    assert_eq!(with_constant, vec![0x02, 0x00, 0x0A, 0x00]);
}

#[test]
fn constants_may_be_defined_after_their_use() {
    assert_eq!(
        assemble("LDI R1 TOP\n.CONST TOP 0xFE").unwrap(),
        vec![0x02, 1, 0xFE]
    );
}

#[test]
fn comments_and_blank_lines_are_skipped() {
    let program = assemble(
        "; a program\n\n   LDI R0 1 ; one\n\t\n;;\nHLT;done\n   ; indented comment\n",
    )
    .unwrap();
    assert_eq!(program, vec![0x02, 0, 1, 0x00]);
    assert_eq!(assemble("").unwrap(), Vec::<u8>::new());
    assert_eq!(assemble("\n\n\n").unwrap(), Vec::<u8>::new());
}

#[test]
fn carriage_returns_end_lines_too() {
    assert_eq!(
        assemble("LDI R0 1\r\nINC R0\r\nHLT\r\n").unwrap(),
        vec![0x02, 0, 1, 0x0D, 0, 0x00]
    );
}

#[test]
fn white_space_beyond_ascii_parts_words() {
    assert_eq!(
        assemble("\u{a0}LDI\u{2003}R3\u{3000}7\u{2028}").unwrap(),
        vec![0x02, 3, 7]
    );
}

#[test]
fn labels_stand_for_the_address_of_what_follows() {
    let program = assemble(
        "start:
            LDI R0 3
         loop:
            DEC R0
            JNZ loop
            JMP end
            NOP
         end:
            HLT",
    )
    .unwrap();
    assert_eq!(
        program,
        vec![0x02, 0, 3, 0x0E, 0, 0x18, 3, 0x16, 10, 0x01, 0x00]
    );
    let mut nano = NanoCore::new();
    nano.load_program(&program, 0).unwrap();
    nano.run().unwrap();
    assert!(nano.cpu.is_halted);
    assert_eq!(nano.cpu.registers[0], 0);
    assert_eq!(nano.cpu.pc, 10);
}

#[test]
fn labels_count_data_and_text() {
    let mut a = Assembler::default();
    a.assemble(
        "JMP code
         bytes:
         .DB 1 2 3
         text:
         .STRING \"h\u{e9}!\"
         code:
         CALL text
         HLT",
    )
    .unwrap();
    assert_eq!(a.labels.get(&chars("bytes")), Some(2));
    assert_eq!(a.labels.get(&chars("text")), Some(5));
    assert_eq!(a.labels.get(&chars("code")), Some(9));
    assert_eq!(a.labels.get(&chars("nowhere")), None);
    assert_eq!(
        a.program,
        vec![0x16, 9, 1, 2, 3, b'h', 0xC3, 0xA9, b'!', 0x20, 5, 0x00]
    );
}

#[test]
fn every_colon_at_the_end_belongs_to_the_label() {
    let mut a = Assembler::default();
    a.assemble("NOP\nhere::\nHLT").unwrap();
    assert_eq!(a.labels.get(&chars("here")), Some(1));
    assert_eq!(a.program, vec![0x01, 0x00]);
}

#[test]
fn a_label_goes_before_a_constant_and_a_number_at_a_jump() {
    let program = assemble(".CONST X 9\nNOP\nX:\nJMP X\nLDI R0 X").unwrap();
    assert_eq!(program, vec![0x01, 0x16, 1, 0x02, 0, 9]);
}

#[test]
fn label_addresses_wrap_at_256() {
    let mut text = String::new();
    for _ in 0..129 {
        text.push_str("INC R0\n");
    }
    text.push_str("far:\nHLT");
    let mut a = Assembler::default();
    a.assemble(&text).unwrap();
    assert_eq!(a.program.len(), 259);
    assert_eq!(a.labels.get(&chars("far")), Some(2));
}

#[test]
fn nop_takes_its_byte() {
    assert_eq!(assemble("NOP\nNOP\nHLT").unwrap(), vec![0x01, 0x01, 0x00]);
}

#[test]
fn words_after_the_operands_are_not_read() {
    assert_eq!(assemble("INC R1 R2 junk").unwrap(), vec![0x0D, 1]);
    assert_eq!(assemble("HLT now").unwrap(), vec![0x00]);
}

#[test]
fn numbers_in_decimal_and_in_hexadecimal() {
    assert_eq!(assemble("LDI R0 255").unwrap(), vec![0x02, 0, 255]);
    assert_eq!(assemble("LDI R0 0").unwrap(), vec![0x02, 0, 0]);
    assert_eq!(assemble("LDI R0 007").unwrap(), vec![0x02, 0, 7]);
    assert_eq!(assemble("LDI R0 +12").unwrap(), vec![0x02, 0, 12]);
    assert_eq!(assemble("LDI R0 0xff").unwrap(), vec![0x02, 0, 255]);
    assert_eq!(assemble("LDI R0 0xAb").unwrap(), vec![0x02, 0, 0xAB]);
    assert_eq!(assemble("LDI R0 0x1234").unwrap(), vec![0x02, 0, 0x12]);
    assert_eq!(assemble("LDI R+5 1").unwrap(), vec![0x02, 5, 1]);
    assert_eq!(assemble("LDI R015 1").unwrap(), vec![0x02, 15, 1]);
}

#[test]
fn two_registers_share_a_byte() {
    assert_eq!(assemble("MOV R15 R0").unwrap(), vec![0x05, 0xF0]);
    assert_eq!(assemble("MOV R0 R15").unwrap(), vec![0x05, 0x0F]);
    assert_eq!(assemble("LDR R10 R11").unwrap(), vec![0x04, 0xAB]);
}

#[test]
fn unknown_mnemonic_is_a_syntax_error_with_its_line() {
    assert_eq!(
        assemble("LDI R0 1\n\nFOO R1"),
        Err(AssemblerError::SyntaxError {
            line: 3,
            message: "Invalid operation: FOO".to_string()
        })
    );
    assert_eq!(
        assemble("hlt"),
        Err(AssemblerError::SyntaxError {
            line: 1,
            message: "Invalid operation: hlt".to_string()
        })
    );
}

#[test]
fn too_few_operands_are_a_syntax_error() {
    assert_eq!(
        assemble("LDI R0"),
        Err(AssemblerError::SyntaxError {
            line: 1,
            message: "LDI requires 2 arguments".to_string()
        })
    );
    assert_eq!(
        assemble("NOP\nADD R0"),
        Err(AssemblerError::SyntaxError {
            line: 2,
            message: "ADD requires 2 arguments".to_string()
        })
    );
    assert_eq!(
        assemble("STORE"),
        Err(AssemblerError::SyntaxError {
            line: 1,
            message: "STORE requires 2 arguments".to_string()
        })
    );
    assert_eq!(
        assemble("PUSH"),
        Err(AssemblerError::SyntaxError {
            line: 1,
            message: "PUSH requires 1 argument".to_string()
        })
    );
    assert_eq!(
        assemble("JMP"),
        Err(AssemblerError::SyntaxError {
            line: 1,
            message: "JMP requires 1 argument".to_string()
        })
    );
}

#[test]
fn a_constant_needs_a_name_and_a_value() {
    assert_eq!(
        assemble("HLT\n.CONST X"),
        Err(AssemblerError::SyntaxError {
            line: 2,
            message: "Invalid constant definition".to_string()
        })
    );
    assert_eq!(
        assemble(".CONST X 256"),
        Err(AssemblerError::InvalidValue { value: "256".to_string(), line: 1 })
    );
    assert_eq!(
        assemble(".CONST X 0xG1"),
        Err(AssemblerError::InvalidHexAddress { value: "0xG1".to_string(), line: 1 })
    );
}

#[test]
fn a_text_needs_two_quotes() {
    assert_eq!(
        assemble(".STRING abc"),
        Err(AssemblerError::SyntaxError {
            line: 1,
            message: "Expected start of string".to_string()
        })
    );
    assert_eq!(
        assemble(".STRING \"abc"),
        Err(AssemblerError::SyntaxError {
            line: 1,
            message: "Expected end of string".to_string()
        })
    );
    assert_eq!(
        assemble(".STRING \"a;b\""),
        Err(AssemblerError::SyntaxError {
            line: 1,
            message: "Expected end of string".to_string()
        })
    );
    assert_eq!(assemble(".STRING \"\"").unwrap(), Vec::<u8>::new());
    assert_eq!(
        assemble(".STRING \"a \"b\" c\"").unwrap(),
        b"a \"b\" c".to_vec()
    );
}

#[test]
fn registers_are_r0_to_r15() {
    for bad in ["R16", "R255", "R256", "RX", "R", "r1", "1", "R-1", "R 1", "R1x"] {
        let text = format!("\nINC {}", bad);
        let first = bad.split(' ').next().unwrap().to_string();
        assert_eq!(
            assemble(&text),
            Err(AssemblerError::InvalidRegister { name: first, line: 2 })
        );
    }
    assert_eq!(
        assemble("ADD R1 R16"),
        Err(AssemblerError::InvalidRegister { name: "R16".to_string(), line: 1 })
    );
    assert_eq!(
        assemble("ADD R99 R16"),
        Err(AssemblerError::InvalidRegister { name: "R99".to_string(), line: 1 })
    );
}

#[test]
fn values_are_bytes() {
    for bad in ["256", "1000", "-1", "abc", "1a", "+", "++1", "0x", "1.5"] {
        let text = format!("LDI R0 {}", bad);
        assert_eq!(
            assemble(&text),
            Err(AssemblerError::InvalidValue { value: bad.to_string(), line: 1 })
        );
    }
}

#[test]
fn hexadecimal_comes_in_pairs_of_digits() {
    for bad in ["0xF", "0xZZ", "0x123", "0x1G", "0x1 1", "0x\u{e9}"] {
        let word = bad.split(' ').next().unwrap().to_string();
        let text = format!("NOP\nNOP\nLDA R0 {}", bad);
        assert_eq!(
            assemble(&text),
            Err(AssemblerError::InvalidHexAddress { value: word, line: 3 })
        );
    }
}

#[test]
fn a_jump_to_a_name_that_is_not_defined_is_an_invalid_value() {
    assert_eq!(
        assemble("JMP nowhere"),
        Err(AssemblerError::InvalidValue { value: "nowhere".to_string(), line: 1 })
    );
}

#[test]
fn data_bytes_may_be_constants() {
    assert_eq!(
        assemble(".CONST A 65\n.DB A 0x42 67 A").unwrap(),
        vec![65, 0x42, 67, 65]
    );
    assert_eq!(assemble(".DB").unwrap(), Vec::<u8>::new());
    assert_eq!(
        assemble(".DB 1 2 300 4"),
        Err(AssemblerError::InvalidValue { value: "300".to_string(), line: 1 })
    );
}

#[test]
fn the_first_pass_fails_before_the_others() {
    // Line 1 is in error for the third pass, line 2 for the second, line 3
    // for the first.
    assert_eq!(
        assemble("LDI R99 1\nFOO\n.CONST X"),
        Err(AssemblerError::SyntaxError {
            line: 3,
            message: "Invalid constant definition".to_string()
        })
    );
    assert_eq!(
        assemble("LDI R99 1\nFOO"),
        Err(AssemblerError::SyntaxError {
            line: 2,
            message: "Invalid operation: FOO".to_string()
        })
    );
    assert_eq!(
        assemble("LDI R99 1\nHLT"),
        Err(AssemblerError::InvalidRegister { name: "R99".to_string(), line: 1 })
    );
}

#[test]
fn an_error_leaves_the_program_as_it_was() {
    let mut a = Assembler::default();
    a.assemble("LDI R0 1").unwrap();
    assert!(a.assemble("INC R0\nINC R77").is_err());
    assert_eq!(a.program, vec![0x02, 0, 1]);
    assert_eq!(a.source, "INC R0\nINC R77");
}

#[test]
fn assembling_again_adds_to_the_program() {
    let mut a = Assembler::default();
    a.assemble(".CONST ONE 1\nfirst:\nLDI R0 ONE").unwrap();
    a.assemble("JMP first\nLDI R1 ONE").unwrap();
    assert_eq!(a.program, vec![0x02, 0, 1, 0x16, 0, 0x02, 1, 1]);
}

#[test]
fn the_passes_one_by_one() {
    let mut a = Assembler::new();
    a.source = ".CONST K 0x20\nNOP\nmark:\nLDI R0 K\n.CONST K 33".to_string();
    assert_eq!(a.map_constants(), Ok(()));
    assert_eq!(a.constants.get(&chars("K")), Some(33));
    assert!(a.labels.get(&chars("mark")).is_none());
    assert_eq!(a.map_labels(), Ok(()));
    assert_eq!(a.labels.get(&chars("mark")), Some(1));
    assert!(a.program.is_empty());

    let mut a = Assembler::new();
    a.source = ".CONST A 1\n.CONST B\n.CONST C 3".to_string();
    assert_eq!(
        a.map_constants(),
        Err(AssemblerError::SyntaxError {
            line: 2,
            message: "Invalid constant definition".to_string()
        })
    );
    assert_eq!(a.constants.get(&chars("A")), Some(1));
    assert_eq!(a.constants.get(&chars("C")), None);

    let mut a = Assembler::new();
    a.source = "one:\nNOP\nBAD\ntwo:".to_string();
    assert!(a.map_labels().is_err());
    assert_eq!(a.labels.get(&chars("one")), Some(0));
    assert_eq!(a.labels.get(&chars("two")), None);
}

#[test]
fn words_on_their_own() {
    assert_eq!(Assembler::register("R0", 1), Ok(0));
    assert_eq!(Assembler::register("R15", 1), Ok(15));
    assert_eq!(
        Assembler::register("R16", 4),
        Err(AssemblerError::InvalidRegister { name: "R16".to_string(), line: 4 })
    );
    assert_eq!(Assembler::from_value_str("200", 1), Ok(200));
    assert_eq!(
        Assembler::from_value_str("0x10", 2),
        Err(AssemblerError::InvalidValue { value: "0x10".to_string(), line: 2 })
    );
    assert_eq!(Assembler::from_hex_str("0x10", 1), Ok(16));
    assert_eq!(Assembler::from_hex_str("ff", 1), Ok(255));
    assert_eq!(Assembler::from_hex_str("0x0a0b", 1), Ok(10));
    assert_eq!(
        Assembler::from_hex_str("0x", 3),
        Err(AssemblerError::InvalidValue { value: "0x".to_string(), line: 3 })
    );
    assert_eq!(
        Assembler::from_hex_str("", 3),
        Err(AssemblerError::InvalidValue { value: "".to_string(), line: 3 })
    );
    assert_eq!(
        Assembler::from_hex_str("0xabc", 5),
        Err(AssemblerError::InvalidHexAddress { value: "0xabc".to_string(), line: 5 })
    );
    let mut a = Assembler::new();
    a.constants.insert(&chars("TEN"), 10);
    a.constants.insert(&chars("0x10"), 99);
    assert_eq!(a.resolve_number("TEN", 1), Ok(10));
    assert_eq!(a.resolve_number("0x10", 1), Ok(99));
    assert_eq!(a.resolve_number("0x11", 1), Ok(17));
    assert_eq!(a.resolve_number("11", 1), Ok(11));
    assert_eq!(
        a.resolve_number("ten", 8),
        Err(AssemblerError::InvalidValue { value: "ten".to_string(), line: 8 })
    );
}

#[test]
fn lines_on_their_own() {
    assert!(Assembler::is_label("loop:"));
    assert!(Assembler::is_label(":"));
    assert!(!Assembler::is_label("loop"));
    assert!(!Assembler::is_label(""));
    assert!(!Assembler::is_label("loop: "));
    assert!(Assembler::is_constant(".CONST A 1"));
    assert!(Assembler::is_constant(".CONSTANT"));
    assert!(!Assembler::is_constant(" .CONST A 1"));
    assert!(!Assembler::is_constant(".CON"));
    assert!(Assembler::is_comment("; note"));
    assert!(!Assembler::is_comment(" ; note"));
    assert!(!Assembler::is_comment(""));
}

#[test]
fn a_table_keeps_the_last_value_of_a_name() {
    let mut t = SymbolTable::new();
    assert_eq!(t.get(&chars("a")), None);
    assert!(!t.contains(&chars("a")));
    t.insert(&chars("a"), 1);
    t.insert(&chars("b"), 2);
    t.insert(&chars("a"), 3);
    assert_eq!(t.get(&chars("a")), Some(3));
    assert_eq!(t.get(&chars("b")), Some(2));
    assert_eq!(t.get(&chars("")), None);
    assert!(t.contains(&chars("b")));
    assert_eq!(t.entries.len(), 3);
}
