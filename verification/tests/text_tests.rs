use nanocore::error::{AssemblerError, EmulatorError};
use nanocore::nanocore::{NanoCore, Operands};
use nanocore::render::{
    chars_of, digit_to_char, push_binary, push_chars, push_decimal, push_decimal3, push_hex_byte,
    push_text, string_of,
};
use nanocore::text::{
    find_char, find_last_char, is_whitespace, parse_decimal, same_chars, same_text, split_lines,
    split_words, starts_with, trim_slice,
};
use nanocore::trace::{log_line, opcode_line, trace};
use nanocore::Op;

fn chars(text: &str) -> Vec<char> {
    text.chars().collect()
}

fn strings(parts: Vec<Vec<char>>) -> Vec<String> {
    parts.iter().map(|p| p.iter().collect()).collect()
}

#[test]
fn white_space() {
    for c in [' ', '\t', '\n', '\r', '\u{b}', '\u{c}', '\u{85}', '\u{a0}', '\u{1680}', '\u{2000}',
        '\u{200a}', '\u{2028}', '\u{2029}', '\u{202f}', '\u{205f}', '\u{3000}']
    {
        assert!(is_whitespace(c));
        assert!(c.is_whitespace());
    }
    for c in ['a', '0', ';', '\u{200b}', '\u{8}', '\u{e}', '\u{1f}', '\u{feff}', '\u{180e}'] {
        assert!(!is_whitespace(c));
        assert!(!c.is_whitespace());
    }
    for code in 0u32..0x3100 {
        if let Some(c) = char::from_u32(code) {
            assert_eq!(is_whitespace(c), c.is_whitespace());
        }
    }
}

#[test]
fn trimming() {
    let text = chars("  \t a b \u{a0}\n");
    assert_eq!(trim_slice(&text), &chars("a b")[..]);
    assert_eq!(trim_slice(&chars("   ")), &[] as &[char]);
    assert_eq!(trim_slice(&chars("")), &[] as &[char]);
    assert_eq!(trim_slice(&chars("x")), &['x']);
}

#[test]
fn finding() {
    let text = chars("a\"b\"c");
    assert_eq!(find_char(&text, '"'), 1);
    assert_eq!(find_char(&text, 'z'), 5);
    assert_eq!(find_last_char(&text, '"'), Some(3));
    assert_eq!(find_last_char(&text, 'z'), None);
    assert_eq!(find_last_char(&text, 'a'), Some(0));
    assert!(starts_with(&text, "a\"b"));
    assert!(starts_with(&text, ""));
    assert!(!starts_with(&text, "b"));
    assert!(!starts_with(&text, "a\"b\"cd"));
    assert!(same_text(&text, "a\"b\"c"));
    assert!(!same_text(&text, "a\"b\""));
    assert!(same_chars(&text, &chars("a\"b\"c")));
    assert!(!same_chars(&text, &chars("a\"b\"d")));
}

#[test]
fn lines_and_words() {
    assert_eq!(strings(split_lines(&chars("a\nb c\n\nd"))), vec!["a", "b c", "", "d"]);
    assert_eq!(strings(split_lines(&chars("a\n"))), vec!["a", ""]);
    assert_eq!(strings(split_lines(&chars(""))), vec![""]);
    assert_eq!(
        strings(split_words(&chars("  LDI\tR0   10 "))),
        vec!["LDI", "R0", "10"]
    );
    assert_eq!(strings(split_words(&chars(" \t "))), Vec::<String>::new());
    assert_eq!(strings(split_words(&chars("one"))), vec!["one"]);
}

#[test]
fn decimal_numbers() {
    assert_eq!(parse_decimal(&chars("0")), Some(0));
    assert_eq!(parse_decimal(&chars("255")), Some(255));
    assert_eq!(parse_decimal(&chars("256")), None);
    assert_eq!(parse_decimal(&chars("0000000255")), Some(255));
    assert_eq!(parse_decimal(&chars("+7")), Some(7));
    assert_eq!(parse_decimal(&chars("-7")), None);
    assert_eq!(parse_decimal(&chars("")), None);
    assert_eq!(parse_decimal(&chars("+")), None);
    assert_eq!(parse_decimal(&chars("12a")), None);
    assert_eq!(parse_decimal(&chars("99999999999999999999")), None);
    assert_eq!(parse_decimal(&chars("\u{661}")), None);
    for n in 0u32..=300 {
        assert_eq!(
            parse_decimal(&chars(&n.to_string())),
            n.to_string().parse::<u8>().ok()
        );
    }
}

#[test]
fn numbers_as_text() {
    let mut s = String::new();
    push_decimal(&mut s, 0);
    push_text(&mut s, " ");
    push_decimal(&mut s, 1234567);
    push_text(&mut s, " ");
    push_decimal3(&mut s, 7);
    push_text(&mut s, " ");
    push_decimal3(&mut s, 255);
    push_text(&mut s, " ");
    push_hex_byte(&mut s, 0x0A);
    push_text(&mut s, " ");
    push_hex_byte(&mut s, 0xFF);
    push_text(&mut s, " ");
    push_binary(&mut s, 0b1010_0101, 8);
    push_text(&mut s, " ");
    push_binary(&mut s, 0b1010_0101, 4);
    push_chars(&mut s, &['!', '?']);
    assert_eq!(s, "0 1234567 007 255 0x0A 0xFF 10100101 0101!?");
    assert_eq!(digit_to_char(0), '0');
    assert_eq!(digit_to_char(9), '9');
    assert_eq!(digit_to_char(10), 'A');
    assert_eq!(digit_to_char(15), 'F');
    assert_eq!(string_of(&['a', '\u{e9}']), "a\u{e9}");
    assert_eq!(chars_of("a\u{e9}"), vec!['a', '\u{e9}']);
    for b in 0u8..=255 {
        let mut s = String::new();
        push_hex_byte(&mut s, b);
        assert_eq!(s, format!("{:#04X}", b));
        let mut s = String::new();
        push_decimal3(&mut s, b);
        assert_eq!(s, format!("{:03}", b));
        let mut s = String::new();
        push_binary(&mut s, b, 8);
        assert_eq!(s, format!("{:08b}", b));
        let mut s = String::new();
        push_decimal(&mut s, b as usize);
        assert_eq!(s, format!("{}", b));
    }
}

#[test]
fn emulator_errors_in_words() {
    assert_eq!(
        EmulatorError::StackOverflow { sp: 0xEA }.message(),
        "Stack overflow at SP=0xEA"
    );
    assert_eq!(
        EmulatorError::StackUnderflow { sp: 0xFF }.message(),
        "Stack underflow at SP=0xFF"
    );
    assert_eq!(
        EmulatorError::ProgramTooLarge { size: 200, start: 128, max: 256 }.message(),
        "Program too large: 200 bytes starting at 0x80 exceeds 256-byte memory limit"
    );
    assert_eq!(
        EmulatorError::DivisionByZero { op: "DIV".to_string() }.message(),
        "DIV: division by zero"
    );
    assert_eq!(
        EmulatorError::IoError("closed".to_string()).message(),
        "I/O error: closed"
    );
    assert_eq!(
        EmulatorError::InvalidOperand {
            op: "LDI".to_string(),
            expected: "register and immediate".to_string(),
            got: "register".to_string()
        }
        .message(),
        "LDI expects register and immediate operand, got register"
    );
}

#[test]
fn assembler_errors_in_words() {
    assert_eq!(
        AssemblerError::SyntaxError { line: 12, message: "LDI requires 2 arguments".to_string() }
            .message(),
        "Line 12: LDI requires 2 arguments"
    );
    assert_eq!(
        AssemblerError::InvalidRegister { name: "R16".to_string(), line: 1 }.message(),
        "Line 1: Invalid register 'R16'"
    );
    assert_eq!(
        AssemblerError::InvalidValue { value: "256".to_string(), line: 2 }.message(),
        "Line 2: Invalid value '256'"
    );
    assert_eq!(
        AssemblerError::InvalidHexAddress { value: "0xZ".to_string(), line: 3 }.message(),
        "Line 3: Invalid hex address '0xZ'"
    );
    assert_eq!(
        AssemblerError::UndefinedLabel { label: "end".to_string(), line: 100 }.message(),
        "Line 100: Undefined label 'end'"
    );
    assert_eq!(AssemblerError::UndefinedLabel { label: "end".to_string(), line: 100 }.line(), 100);
    assert_eq!(AssemblerError::SyntaxError { line: 7, message: String::new() }.line(), 7);
}

#[test]
fn the_opcode_as_text() {
    assert_eq!(opcode_line(0x02), "00000010 │ 0x02 │ 002");
    assert_eq!(opcode_line(0xFF), "11111111 │ 0xFF │ 255");
    assert_eq!(log_line("JZ    0x10| Z(0) Mem(0x00)", true), "JZ    0x10| Z(0) Mem(0x00) (SKIP)");
    assert_eq!(log_line("HLT", false), "HLT ");
}

fn traced(program: &[u8], set: &[(usize, u8)], steps: usize) -> NanoCore {
    let mut nano = NanoCore::new();
    nano.load_program(program, 0).unwrap();
    for (r, v) in set {
        nano.cpu.registers[*r] = *v;
    }
    for _ in 0..steps {
        nano.cycle().unwrap();
    }
    nano
}

#[test]
fn the_trace_of_each_kind_of_instruction() {
    let cases: Vec<(Vec<u8>, Vec<(usize, u8)>, &str)> = vec![
        (vec![0x00], vec![], "HLT"),
        (vec![0x01], vec![], "NOP"),
        (vec![0x02, 0, 10], vec![], "LDI   R0 0x0A| (010)"),
        (vec![0x03, 1, 0], vec![], "LDA   R1 0x00| (003)"),
        (vec![0x06, 2, 0x80], vec![(2, 200)], "STORE   R2 0x80| (200)"),
        (vec![0x04, 0x12], vec![(2, 1)], "LDR   R1 R2| 0x01 (018)"),
        (vec![0x27, 0x12], vec![(1, 9), (2, 0x90)], "STR   R1 R2| 0x90 (009)"),
        (vec![0x05, 0xF1], vec![(1, 77)], "MOV   R15 R1| (077)"),
        (vec![0x07, 3], vec![(3, 5)], "PUSH  R3| (005) (SP: 0xFE)"),
        (vec![0x0D, 4], vec![(4, 9)], "INC   R4| 0x0A"),
        (vec![0x0E, 4], vec![(4, 0)], "DEC   R4| 0xFF"),
        (
            vec![0x09, 0x01],
            vec![(0, 200), (1, 100)],
            "ADD   R0 R1| 200 (0xC8) + 100 (0x64) = 044 (0x2C)",
        ),
        (
            vec![0x0B, 0x01],
            vec![(0, 5), (1, 3)],
            "SUB   R0 R1| 005 (0x05) - 003 (0x03) = 002 (0x02)",
        ),
        (
            vec![0x1A, 0x01],
            vec![(0, 5), (1, 3)],
            "MUL   R0 R1| 005 (0x05) * 003 (0x03) = 015 (0x0F)",
        ),
        (
            vec![0x1C, 0x01],
            vec![(0, 7), (1, 2)],
            "DIV   R0 R1| 007 (0x07) / 002 (0x02) = 003 (0x03)",
        ),
        (
            vec![0x1E, 0x01],
            vec![(0, 7), (1, 2)],
            "MOD   R0 R1| 007 (0x07) % 002 (0x02) = 001 (0x01)",
        ),
        (
            vec![0x0A, 0, 3],
            vec![(0, 5)],
            "ADDI   R0 003| 005 (0x05) + 003 (0x03) = 008 (0x08)",
        ),
        (
            vec![0x1F, 0, 3],
            vec![(0, 5)],
            "MODI   R0 003| 005 (0x05) % 003 (0x03) = 002 (0x02)",
        ),
        (
            vec![0x0F, 0x01],
            vec![(0, 12), (1, 10)],
            "AND   R0 R1| 010 (0x0A) & 012 (0x0C) = 008 (0x08)",
        ),
        (
            vec![0x10, 0x01],
            vec![(0, 12), (1, 10)],
            "OR   R0 R1| 010 (0x0A) | 012 (0x0C) = 014 (0x0E)",
        ),
        (
            vec![0x13, 0x01],
            vec![(0, 12), (1, 10)],
            "CMP   R0 R1| 010 (0x0A) == 012 (0x0C) = 002 (0x02)",
        ),
        (
            vec![0x12, 0],
            vec![(0, 0xF0)],
            "NOT   R0| ! 240 (0xF0) (11110000) = 015 (0x0F) (00001111)",
        ),
        (vec![0x14, 0], vec![(0, 3)], "SHL   R0| 003 (00000011) << 1 = 006 (00000110)"),
        (vec![0x15, 0], vec![(0, 3)], "SHR   R0| 003 (00000011) >> 1 = 001 (00000001)"),
        (vec![0x22, 0], vec![(0, 0x81)], "ROL   R0| 129 (10000001) ROL 1 = 003 (00000011)"),
        (vec![0x23, 0], vec![(0, 0x81)], "ROR   R0| 129 (10000001) ROR 1 = 192 (11000000)"),
        (vec![0x16, 0x00], vec![], "JMP   0x00| Mem(0x16)"),
        (vec![0x17, 0x01], vec![], "JZ    0x01| Z(0) Mem(0x01)"),
        (vec![0x18, 0x01], vec![], "JNZ   0x01| Z(0) Mem(0x01)"),
        (vec![0x20, 0x01], vec![], "CALL  0x01| Mem(0x01)"),
        (vec![0x25, 0x02], vec![(2, 1)], "JMPR   R2| 0x01 Mem(0x02)"),
        (vec![0x26, 0x02], vec![(2, 1)], "CALLR   R2| 0x01 Mem(0x02)"),
        (vec![0x19, 0x01], vec![(1, 65)], "PRINT R1| 'A' (065) (0x41)"),
    ];
    for (program, set, expected) in cases {
        let nano = traced(&program, &set, 1);
        assert_eq!(nano.current_instruction, expected);
    }
}

#[test]
fn the_trace_of_pop_ret_and_in() {
    let nano = traced(&[0x07, 0, 0x08, 1], &[(0, 42)], 2);
    assert_eq!(nano.current_instruction, "POP   R1| (042) (SP: 0xFF)");
    let nano = traced(&[0x20, 0x03, 0x00, 0x21], &[], 2);
    assert_eq!(nano.current_instruction, "RET  | 0x02 Mem(0x00)");
    let mut nano = NanoCore::new();
    nano.load_program(&[0x24, 5], 0).unwrap();
    nano.input.push(200);
    nano.cycle().unwrap();
    assert_eq!(nano.current_instruction, "IN   R5| (200)");
}

#[test]
fn the_log_holds_the_instructions_before_the_last() {
    // LDI R0 1; JZ 0x00; HLT
    let nano = traced(&[0x02, 0, 1, 0x17, 0x00, 0x00], &[], 3);
    assert_eq!(
        nano.instruction_log,
        vec!["LDI   R0 0x01| (001) ", "JZ    0x00| Z(0) Mem(0x02) (SKIP)"]
    );
    assert_eq!(nano.current_instruction, "HLT");
    assert_eq!(nano.current_instruction_bin, "00000000 │ 0x00 │ 000");
    assert!(!nano.current_skipped);
}

#[test]
fn the_trace_is_made_from_the_states_before_and_after() {
    let mut nano = NanoCore::new();
    let before = nano.cpu;
    nano.execute(Op::LDI, Operands::RegImm(7, 0x80)).unwrap();
    assert_eq!(
        trace(Op::LDI, &Operands::RegImm(7, 0x80), &before, &nano.cpu),
        "LDI   R7 0x80| (128)"
    );
}
