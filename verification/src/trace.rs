//! The trace: one line of text for each instruction that was executed,
//! with its operands and what it computed. A `|` parts the instruction
//! from the details.

use vstd::prelude::*;
use vstd::slice::slice_subrange;
use vstd::slice::slice_to_vec;

use crate::cpu::flags_get;
use crate::cpu::CpuState;
use crate::cpu::CPU;
use crate::nanocore::Operands;
use crate::render::binary;
use crate::render::decimal;
use crate::render::decimal3;
use crate::render::hex_byte;
use crate::render::push_binary;
use crate::render::push_decimal;
use crate::render::push_decimal3;
use crate::render::push_hex_byte;
use crate::render::push_text;
use crate::render::chars_of;
use crate::render::string_of;
use crate::semantics::operand_fault;
use crate::text::find_char;
use crate::text::first_word;
use crate::text::has_prefix;
use crate::text::index_of;
use crate::text::remove_char;
use crate::text::split_words;
use crate::text::starts_with_chars;
use crate::text::without;
use crate::Op;

verus! {

/// The name of a register: `R` and its number.
pub open spec fn register_text(r: u8) -> Seq<char> {
    seq!['R'] + decimal(r as nat)
}

/// A byte in memory: `Mem(0x2A)`.
pub open spec fn memory_text(v: u8) -> Seq<char> {
    "Mem("@ + hex_byte(v) + ")"@
}

/// A calculation: both operands and the result, each in decimal and in
/// hexadecimal.
pub open spec fn calculation_text(v1: u8, symbol: Seq<char>, v2: u8, result: u8) -> Seq<char> {
    decimal3(v1) + " ("@ + hex_byte(v1) + ") "@ + symbol + " "@ + decimal3(v2) + " ("@ + hex_byte(
        v2,
    ) + ") = "@ + decimal3(result) + " ("@ + hex_byte(result) + ")"@
}

/// A byte in decimal, in hexadecimal and in binary.
pub open spec fn bits_text(v: u8) -> Seq<char> {
    decimal3(v) + " ("@ + hex_byte(v) + ") ("@ + binary(v, 8) + ")"@
}

/// A byte in decimal and in binary.
pub open spec fn short_bits_text(v: u8) -> Seq<char> {
    decimal3(v) + " ("@ + binary(v, 8) + ")"@
}

/// The sign under which an operation stands in the trace.
pub open spec fn symbol(op: Op) -> Seq<char> {
    match op {
        Op::ADD | Op::ADDI => "+"@,
        Op::SUB | Op::SUBI => "-"@,
        Op::MUL | Op::MULI => "*"@,
        Op::DIV | Op::DIVI => "/"@,
        Op::MOD | Op::MODI => "%"@,
        Op::AND => "&"@,
        Op::OR => "|"@,
        Op::XOR => "^"@,
        Op::CMP => "=="@,
        Op::SHL => "<<"@,
        Op::SHR => ">>"@,
        Op::ROL => "ROL"@,
        _ => "ROR"@,
    }
}

/// The opcode that was fetched: in binary, in hexadecimal and in decimal.
pub open spec fn opcode_text(opcode: u8) -> Seq<char> {
    binary(opcode, 8) + " │ "@ + hex_byte(opcode) + " │ "@ + decimal3(opcode)
}

/// The line under which an instruction goes into the log once the next one
/// is executed: a conditional jump that was not taken is marked.
pub open spec fn log_text(instruction: Seq<char>, skipped: bool) -> Seq<char> {
    instruction + " "@ + if skipped {
        "(SKIP)"@
    } else {
        ""@
    }
}

/// The trace of an instruction that took the machine from `before` to
/// `after`.
#[verifier::opaque]
pub open spec fn trace_text(op: Op, x: Operands, before: CpuState, after: CpuState) -> Seq<char> {
    let m = op.mnemonic();
    let a = x.first();
    let b = x.second();
    let reg = before.registers;
    match op {
        Op::HLT | Op::NOP => m,
        Op::LDI => m + "   "@ + register_text(a) + " "@ + hex_byte(b) + "| ("@ + decimal3(b) + ")"@,
        Op::LDA => m + "   "@ + register_text(a) + " "@ + hex_byte(b) + "| ("@ + decimal3(
            before.memory[b as int],
        ) + ")"@,
        Op::STORE => m + "   "@ + register_text(a) + " "@ + hex_byte(b) + "| ("@ + decimal3(
            reg[a as int],
        ) + ")"@,
        Op::LDR => m + "   "@ + register_text(a) + " "@ + register_text(b) + "| "@ + hex_byte(
            reg[b as int],
        ) + " ("@ + decimal3(before.memory[reg[b as int] as int]) + ")"@,
        Op::STR => m + "   "@ + register_text(a) + " "@ + register_text(b) + "| "@ + hex_byte(
            reg[b as int],
        ) + " ("@ + decimal3(reg[a as int]) + ")"@,
        Op::MOV => m + "   "@ + register_text(a) + " "@ + register_text(b) + "| ("@ + decimal3(
            reg[b as int],
        ) + ")"@,
        Op::PUSH => m + "  "@ + register_text(a) + "| ("@ + decimal3(reg[a as int]) + ") (SP: "@
            + hex_byte(after.sp) + ")"@,
        Op::POP => m + "   "@ + register_text(a) + "| ("@ + decimal3(after.registers[a as int])
            + ") (SP: "@ + hex_byte(after.sp) + ")"@,
        Op::IN => m + "   "@ + register_text(a) + "| ("@ + decimal3(after.registers[a as int])
            + ")"@,
        Op::INC | Op::DEC => m + "   "@ + register_text(a) + "| "@ + hex_byte(
            after.registers[a as int],
        ),
        Op::ADD | Op::SUB | Op::MUL | Op::DIV | Op::MOD => m + "   "@ + register_text(a) + " "@
            + register_text(b) + "| "@ + calculation_text(
            reg[a as int],
            symbol(op),
            reg[b as int],
            after.registers[a as int],
        ),
        Op::ADDI | Op::SUBI | Op::MULI | Op::DIVI | Op::MODI => m + "   "@ + register_text(a)
            + " "@ + decimal3(b) + "| "@ + calculation_text(
            reg[a as int],
            symbol(op),
            b,
            after.registers[a as int],
        ),
        Op::AND | Op::OR | Op::XOR | Op::CMP => m + "   "@ + register_text(a) + " "@
            + register_text(b) + "| "@ + calculation_text(
            reg[b as int],
            symbol(op),
            reg[a as int],
            after.registers[a as int],
        ),
        Op::NOT => m + "   "@ + register_text(a) + "| ! "@ + bits_text(reg[a as int]) + " = "@
            + bits_text(after.registers[a as int]),
        Op::SHL | Op::SHR | Op::ROL | Op::ROR => m + "   "@ + register_text(a) + "| "@
            + short_bits_text(reg[a as int]) + " "@ + symbol(op) + " 1 = "@ + short_bits_text(
            after.registers[a as int],
        ),
        Op::JMP => m + "   "@ + hex_byte(a) + "| "@ + memory_text(after.memory[a as int]),
        Op::JZ => m + "    "@ + hex_byte(a) + "| Z("@ + (if flags_get(before.flags, CPU::FLAG_Z) {
            "1"@
        } else {
            "0"@
        }) + ") "@ + memory_text(after.memory[a as int]),
        Op::JNZ => m + "   "@ + hex_byte(a) + "| Z("@ + (if flags_get(before.flags, CPU::FLAG_Z) {
            "1"@
        } else {
            "0"@
        }) + ") "@ + memory_text(after.memory[a as int]),
        Op::CALL => m + "  "@ + hex_byte(a) + "| "@ + memory_text(after.memory[a as int]),
        Op::JMPR | Op::CALLR => m + "   "@ + register_text(a) + "| "@ + hex_byte(after.pc) + " "@
            + memory_text(after.memory[after.pc as int]),
        Op::RET => m + "  | "@ + hex_byte(after.pc) + " "@ + memory_text(
            after.memory[after.pc as int],
        ),
        Op::PRINT => m + " "@ + register_text(a) + "| '"@ + seq![reg[a as int] as char] + "' ("@
            + decimal3(reg[a as int]) + ") ("@ + hex_byte(reg[a as int]) + ")"@,
    }
}

/// The three parts of a line of the trace: the mnemonic, the operands up to
/// the `|`, and the details after it without any `|`. The mnemonic is the
/// first word of the line; where the line starts with white space, the
/// operands are taken from the start of the line.
pub open spec fn parts_of(line: Seq<char>) -> (Seq<char>, Seq<char>, Seq<char>) {
    let op = first_word(line);
    let tail = if has_prefix(line, op) {
        line.skip(op.len() as int)
    } else {
        line
    };
    let bar = index_of(tail, '|');
    (op, tail.take(bar), without(tail.skip(bar), '|'))
}

/// The three parts of a line of the trace: the mnemonic, the operands and
/// the details.
pub fn get_instruction_parts(l: &str) -> (parts: (String, String, String))
    ensures
        parts.0@ == parts_of(l@).0,
        parts.1@ == parts_of(l@).1,
        parts.2@ == parts_of(l@).2,
{
    let line = chars_of(l);
    let found = split_words(line.as_slice());
    let op: Vec<char> = if found.len() > 0 {
        slice_to_vec(found[0].as_slice())
    } else {
        Vec::new()
    };
    let skipped: usize = if starts_with_chars(line.as_slice(), op.as_slice()) {
        op.len()
    } else {
        0
    };
    let tail = slice_subrange(line.as_slice(), skipped, line.len());
    proof {
        assert(tail@ =~= if has_prefix(line@, op@) {
            line@.skip(op@.len() as int)
        } else {
            line@
        });
    }
    let bar = find_char(tail, '|');
    let args = slice_subrange(tail, 0, bar);
    let after = slice_subrange(tail, bar, tail.len());
    let rest = remove_char(after, '|');
    (string_of(op.as_slice()), string_of(args), string_of(rest.as_slice()))
}

/// Appends the name of a register.
fn push_register(out: &mut String, r: u8)
    ensures
        final(out)@ == old(out)@ + register_text(r),
{
    out.push('R');
    push_decimal(out, r as usize);
}

/// Appends a byte in memory.
fn push_memory(out: &mut String, v: u8)
    ensures
        final(out)@ == old(out)@ + memory_text(v),
{
    push_text(out, "Mem(");
    push_hex_byte(out, v);
    push_text(out, ")");
}

/// Appends a calculation.
fn push_calculation(out: &mut String, v1: u8, sign: &str, v2: u8, result: u8)
    ensures
        final(out)@ == old(out)@ + calculation_text(v1, sign@, v2, result),
{
    push_decimal3(out, v1);
    push_text(out, " (");
    push_hex_byte(out, v1);
    push_text(out, ") ");
    push_text(out, sign);
    push_text(out, " ");
    push_decimal3(out, v2);
    push_text(out, " (");
    push_hex_byte(out, v2);
    push_text(out, ") = ");
    push_decimal3(out, result);
    push_text(out, " (");
    push_hex_byte(out, result);
    push_text(out, ")");
}

/// Appends a byte in decimal, in hexadecimal and in binary.
fn push_bits(out: &mut String, v: u8)
    ensures
        final(out)@ == old(out)@ + bits_text(v),
{
    push_decimal3(out, v);
    push_text(out, " (");
    push_hex_byte(out, v);
    push_text(out, ") (");
    push_binary(out, v, 8);
    push_text(out, ")");
}

/// Appends a byte in decimal and in binary.
fn push_short_bits(out: &mut String, v: u8)
    ensures
        final(out)@ == old(out)@ + short_bits_text(v),
{
    push_decimal3(out, v);
    push_text(out, " (");
    push_binary(out, v, 8);
    push_text(out, ")");
}

/// The sign under which an operation stands in the trace.
fn sign(op: Op) -> (s: &'static str)
    ensures
        s@ == symbol(op),
{
    match op {
        Op::ADD | Op::ADDI => "+",
        Op::SUB | Op::SUBI => "-",
        Op::MUL | Op::MULI => "*",
        Op::DIV | Op::DIVI => "/",
        Op::MOD | Op::MODI => "%",
        Op::AND => "&",
        Op::OR => "|",
        Op::XOR => "^",
        Op::CMP => "==",
        Op::SHL => "<<",
        Op::SHR => ">>",
        Op::ROL => "ROL",
        _ => "ROR",
    }
}

/// The opcode that was fetched, as text.
pub fn opcode_line(opcode: u8) -> (s: String)
    ensures
        s@ == opcode_text(opcode),
{
    let mut s = String::new();
    push_binary(&mut s, opcode, 8);
    push_text(&mut s, " │ ");
    push_hex_byte(&mut s, opcode);
    push_text(&mut s, " │ ");
    push_decimal3(&mut s, opcode);
    s
}

/// The line under which an instruction goes into the log.
pub fn log_line(instruction: &str, skipped: bool) -> (s: String)
    ensures
        s@ == log_text(instruction@, skipped),
{
    let mut s = String::new();
    push_text(&mut s, instruction);
    push_text(&mut s, " ");
    if skipped {
        push_text(&mut s, "(SKIP)");
    } else {
        push_text(&mut s, "");
    }
    s
}

/// The trace of an instruction that took the machine from `before` to
/// `after`.
pub fn trace(op: Op, operands: &Operands, before: &CPU, after: &CPU) -> (s: String)
    requires
        operand_fault(op, *operands) is None,
    ensures
        s@ == trace_text(op, *operands, before@, after@),
{
    reveal(trace_text);
    let (a, b) = operands.parts();
    let mut s = String::new();
    push_text(&mut s, op.name());
    match op {
        Op::HLT | Op::NOP => {},
        Op::LDI => {
            push_text(&mut s, "   ");
            push_register(&mut s, a);
            push_text(&mut s, " ");
            push_hex_byte(&mut s, b);
            push_text(&mut s, "| (");
            push_decimal3(&mut s, b);
            push_text(&mut s, ")");
        },
        Op::LDA => {
            push_text(&mut s, "   ");
            push_register(&mut s, a);
            push_text(&mut s, " ");
            push_hex_byte(&mut s, b);
            push_text(&mut s, "| (");
            push_decimal3(&mut s, before.memory[b as usize]);
            push_text(&mut s, ")");
        },
        Op::STORE => {
            push_text(&mut s, "   ");
            push_register(&mut s, a);
            push_text(&mut s, " ");
            push_hex_byte(&mut s, b);
            push_text(&mut s, "| (");
            push_decimal3(&mut s, before.registers[a as usize]);
            push_text(&mut s, ")");
        },
        Op::LDR => {
            let addr = before.registers[b as usize];
            push_text(&mut s, "   ");
            push_register(&mut s, a);
            push_text(&mut s, " ");
            push_register(&mut s, b);
            push_text(&mut s, "| ");
            push_hex_byte(&mut s, addr);
            push_text(&mut s, " (");
            push_decimal3(&mut s, before.memory[addr as usize]);
            push_text(&mut s, ")");
        },
        Op::STR => {
            push_text(&mut s, "   ");
            push_register(&mut s, a);
            push_text(&mut s, " ");
            push_register(&mut s, b);
            push_text(&mut s, "| ");
            push_hex_byte(&mut s, before.registers[b as usize]);
            push_text(&mut s, " (");
            push_decimal3(&mut s, before.registers[a as usize]);
            push_text(&mut s, ")");
        },
        Op::MOV => {
            push_text(&mut s, "   ");
            push_register(&mut s, a);
            push_text(&mut s, " ");
            push_register(&mut s, b);
            push_text(&mut s, "| (");
            push_decimal3(&mut s, before.registers[b as usize]);
            push_text(&mut s, ")");
        },
        Op::PUSH => {
            push_text(&mut s, "  ");
            push_register(&mut s, a);
            push_text(&mut s, "| (");
            push_decimal3(&mut s, before.registers[a as usize]);
            push_text(&mut s, ") (SP: ");
            push_hex_byte(&mut s, after.sp);
            push_text(&mut s, ")");
        },
        Op::POP => {
            push_text(&mut s, "   ");
            push_register(&mut s, a);
            push_text(&mut s, "| (");
            push_decimal3(&mut s, after.registers[a as usize]);
            push_text(&mut s, ") (SP: ");
            push_hex_byte(&mut s, after.sp);
            push_text(&mut s, ")");
        },
        Op::IN => {
            push_text(&mut s, "   ");
            push_register(&mut s, a);
            push_text(&mut s, "| (");
            push_decimal3(&mut s, after.registers[a as usize]);
            push_text(&mut s, ")");
        },
        Op::INC | Op::DEC => {
            push_text(&mut s, "   ");
            push_register(&mut s, a);
            push_text(&mut s, "| ");
            push_hex_byte(&mut s, after.registers[a as usize]);
        },
        Op::ADD | Op::SUB | Op::MUL | Op::DIV | Op::MOD => {
            push_text(&mut s, "   ");
            push_register(&mut s, a);
            push_text(&mut s, " ");
            push_register(&mut s, b);
            push_text(&mut s, "| ");
            push_calculation(
                &mut s,
                before.registers[a as usize],
                sign(op),
                before.registers[b as usize],
                after.registers[a as usize],
            );
        },
        Op::ADDI | Op::SUBI | Op::MULI | Op::DIVI | Op::MODI => {
            push_text(&mut s, "   ");
            push_register(&mut s, a);
            push_text(&mut s, " ");
            push_decimal3(&mut s, b);
            push_text(&mut s, "| ");
            push_calculation(
                &mut s,
                before.registers[a as usize],
                sign(op),
                b,
                after.registers[a as usize],
            );
        },
        Op::AND | Op::OR | Op::XOR | Op::CMP => {
            push_text(&mut s, "   ");
            push_register(&mut s, a);
            push_text(&mut s, " ");
            push_register(&mut s, b);
            push_text(&mut s, "| ");
            push_calculation(
                &mut s,
                before.registers[b as usize],
                sign(op),
                before.registers[a as usize],
                after.registers[a as usize],
            );
        },
        Op::NOT => {
            push_text(&mut s, "   ");
            push_register(&mut s, a);
            push_text(&mut s, "| ! ");
            push_bits(&mut s, before.registers[a as usize]);
            push_text(&mut s, " = ");
            push_bits(&mut s, after.registers[a as usize]);
        },
        Op::SHL | Op::SHR | Op::ROL | Op::ROR => {
            push_text(&mut s, "   ");
            push_register(&mut s, a);
            push_text(&mut s, "| ");
            push_short_bits(&mut s, before.registers[a as usize]);
            push_text(&mut s, " ");
            push_text(&mut s, sign(op));
            push_text(&mut s, " 1 = ");
            push_short_bits(&mut s, after.registers[a as usize]);
        },
        Op::JMP => {
            push_text(&mut s, "   ");
            push_hex_byte(&mut s, a);
            push_text(&mut s, "| ");
            push_memory(&mut s, after.memory[a as usize]);
        },
        Op::JZ => {
            push_text(&mut s, "    ");
            push_hex_byte(&mut s, a);
            push_text(&mut s, "| Z(");
            if before.get_flag(CPU::FLAG_Z) {
                push_text(&mut s, "1");
            } else {
                push_text(&mut s, "0");
            }
            push_text(&mut s, ") ");
            push_memory(&mut s, after.memory[a as usize]);
        },
        Op::JNZ => {
            push_text(&mut s, "   ");
            push_hex_byte(&mut s, a);
            push_text(&mut s, "| Z(");
            if before.get_flag(CPU::FLAG_Z) {
                push_text(&mut s, "1");
            } else {
                push_text(&mut s, "0");
            }
            push_text(&mut s, ") ");
            push_memory(&mut s, after.memory[a as usize]);
        },
        Op::CALL => {
            push_text(&mut s, "  ");
            push_hex_byte(&mut s, a);
            push_text(&mut s, "| ");
            push_memory(&mut s, after.memory[a as usize]);
        },
        Op::JMPR | Op::CALLR => {
            push_text(&mut s, "   ");
            push_register(&mut s, a);
            push_text(&mut s, "| ");
            push_hex_byte(&mut s, after.pc);
            push_text(&mut s, " ");
            push_memory(&mut s, after.memory[after.pc as usize]);
        },
        Op::RET => {
            push_text(&mut s, "  | ");
            push_hex_byte(&mut s, after.pc);
            push_text(&mut s, " ");
            push_memory(&mut s, after.memory[after.pc as usize]);
        },
        Op::PRINT => {
            let value = before.registers[a as usize];
            push_text(&mut s, " ");
            push_register(&mut s, a);
            push_text(&mut s, "| '");
            s.push(value as char);
            push_text(&mut s, "' (");
            push_decimal3(&mut s, value);
            push_text(&mut s, ") (");
            push_hex_byte(&mut s, value);
            push_text(&mut s, ")");
        },
    }
    s
}

} // verus!
