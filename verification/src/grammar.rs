//! The source language of the assembler: what a line is, what its words
//! stand for, and what the three passes over a text give. The assembler is
//! proved against these definitions.

use vstd::prelude::*;
use vstd::utf8::encode_utf8;

use crate::error::AssemblerFault;
use crate::hexlit::hex_decoded;
use crate::hexlit::is_hex_text;
use crate::nanocore::encode_instruction;
use crate::nanocore::Operands;
use crate::text::has_prefix;
use crate::text::index_of;
use crate::text::last_index_of;
use crate::text::lines;
use crate::text::parse_byte;
use crate::text::trim;
use crate::text::words;
use crate::Op;
use crate::OperandShape;

verus! {

/// What a line of source text is.
#[derive(Debug, Clone, Copy, PartialEq, Eq, Structural)]
pub enum LineKind {
    /// Nothing but white space and a comment.
    Blank,
    /// `.CONST NAME VALUE`: the definition of a constant.
    Constant,
    /// `.DB v0 v1 ...`: bytes of data.
    Bytes,
    /// `.STRING "text"`: the bytes of a text.
    Text,
    /// `NAME:`: a label for the address of what follows.
    Label,
    /// A mnemonic and its operands.
    Instruction,
}

/// The line as the assembler reads it: what stands before the first `;`,
/// without the white space around it.
pub open spec fn clean(line: Seq<char>) -> Seq<char> {
    trim(line.take(index_of(line, ';')))
}

/// The lines of a source text as the assembler reads them.
pub open spec fn source_lines(text: Seq<char>) -> Seq<Seq<char>> {
    Seq::new(lines(text).len(), |i: int| clean(lines(text)[i]))
}

/// What a line is, read by how it starts and ends. A directive is known by
/// its first characters, so a line that starts like one is none of the
/// others.
pub open spec fn kind_of(line: Seq<char>) -> LineKind {
    if line.len() == 0 {
        LineKind::Blank
    } else if has_prefix(line, ".CONST"@) {
        LineKind::Constant
    } else if has_prefix(line, ".DB"@) {
        LineKind::Bytes
    } else if has_prefix(line, ".STRING"@) {
        LineKind::Text
    } else if line.last() == ':' {
        LineKind::Label
    } else {
        LineKind::Instruction
    }
}

/// The text without the colons at its end.
pub open spec fn without_colons(s: Seq<char>) -> Seq<char>
    decreases s.len(),
{
    if s.len() > 0 && s.last() == ':' {
        without_colons(s.drop_last())
    } else {
        s
    }
}

/// A syntax error on a line.
pub open spec fn syntax_error(line: usize, message: Seq<char>) -> AssemblerFault {
    AssemblerFault::SyntaxError { line, message }
}

/// What stands between the first and the last double quote of a line.
pub open spec fn quoted(line: Seq<char>, number: usize) -> Result<Seq<char>, AssemblerFault> {
    let first = index_of(line, '"');
    let last = last_index_of(line, '"');
    if first >= line.len() {
        Err(syntax_error(number, "Expected start of string"@))
    } else if last <= first {
        Err(syntax_error(number, "Expected end of string"@))
    } else {
        Ok(line.subrange(first + 1, last))
    }
}

/// The register that a word names: `R` and a decimal number up to 15.
pub open spec fn register_value(word: Seq<char>, number: usize) -> Result<u8, AssemblerFault> {
    if word.len() > 0 && word[0] == 'R' && parse_byte(word.skip(1)) is Some && parse_byte(
        word.skip(1),
    ).unwrap() <= 15 {
        Ok(parse_byte(word.skip(1)).unwrap())
    } else {
        Err(AssemblerFault::InvalidRegister { name: word, line: number })
    }
}

/// The byte that a decimal word stands for.
pub open spec fn decimal_value_of(word: Seq<char>, number: usize) -> Result<u8, AssemblerFault> {
    match parse_byte(word) {
        Some(v) => Ok(v),
        None => Err(AssemblerFault::InvalidValue { value: word, line: number }),
    }
}

/// The byte that a hexadecimal word stands for: the first byte of its
/// digits, which may follow `0x`. The digits are read from the UTF-8 form
/// of the word.
pub open spec fn hex_value_of(word: Seq<char>, number: usize) -> Result<u8, AssemblerFault> {
    let digits = encode_utf8(
        if has_prefix(word, "0x"@) {
            word.skip(2)
        } else {
            word
        },
    );
    if !is_hex_text(digits) {
        Err(AssemblerFault::InvalidHexAddress { value: word, line: number })
    } else if digits.len() == 0 {
        Err(AssemblerFault::InvalidValue { value: word, line: number })
    } else {
        Ok(hex_decoded(digits)[0])
    }
}

/// The byte that a number stands for: hexadecimal if it starts with `0x`,
/// else decimal.
pub open spec fn number_value(word: Seq<char>, number: usize) -> Result<u8, AssemblerFault> {
    if has_prefix(word, "0x"@) {
        hex_value_of(word, number)
    } else {
        decimal_value_of(word, number)
    }
}

/// The byte that a word stands for as a value: that of the constant of this
/// name if there is one, else that of the number.
pub open spec fn resolved(constants: Map<Seq<char>, u8>, word: Seq<char>, number: usize) -> Result<
    u8,
    AssemblerFault,
> {
    if constants.contains_key(word) {
        Ok(constants[word])
    } else {
        number_value(word, number)
    }
}

/// The address that a word stands for as the target of a jump: that of the
/// label of this name if there is one, else its value.
pub open spec fn target(
    constants: Map<Seq<char>, u8>,
    labels: Map<Seq<char>, u8>,
    word: Seq<char>,
    number: usize,
) -> Result<u8, AssemblerFault> {
    if labels.contains_key(word) {
        Ok(labels[word])
    } else {
        resolved(constants, word, number)
    }
}

/// The operation that a word names.
pub open spec fn operation(word: Seq<char>, number: usize) -> Result<Op, AssemblerFault> {
    match Op::of_mnemonic(word) {
        Some(op) => Ok(op),
        None => Err(syntax_error(number, "Invalid operation: "@ + word)),
    }
}

/// The error for an instruction with too few operands.
pub open spec fn arity_error(op: Op, number: usize) -> AssemblerFault {
    if op.shape() == OperandShape::Reg || op.shape() == OperandShape::Addr {
        syntax_error(number, op.mnemonic() + " requires 1 argument"@)
    } else {
        syntax_error(number, op.mnemonic() + " requires 2 arguments"@)
    }
}

/// The operands of an instruction, from the words of its line: the word
/// after the mnemonic and, where the operation takes two, the next. Words
/// beyond those are not read.
pub open spec fn operands_of(
    op: Op,
    w: Seq<Seq<char>>,
    constants: Map<Seq<char>, u8>,
    labels: Map<Seq<char>, u8>,
    number: usize,
) -> Result<Operands, AssemblerFault> {
    match op.shape() {
        OperandShape::Bare => Ok(Operands::Bare),
        OperandShape::Reg => if w.len() < 2 {
            Err(arity_error(op, number))
        } else {
            match register_value(w[1], number) {
                Err(fault) => Err(fault),
                Ok(r) => Ok(Operands::Reg(r)),
            }
        },
        OperandShape::Addr => if w.len() < 2 {
            Err(arity_error(op, number))
        } else {
            match target(constants, labels, w[1], number) {
                Err(fault) => Err(fault),
                Ok(a) => Ok(Operands::Addr(a)),
            }
        },
        OperandShape::RegReg => if w.len() < 3 {
            Err(arity_error(op, number))
        } else {
            match register_value(w[1], number) {
                Err(fault) => Err(fault),
                Ok(rd) => match register_value(w[2], number) {
                    Err(fault) => Err(fault),
                    Ok(rs) => Ok(Operands::RegReg(rd, rs)),
                },
            }
        },
        OperandShape::RegImm | OperandShape::RegAddr => if w.len() < 3 {
            Err(arity_error(op, number))
        } else {
            match register_value(w[1], number) {
                Err(fault) => Err(fault),
                Ok(r) => match resolved(constants, w[2], number) {
                    Err(fault) => Err(fault),
                    Ok(v) => if op.shape() == OperandShape::RegImm {
                        Ok(Operands::RegImm(r, v))
                    } else {
                        Ok(Operands::RegAddr(r, v))
                    },
                },
            }
        },
    }
}

/// The instruction that a line holds: the operation its first word names
/// and the operands the next words stand for. A line without a word holds
/// none.
pub open spec fn instruction_of(
    line: Seq<char>,
    constants: Map<Seq<char>, u8>,
    labels: Map<Seq<char>, u8>,
    number: usize,
) -> Result<Option<(Op, Operands)>, AssemblerFault> {
    if words(line).len() == 0 {
        Ok(None)
    } else {
        match operation(words(line)[0], number) {
            Err(fault) => Err(fault),
            Ok(op) => match operands_of(op, words(line), constants, labels, number) {
                Err(fault) => Err(fault),
                Ok(x) => Ok(Some((op, x))),
            },
        }
    }
}

/// The bytes that the words of a `.DB` line stand for, up to word `n`: the
/// values of the words after the first.
pub open spec fn data_bytes(
    constants: Map<Seq<char>, u8>,
    w: Seq<Seq<char>>,
    n: int,
    number: usize,
) -> Result<Seq<u8>, AssemblerFault>
    decreases n,
{
    if n <= 1 {
        Ok(Seq::empty())
    } else {
        match data_bytes(constants, w, n - 1, number) {
            Err(fault) => Err(fault),
            Ok(bytes) => match resolved(constants, w[n - 1], number) {
                Err(fault) => Err(fault),
                Ok(v) => Ok(bytes.push(v)),
            },
        }
    }
}

/// The bytes that a line adds to the program.
pub open spec fn emitted(
    line: Seq<char>,
    constants: Map<Seq<char>, u8>,
    labels: Map<Seq<char>, u8>,
    number: usize,
) -> Result<Seq<u8>, AssemblerFault> {
    match kind_of(line) {
        LineKind::Blank | LineKind::Constant | LineKind::Label => Ok(Seq::empty()),
        LineKind::Bytes => data_bytes(constants, words(line), words(line).len() as int, number),
        LineKind::Text => match quoted(line, number) {
            Err(fault) => Err(fault),
            Ok(content) => Ok(encode_utf8(content)),
        },
        LineKind::Instruction => match instruction_of(line, constants, labels, number) {
            Err(fault) => Err(fault),
            Ok(None) => Ok(Seq::empty()),
            Ok(Some((op, x))) => Ok(encode_instruction(op, x)),
        },
    }
}

/// The number of bytes that a line adds to the program, modulo 256. It is
/// known without the constants and the labels.
pub open spec fn size_of(line: Seq<char>, number: usize) -> Result<u8, AssemblerFault> {
    match kind_of(line) {
        LineKind::Blank | LineKind::Constant | LineKind::Label => Ok(0),
        LineKind::Bytes => Ok(((words(line).len() - 1) % 256) as u8),
        LineKind::Text => match quoted(line, number) {
            Err(fault) => Err(fault),
            Ok(content) => Ok((encode_utf8(content).len() % 256) as u8),
        },
        LineKind::Instruction => if words(line).len() == 0 {
            Ok(0)
        } else {
            match operation(words(line)[0], number) {
                Err(fault) => Err(fault),
                Ok(op) => Ok(op.len()),
            }
        },
    }
}

/// The constants after a line: a `.CONST` line defines its second word as
/// the value of its third.
pub open spec fn constant_step(
    constants: Map<Seq<char>, u8>,
    line: Seq<char>,
    number: usize,
) -> Result<Map<Seq<char>, u8>, AssemblerFault> {
    if kind_of(line) != LineKind::Constant {
        Ok(constants)
    } else if words(line).len() < 3 {
        Err(syntax_error(number, "Invalid constant definition"@))
    } else {
        match number_value(words(line)[2], number) {
            Err(fault) => Err(fault),
            Ok(v) => Ok(constants.insert(words(line)[1], v)),
        }
    }
}

/// The first pass over the first `n` lines: the constants they define, and
/// the error of the first line that is in error; no line is read after it.
pub open spec fn constants_pass(ls: Seq<Seq<char>>, n: int, constants: Map<Seq<char>, u8>) -> (
    Map<Seq<char>, u8>,
    Option<AssemblerFault>,
)
    decreases n,
{
    if n <= 0 {
        (constants, None)
    } else {
        let before = constants_pass(ls, n - 1, constants);
        if before.1 is Some {
            before
        } else {
            match constant_step(before.0, ls[n - 1], n as usize) {
                Err(fault) => (before.0, Some(fault)),
                Ok(next) => (next, None),
            }
        }
    }
}

/// Where the second pass stands: the labels found and the address of the
/// next byte of the program.
pub struct LabelScan {
    pub labels: Map<Seq<char>, u8>,
    pub address: u8,
}

/// The second pass after a line: a label gets the address of the next
/// byte, any other line moves that address on by its size, modulo 256.
pub open spec fn label_step(scan: LabelScan, line: Seq<char>, number: usize) -> Result<
    LabelScan,
    AssemblerFault,
> {
    match size_of(line, number) {
        Err(fault) => Err(fault),
        Ok(size) => Ok(
            LabelScan {
                labels: if kind_of(line) == LineKind::Label {
                    scan.labels.insert(without_colons(line), scan.address)
                } else {
                    scan.labels
                },
                address: ((scan.address + size) % 256) as u8,
            },
        ),
    }
}

/// The second pass over the first `n` lines: the labels they define with
/// their addresses, and the error of the first line that is in error.
pub open spec fn labels_pass(ls: Seq<Seq<char>>, n: int, start: LabelScan) -> (
    LabelScan,
    Option<AssemblerFault>,
)
    decreases n,
{
    if n <= 0 {
        (start, None)
    } else {
        let before = labels_pass(ls, n - 1, start);
        if before.1 is Some {
            before
        } else {
            match label_step(before.0, ls[n - 1], n as usize) {
                Err(fault) => (before.0, Some(fault)),
                Ok(next) => (next, None),
            }
        }
    }
}

/// The third pass over the first `n` lines: the bytes they add to the
/// program, or the error of the first line that is in error.
pub open spec fn emit_pass(
    ls: Seq<Seq<char>>,
    n: int,
    constants: Map<Seq<char>, u8>,
    labels: Map<Seq<char>, u8>,
) -> Result<Seq<u8>, AssemblerFault>
    decreases n,
{
    if n <= 0 {
        Ok(Seq::empty())
    } else {
        match emit_pass(ls, n - 1, constants, labels) {
            Err(fault) => Err(fault),
            Ok(bytes) => match emitted(ls[n - 1], constants, labels, n as usize) {
                Err(fault) => Err(fault),
                Ok(more) => Ok(bytes + more),
            },
        }
    }
}

} // verus!
