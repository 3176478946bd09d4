//! What can go wrong while a program runs, and while one is assembled.

use vstd::prelude::*;

use crate::render::decimal;
use crate::render::hex_byte;
use crate::render::push_decimal;
use crate::render::push_hex_byte;
use crate::render::push_text;

verus! {

/// Errors that can occur during emulation.
#[derive(Debug, Clone, PartialEq, Eq)]
pub enum EmulatorError {
    /// An instruction was given operands that it cannot take: another shape
    /// than its own, or a register that does not exist.
    InvalidOperand { op: String, expected: String, got: String },
    /// A push with the stack pointer at the lowest address of the stack.
    StackOverflow { sp: u8 },
    /// A pop with the stack pointer at the highest address of the stack.
    StackUnderflow { sp: u8 },
    /// A program that does not fit into memory from its start address.
    ProgramTooLarge { size: usize, start: u8, max: usize },
    /// Division or modulus by zero.
    DivisionByZero { op: String },
    /// Input or output failed.
    IoError(String),
}

/// An `EmulatorError` with its texts as sequences of characters.
pub enum EmulatorFault {
    InvalidOperand { op: Seq<char>, expected: Seq<char>, got: Seq<char> },
    StackOverflow { sp: u8 },
    StackUnderflow { sp: u8 },
    ProgramTooLarge { size: usize, start: u8, max: usize },
    DivisionByZero { op: Seq<char> },
    IoError(Seq<char>),
}

impl View for EmulatorError {
    type V = EmulatorFault;

    open spec fn view(&self) -> EmulatorFault {
        match self {
            EmulatorError::InvalidOperand { op, expected, got } => EmulatorFault::InvalidOperand {
                op: op@,
                expected: expected@,
                got: got@,
            },
            EmulatorError::StackOverflow { sp } => EmulatorFault::StackOverflow { sp: *sp },
            EmulatorError::StackUnderflow { sp } => EmulatorFault::StackUnderflow { sp: *sp },
            EmulatorError::ProgramTooLarge { size, start, max } => EmulatorFault::ProgramTooLarge {
                size: *size,
                start: *start,
                max: *max,
            },
            EmulatorError::DivisionByZero { op } => EmulatorFault::DivisionByZero { op: op@ },
            EmulatorError::IoError(text) => EmulatorFault::IoError(text@),
        }
    }
}

impl EmulatorFault {
    /// The error in words.
    pub open spec fn text(self) -> Seq<char> {
        match self {
            EmulatorFault::InvalidOperand { op, expected, got } => op + " expects "@ + expected
                + " operand, got "@ + got,
            EmulatorFault::StackOverflow { sp } => "Stack overflow at SP="@ + hex_byte(sp),
            EmulatorFault::StackUnderflow { sp } => "Stack underflow at SP="@ + hex_byte(sp),
            EmulatorFault::ProgramTooLarge { size, start, max } => "Program too large: "@ + decimal(
                size as nat,
            ) + " bytes starting at "@ + hex_byte(start) + " exceeds "@ + decimal(max as nat)
                + "-byte memory limit"@,
            EmulatorFault::DivisionByZero { op } => op + ": division by zero"@,
            EmulatorFault::IoError(text) => "I/O error: "@ + text,
        }
    }
}

impl EmulatorError {
    /// The error in words.
    pub fn message(&self) -> (s: String)
        ensures
            s@ == self@.text(),
    {
        let mut s = String::new();
        match self {
            EmulatorError::InvalidOperand { op, expected, got } => {
                push_text(&mut s, op.as_str());
                push_text(&mut s, " expects ");
                push_text(&mut s, expected.as_str());
                push_text(&mut s, " operand, got ");
                push_text(&mut s, got.as_str());
            },
            EmulatorError::StackOverflow { sp } => {
                push_text(&mut s, "Stack overflow at SP=");
                push_hex_byte(&mut s, *sp);
            },
            EmulatorError::StackUnderflow { sp } => {
                push_text(&mut s, "Stack underflow at SP=");
                push_hex_byte(&mut s, *sp);
            },
            EmulatorError::ProgramTooLarge { size, start, max } => {
                push_text(&mut s, "Program too large: ");
                push_decimal(&mut s, *size);
                push_text(&mut s, " bytes starting at ");
                push_hex_byte(&mut s, *start);
                push_text(&mut s, " exceeds ");
                push_decimal(&mut s, *max);
                push_text(&mut s, "-byte memory limit");
            },
            EmulatorError::DivisionByZero { op } => {
                push_text(&mut s, op.as_str());
                push_text(&mut s, ": division by zero");
            },
            EmulatorError::IoError(text) => {
                push_text(&mut s, "I/O error: ");
                push_text(&mut s, text.as_str());
            },
        }
        s
    }
}

/// Errors that can occur during assembly. Each holds the number of the
/// source line it was found on, counted from 1.
#[derive(Debug, Clone, PartialEq, Eq)]
pub enum AssemblerError {
    /// A line that is not well formed: an unknown mnemonic, too few
    /// operands, a directive that lacks a part.
    SyntaxError { line: usize, message: String },
    /// A word that should name one of the registers `R0` to `R15`.
    InvalidRegister { name: String, line: usize },
    /// A word that should be a number from 0 to 255.
    InvalidValue { value: String, line: usize },
    /// A word that starts as a hexadecimal number and is none.
    InvalidHexAddress { value: String, line: usize },
    /// A name that is no label. The assembler itself reads the target of a
    /// jump that is no label as a number, and so reports a name it does not
    /// know as an invalid value.
    UndefinedLabel { label: String, line: usize },
}

/// An `AssemblerError` with its texts as sequences of characters.
pub enum AssemblerFault {
    SyntaxError { line: usize, message: Seq<char> },
    InvalidRegister { name: Seq<char>, line: usize },
    InvalidValue { value: Seq<char>, line: usize },
    InvalidHexAddress { value: Seq<char>, line: usize },
    UndefinedLabel { label: Seq<char>, line: usize },
}

impl View for AssemblerError {
    type V = AssemblerFault;

    open spec fn view(&self) -> AssemblerFault {
        match self {
            AssemblerError::SyntaxError { line, message } => AssemblerFault::SyntaxError {
                line: *line,
                message: message@,
            },
            AssemblerError::InvalidRegister { name, line } => AssemblerFault::InvalidRegister {
                name: name@,
                line: *line,
            },
            AssemblerError::InvalidValue { value, line } => AssemblerFault::InvalidValue {
                value: value@,
                line: *line,
            },
            AssemblerError::InvalidHexAddress { value, line } => AssemblerFault::InvalidHexAddress {
                value: value@,
                line: *line,
            },
            AssemblerError::UndefinedLabel { label, line } => AssemblerFault::UndefinedLabel {
                label: label@,
                line: *line,
            },
        }
    }
}

impl AssemblerFault {
    /// The source line the error was found on.
    pub open spec fn line(self) -> usize {
        match self {
            AssemblerFault::SyntaxError { line, .. } => line,
            AssemblerFault::InvalidRegister { line, .. } => line,
            AssemblerFault::InvalidValue { line, .. } => line,
            AssemblerFault::InvalidHexAddress { line, .. } => line,
            AssemblerFault::UndefinedLabel { line, .. } => line,
        }
    }

    /// The error in words.
    pub open spec fn text(self) -> Seq<char> {
        match self {
            AssemblerFault::SyntaxError { line, message } => "Line "@ + decimal(line as nat)
                + ": "@ + message,
            AssemblerFault::InvalidRegister { name, line } => "Line "@ + decimal(line as nat)
                + ": Invalid register '"@ + name + "'"@,
            AssemblerFault::InvalidValue { value, line } => "Line "@ + decimal(line as nat)
                + ": Invalid value '"@ + value + "'"@,
            AssemblerFault::InvalidHexAddress { value, line } => "Line "@ + decimal(line as nat)
                + ": Invalid hex address '"@ + value + "'"@,
            AssemblerFault::UndefinedLabel { label, line } => "Line "@ + decimal(line as nat)
                + ": Undefined label '"@ + label + "'"@,
        }
    }
}

impl AssemblerError {
    /// The source line the error was found on.
    pub fn line(&self) -> (n: usize)
        ensures
            n == self@.line(),
    {
        match self {
            AssemblerError::SyntaxError { line, .. } => *line,
            AssemblerError::InvalidRegister { line, .. } => *line,
            AssemblerError::InvalidValue { line, .. } => *line,
            AssemblerError::InvalidHexAddress { line, .. } => *line,
            AssemblerError::UndefinedLabel { line, .. } => *line,
        }
    }

    /// The error in words.
    pub fn message(&self) -> (s: String)
        ensures
            s@ == self@.text(),
    {
        let mut s = String::new();
        push_text(&mut s, "Line ");
        push_decimal(&mut s, self.line());
        match self {
            AssemblerError::SyntaxError { message, .. } => {
                push_text(&mut s, ": ");
                push_text(&mut s, message.as_str());
            },
            AssemblerError::InvalidRegister { name, .. } => {
                push_text(&mut s, ": Invalid register '");
                push_text(&mut s, name.as_str());
                push_text(&mut s, "'");
            },
            AssemblerError::InvalidValue { value, .. } => {
                push_text(&mut s, ": Invalid value '");
                push_text(&mut s, value.as_str());
                push_text(&mut s, "'");
            },
            AssemblerError::InvalidHexAddress { value, .. } => {
                push_text(&mut s, ": Invalid hex address '");
                push_text(&mut s, value.as_str());
                push_text(&mut s, "'");
            },
            AssemblerError::UndefinedLabel { label, .. } => {
                push_text(&mut s, ": Undefined label '");
                push_text(&mut s, label.as_str());
                push_text(&mut s, "'");
            },
        }
        s
    }
}

/// Result type for emulator operations.
pub type EmulatorResult<T> = Result<T, EmulatorError>;

/// Result type for assembler operations.
pub type AssemblerResult<T> = Result<T, AssemblerError>;

} // verus!
