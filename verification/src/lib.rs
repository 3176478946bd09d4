//! An emulator for a minimal 8-bit computer and the assembler for its
//! instruction set.
//!
//! The machine has sixteen 8-bit registers, an 8-bit program counter and
//! stack pointer, and 256 bytes of memory shared by code, data and stack.
//! This file holds the instruction set: every operation with its opcode,
//! its mnemonic, the shape of its operands and its encoded length. The
//! engine decodes with this table and the assembler encodes with it.

use vstd::prelude::*;

pub mod assembler;
pub mod cpu;
pub mod error;
pub mod grammar;
pub mod hexlit;
pub mod laws;
pub mod nanocore;
pub mod render;
pub mod semantics;
pub mod symbols;
pub mod text;
pub mod trace;
pub mod tui;

pub use crate::error::AssemblerError;
pub use crate::error::AssemblerResult;
pub use crate::error::EmulatorError;
pub use crate::error::EmulatorResult;

verus! {

/// The operations of the instruction set.
#[derive(Debug, Clone, Copy, PartialEq, Eq, Structural)]
pub enum Op {
    /// Halt: `HLT`
    HLT,
    /// No operation: `NOP`
    NOP,
    /// Load immediate: `LDI Rx 123`
    LDI,
    /// Load from address: `LDA Rx 0xF1`
    LDA,
    /// Load from the address held in a register: `LDR Rx Ry`
    LDR,
    /// Copy a register: `MOV Rx Ry`
    MOV,
    /// Store to address: `STORE Rx 0xF1`
    STORE,
    /// Push a register: `PUSH Rx`
    PUSH,
    /// Pop into a register: `POP Rx`
    POP,
    /// `ADD Rx Ry` (Rx = Rx + Ry)
    ADD,
    /// `ADDI Rx 123` (Rx = Rx + 123)
    ADDI,
    /// `SUB Rx Ry` (Rx = Rx - Ry)
    SUB,
    /// `SUBI Rx 123` (Rx = Rx - 123)
    SUBI,
    /// `INC Rx` (Rx = Rx + 1)
    INC,
    /// `DEC Rx` (Rx = Rx - 1)
    DEC,
    /// `AND Rx Ry` (Rx = Rx & Ry)
    AND,
    /// `OR Rx Ry` (Rx = Rx | Ry)
    OR,
    /// `XOR Rx Ry` (Rx = Rx ^ Ry)
    XOR,
    /// `NOT Rx` (Rx = !Rx)
    NOT,
    /// `CMP Rx Ry` (Rx = 0, 1 or 2: how Ry compares with Rx)
    CMP,
    /// Jump: `JMP 0xAB`
    JMP,
    /// Jump if the zero flag is set: `JZ 0xAB`
    JZ,
    /// Jump if the zero flag is clear: `JNZ 0xAB`
    JNZ,
    /// Shift left by one: `SHL Rx`
    SHL,
    /// Shift right by one: `SHR Rx`
    SHR,
    /// Append a register's byte to the output: `PRINT Rx`
    PRINT,
    /// `MUL Rx Ry` (Rx = Rx * Ry)
    MUL,
    /// `MULI Rx 123` (Rx = Rx * 123)
    MULI,
    /// `DIV Rx Ry` (Rx = Rx / Ry)
    DIV,
    /// `DIVI Rx 123` (Rx = Rx / 123)
    DIVI,
    /// `MOD Rx Ry` (Rx = Rx % Ry)
    MOD,
    /// `MODI Rx 123` (Rx = Rx % 123)
    MODI,
    /// Call a subroutine: `CALL 0xAB`
    CALL,
    /// Return from a subroutine: `RET`
    RET,
    /// Rotate left by one: `ROL Rx`
    ROL,
    /// Rotate right by one: `ROR Rx`
    ROR,
    /// Take the next input byte into a register: `IN Rx`
    IN,
    /// Jump to the address held in a register: `JMPR Rx`
    JMPR,
    /// Call the subroutine at the address held in a register: `CALLR Rx`
    CALLR,
    /// Store to the address held in a register: `STR Rx Ry`
    STR,
}

/// Which operands follow an opcode.
#[derive(Debug, Clone, Copy, PartialEq, Eq, Structural)]
pub enum OperandShape {
    /// No operand.
    Bare,
    /// One register, one byte.
    Reg,
    /// A register and an immediate value, one byte each.
    RegImm,
    /// Two registers packed into one byte, the destination in the high nibble.
    RegReg,
    /// A register and an address, one byte each.
    RegAddr,
    /// An address, one byte.
    Addr,
}

/// The number of opcodes in use: the bytes below it are assigned.
pub const OPCODE_COUNT: u8 = 0x28;

impl OperandShape {
    /// How many bytes the operands take after the opcode.
    pub open spec fn width(self) -> u8 {
        match self {
            OperandShape::Bare => 0,
            OperandShape::Reg | OperandShape::RegReg | OperandShape::Addr => 1,
            OperandShape::RegImm | OperandShape::RegAddr => 2,
        }
    }
}

impl Op {
    /// The byte that encodes the operation.
    pub open spec fn opcode(self) -> u8 {
        match self {
            Op::HLT => 0x00,
            Op::NOP => 0x01,
            Op::LDI => 0x02,
            Op::LDA => 0x03,
            Op::LDR => 0x04,
            Op::MOV => 0x05,
            Op::STORE => 0x06,
            Op::PUSH => 0x07,
            Op::POP => 0x08,
            Op::ADD => 0x09,
            Op::ADDI => 0x0A,
            Op::SUB => 0x0B,
            Op::SUBI => 0x0C,
            Op::INC => 0x0D,
            Op::DEC => 0x0E,
            Op::AND => 0x0F,
            Op::OR => 0x10,
            Op::XOR => 0x11,
            Op::NOT => 0x12,
            Op::CMP => 0x13,
            Op::SHL => 0x14,
            Op::SHR => 0x15,
            Op::JMP => 0x16,
            Op::JZ => 0x17,
            Op::JNZ => 0x18,
            Op::PRINT => 0x19,
            Op::MUL => 0x1A,
            Op::MULI => 0x1B,
            Op::DIV => 0x1C,
            Op::DIVI => 0x1D,
            Op::MOD => 0x1E,
            Op::MODI => 0x1F,
            Op::CALL => 0x20,
            Op::RET => 0x21,
            Op::ROL => 0x22,
            Op::ROR => 0x23,
            Op::IN => 0x24,
            Op::JMPR => 0x25,
            Op::CALLR => 0x26,
            Op::STR => 0x27,
        }
    }

    /// Whether a byte is the opcode of some operation.
    pub open spec fn is_assigned(b: u8) -> bool {
        b < OPCODE_COUNT
    }

    /// The operation a byte decodes to. Every byte decodes: one that is not
    /// assigned is a `NOP`.
    pub open spec fn of_byte(b: u8) -> Op {
        if b == 0x00 {
            Op::HLT
        } else if b == 0x02 {
            Op::LDI
        } else if b == 0x03 {
            Op::LDA
        } else if b == 0x04 {
            Op::LDR
        } else if b == 0x05 {
            Op::MOV
        } else if b == 0x06 {
            Op::STORE
        } else if b == 0x07 {
            Op::PUSH
        } else if b == 0x08 {
            Op::POP
        } else if b == 0x09 {
            Op::ADD
        } else if b == 0x0A {
            Op::ADDI
        } else if b == 0x0B {
            Op::SUB
        } else if b == 0x0C {
            Op::SUBI
        } else if b == 0x0D {
            Op::INC
        } else if b == 0x0E {
            Op::DEC
        } else if b == 0x0F {
            Op::AND
        } else if b == 0x10 {
            Op::OR
        } else if b == 0x11 {
            Op::XOR
        } else if b == 0x12 {
            Op::NOT
        } else if b == 0x13 {
            Op::CMP
        } else if b == 0x14 {
            Op::SHL
        } else if b == 0x15 {
            Op::SHR
        } else if b == 0x16 {
            Op::JMP
        } else if b == 0x17 {
            Op::JZ
        } else if b == 0x18 {
            Op::JNZ
        } else if b == 0x19 {
            Op::PRINT
        } else if b == 0x1A {
            Op::MUL
        } else if b == 0x1B {
            Op::MULI
        } else if b == 0x1C {
            Op::DIV
        } else if b == 0x1D {
            Op::DIVI
        } else if b == 0x1E {
            Op::MOD
        } else if b == 0x1F {
            Op::MODI
        } else if b == 0x20 {
            Op::CALL
        } else if b == 0x21 {
            Op::RET
        } else if b == 0x22 {
            Op::ROL
        } else if b == 0x23 {
            Op::ROR
        } else if b == 0x24 {
            Op::IN
        } else if b == 0x25 {
            Op::JMPR
        } else if b == 0x26 {
            Op::CALLR
        } else if b == 0x27 {
            Op::STR
        } else {
            Op::NOP
        }
    }

    /// The mnemonic as a string slice.
    pub open spec fn mnemonic_str(self) -> &'static str {
        match self {
            Op::HLT => "HLT",
            Op::NOP => "NOP",
            Op::LDI => "LDI",
            Op::LDA => "LDA",
            Op::LDR => "LDR",
            Op::MOV => "MOV",
            Op::STORE => "STORE",
            Op::PUSH => "PUSH",
            Op::POP => "POP",
            Op::ADD => "ADD",
            Op::ADDI => "ADDI",
            Op::SUB => "SUB",
            Op::SUBI => "SUBI",
            Op::INC => "INC",
            Op::DEC => "DEC",
            Op::AND => "AND",
            Op::OR => "OR",
            Op::XOR => "XOR",
            Op::NOT => "NOT",
            Op::CMP => "CMP",
            Op::JMP => "JMP",
            Op::JZ => "JZ",
            Op::JNZ => "JNZ",
            Op::SHL => "SHL",
            Op::SHR => "SHR",
            Op::PRINT => "PRINT",
            Op::MUL => "MUL",
            Op::MULI => "MULI",
            Op::DIV => "DIV",
            Op::DIVI => "DIVI",
            Op::MOD => "MOD",
            Op::MODI => "MODI",
            Op::CALL => "CALL",
            Op::RET => "RET",
            Op::ROL => "ROL",
            Op::ROR => "ROR",
            Op::IN => "IN",
            Op::JMPR => "JMPR",
            Op::CALLR => "CALLR",
            Op::STR => "STR",
        }
    }

    /// The name of the operation in source text.
    pub open spec fn mnemonic(self) -> Seq<char> {
        self.mnemonic_str()@
    }

    /// The operation that a word of source text names, if it names one.
    pub open spec fn of_mnemonic(word: Seq<char>) -> Option<Op> {
        if exists|op: Op| op.mnemonic() == word {
            Some(choose|op: Op| op.mnemonic() == word)
        } else {
            None
        }
    }

    /// The operands that the operation takes.
    pub open spec fn shape(self) -> OperandShape {
        match self {
            Op::HLT | Op::NOP | Op::RET => OperandShape::Bare,
            Op::LDI | Op::ADDI | Op::SUBI | Op::MULI | Op::DIVI | Op::MODI => OperandShape::RegImm,
            Op::LDA | Op::STORE => OperandShape::RegAddr,
            Op::PUSH
            | Op::POP
            | Op::INC
            | Op::DEC
            | Op::NOT
            | Op::SHL
            | Op::SHR
            | Op::ROL
            | Op::ROR
            | Op::IN
            | Op::JMPR
            | Op::CALLR
            | Op::PRINT => OperandShape::Reg,
            Op::LDR
            | Op::MOV
            | Op::ADD
            | Op::SUB
            | Op::AND
            | Op::OR
            | Op::XOR
            | Op::CMP
            | Op::MUL
            | Op::DIV
            | Op::MOD
            | Op::STR => OperandShape::RegReg,
            Op::JMP | Op::JZ | Op::JNZ | Op::CALL => OperandShape::Addr,
        }
    }

    /// The encoded length in bytes: the opcode and its operands.
    pub open spec fn len(self) -> u8 {
        (1 + self.shape().width()) as u8
    }

    /// The operands that the operation takes.
    pub fn operand_shape(&self) -> (shape: OperandShape)
        ensures
            shape == self.shape(),
    {
        match self {
            Op::HLT | Op::NOP | Op::RET => OperandShape::Bare,
            Op::LDI | Op::ADDI | Op::SUBI | Op::MULI | Op::DIVI | Op::MODI => OperandShape::RegImm,
            Op::LDA | Op::STORE => OperandShape::RegAddr,
            Op::PUSH
            | Op::POP
            | Op::INC
            | Op::DEC
            | Op::NOT
            | Op::SHL
            | Op::SHR
            | Op::ROL
            | Op::ROR
            | Op::IN
            | Op::JMPR
            | Op::CALLR
            | Op::PRINT => OperandShape::Reg,
            Op::LDR
            | Op::MOV
            | Op::ADD
            | Op::SUB
            | Op::AND
            | Op::OR
            | Op::XOR
            | Op::CMP
            | Op::MUL
            | Op::DIV
            | Op::MOD
            | Op::STR => OperandShape::RegReg,
            Op::JMP | Op::JZ | Op::JNZ | Op::CALL => OperandShape::Addr,
        }
    }

    /// The encoded length in bytes: 1, 2 or 3.
    pub fn instruction_len(&self) -> (n: u8)
        ensures
            n == self.len(),
            1 <= n <= 3,
    {
        match self.operand_shape() {
            OperandShape::Bare => 1,
            OperandShape::Reg | OperandShape::RegReg | OperandShape::Addr => 2,
            OperandShape::RegImm | OperandShape::RegAddr => 3,
        }
    }

    /// The name of the operation in source text.
    pub fn name(&self) -> (s: &'static str)
        ensures
            s == self.mnemonic_str(),
            s@ == self.mnemonic(),
    {
        match self {
            Op::HLT => "HLT",
            Op::NOP => "NOP",
            Op::LDI => "LDI",
            Op::LDA => "LDA",
            Op::LDR => "LDR",
            Op::MOV => "MOV",
            Op::STORE => "STORE",
            Op::PUSH => "PUSH",
            Op::POP => "POP",
            Op::ADD => "ADD",
            Op::ADDI => "ADDI",
            Op::SUB => "SUB",
            Op::SUBI => "SUBI",
            Op::INC => "INC",
            Op::DEC => "DEC",
            Op::AND => "AND",
            Op::OR => "OR",
            Op::XOR => "XOR",
            Op::NOT => "NOT",
            Op::CMP => "CMP",
            Op::JMP => "JMP",
            Op::JZ => "JZ",
            Op::JNZ => "JNZ",
            Op::SHL => "SHL",
            Op::SHR => "SHR",
            Op::PRINT => "PRINT",
            Op::MUL => "MUL",
            Op::MULI => "MULI",
            Op::DIV => "DIV",
            Op::DIVI => "DIVI",
            Op::MOD => "MOD",
            Op::MODI => "MODI",
            Op::CALL => "CALL",
            Op::RET => "RET",
            Op::ROL => "ROL",
            Op::ROR => "ROR",
            Op::IN => "IN",
            Op::JMPR => "JMPR",
            Op::CALLR => "CALLR",
            Op::STR => "STR",
        }
    }

    /// The operation that a word of source text names, if it names one.
    pub fn from_mnemonic(word: &[char]) -> (found: Option<Op>)
        ensures
            found == Op::of_mnemonic(word@),
    {
        let mut code: u8 = 0;
        while code < OPCODE_COUNT
            invariant
                code <= OPCODE_COUNT,
                forall|b: u8| b < code ==> (#[trigger] Op::of_byte(b)).mnemonic() != word@,
            decreases OPCODE_COUNT - code,
        {
            let op = Op::from(code);
            if crate::text::same_text(word, op.name()) {
                proof {
                    let chosen = choose|other: Op| other.mnemonic() == word@;
                    Self::lemma_mnemonics_distinct(chosen, op);
                }
                return Some(op);
            }
            code += 1;
        }
        proof {
            assert forall|op: Op| op.mnemonic() != word@ by {
                Self::lemma_opcode_round_trip(op);
                assert(Op::of_byte(op.opcode()).mnemonic() != word@);
            }
        }
        None
    }

    /// The operation that a mnemonic names. A word that names none is a
    /// syntax error, given without a line.
    pub fn parse(word: &str) -> (r: Result<Op, AssemblerError>)
        ensures
            crate::assembler::agrees(r, crate::grammar::operation(word@, 0)),
    {
        let chars = crate::render::chars_of(word);
        match Op::from_mnemonic(chars.as_slice()) {
            Some(op) => Ok(op),
            None => {
                let mut message = String::new();
                crate::render::push_text(&mut message, "Invalid operation: ");
                crate::render::push_text(&mut message, word);
                Err(AssemblerError::SyntaxError { line: 0, message })
            },
        }
    }

    /// Every mnemonic is one to five characters long and names one
    /// operation only.
    pub proof fn lemma_mnemonics_distinct(a: Op, b: Op)
        ensures
            1 <= a.mnemonic().len() <= 5,
            a.mnemonic() == b.mnemonic() ==> a == b,
    {
        Self::reveal_mnemonics();
        if a != b {
            let x = a.mnemonic();
            let y = b.mnemonic();
            if x.len() == y.len() {
                assert(x[0] != y[0] || x[1] != y[1] || x[2] != y[2] || x[3] != y[3]);
            }
        }
    }

    /// Finding an operation by its own mnemonic gives that operation.
    pub proof fn lemma_mnemonic_round_trip(op: Op)
        ensures
            Op::of_mnemonic(op.mnemonic()) == Some(op),
    {
        let found = choose|other: Op| other.mnemonic() == op.mnemonic();
        Self::lemma_mnemonics_distinct(found, op);
    }

    /// Decoding the opcode of an operation gives that operation.
    pub proof fn lemma_opcode_round_trip(op: Op)
        ensures
            Op::is_assigned(op.opcode()),
            Op::of_byte(op.opcode()) == op,
    {
    }

    /// Encoding what an assigned byte decodes to gives the byte back; a
    /// byte that is not assigned decodes to `NOP`.
    pub proof fn lemma_byte_round_trip(b: u8)
        ensures
            Op::is_assigned(b) ==> Op::of_byte(b).opcode() == b,
            !Op::is_assigned(b) ==> Op::of_byte(b) == Op::NOP,
    {
    }

    /// What the mnemonics hold, character by character.
    pub proof fn reveal_mnemonics()
        ensures
            Op::HLT.mnemonic() =~= seq!['H', 'L', 'T'],
            Op::NOP.mnemonic() =~= seq!['N', 'O', 'P'],
            Op::LDI.mnemonic() =~= seq!['L', 'D', 'I'],
            Op::LDA.mnemonic() =~= seq!['L', 'D', 'A'],
            Op::LDR.mnemonic() =~= seq!['L', 'D', 'R'],
            Op::MOV.mnemonic() =~= seq!['M', 'O', 'V'],
            Op::STORE.mnemonic() =~= seq!['S', 'T', 'O', 'R', 'E'],
            Op::PUSH.mnemonic() =~= seq!['P', 'U', 'S', 'H'],
            Op::POP.mnemonic() =~= seq!['P', 'O', 'P'],
            Op::ADD.mnemonic() =~= seq!['A', 'D', 'D'],
            Op::ADDI.mnemonic() =~= seq!['A', 'D', 'D', 'I'],
            Op::SUB.mnemonic() =~= seq!['S', 'U', 'B'],
            Op::SUBI.mnemonic() =~= seq!['S', 'U', 'B', 'I'],
            Op::INC.mnemonic() =~= seq!['I', 'N', 'C'],
            Op::DEC.mnemonic() =~= seq!['D', 'E', 'C'],
            Op::AND.mnemonic() =~= seq!['A', 'N', 'D'],
            Op::OR.mnemonic() =~= seq!['O', 'R'],
            Op::XOR.mnemonic() =~= seq!['X', 'O', 'R'],
            Op::NOT.mnemonic() =~= seq!['N', 'O', 'T'],
            Op::CMP.mnemonic() =~= seq!['C', 'M', 'P'],
            Op::JMP.mnemonic() =~= seq!['J', 'M', 'P'],
            Op::JZ.mnemonic() =~= seq!['J', 'Z'],
            Op::JNZ.mnemonic() =~= seq!['J', 'N', 'Z'],
            Op::SHL.mnemonic() =~= seq!['S', 'H', 'L'],
            Op::SHR.mnemonic() =~= seq!['S', 'H', 'R'],
            Op::PRINT.mnemonic() =~= seq!['P', 'R', 'I', 'N', 'T'],
            Op::MUL.mnemonic() =~= seq!['M', 'U', 'L'],
            Op::MULI.mnemonic() =~= seq!['M', 'U', 'L', 'I'],
            Op::DIV.mnemonic() =~= seq!['D', 'I', 'V'],
            Op::DIVI.mnemonic() =~= seq!['D', 'I', 'V', 'I'],
            Op::MOD.mnemonic() =~= seq!['M', 'O', 'D'],
            Op::MODI.mnemonic() =~= seq!['M', 'O', 'D', 'I'],
            Op::CALL.mnemonic() =~= seq!['C', 'A', 'L', 'L'],
            Op::RET.mnemonic() =~= seq!['R', 'E', 'T'],
            Op::ROL.mnemonic() =~= seq!['R', 'O', 'L'],
            Op::ROR.mnemonic() =~= seq!['R', 'O', 'R'],
            Op::IN.mnemonic() =~= seq!['I', 'N'],
            Op::JMPR.mnemonic() =~= seq!['J', 'M', 'P', 'R'],
            Op::CALLR.mnemonic() =~= seq!['C', 'A', 'L', 'L', 'R'],
            Op::STR.mnemonic() =~= seq!['S', 'T', 'R'],
    {
        reveal_strlit("HLT");
        reveal_strlit("NOP");
        reveal_strlit("LDI");
        reveal_strlit("LDA");
        reveal_strlit("LDR");
        reveal_strlit("MOV");
        reveal_strlit("STORE");
        reveal_strlit("PUSH");
        reveal_strlit("POP");
        reveal_strlit("ADD");
        reveal_strlit("ADDI");
        reveal_strlit("SUB");
        reveal_strlit("SUBI");
        reveal_strlit("INC");
        reveal_strlit("DEC");
        reveal_strlit("AND");
        reveal_strlit("OR");
        reveal_strlit("XOR");
        reveal_strlit("NOT");
        reveal_strlit("CMP");
        reveal_strlit("JMP");
        reveal_strlit("JZ");
        reveal_strlit("JNZ");
        reveal_strlit("SHL");
        reveal_strlit("SHR");
        reveal_strlit("PRINT");
        reveal_strlit("MUL");
        reveal_strlit("MULI");
        reveal_strlit("DIV");
        reveal_strlit("DIVI");
        reveal_strlit("MOD");
        reveal_strlit("MODI");
        reveal_strlit("CALL");
        reveal_strlit("RET");
        reveal_strlit("ROL");
        reveal_strlit("ROR");
        reveal_strlit("IN");
        reveal_strlit("JMPR");
        reveal_strlit("CALLR");
        reveal_strlit("STR");
    }
}

impl From<u8> for Op {
    /// Decodes an opcode byte; a byte that is not assigned is a `NOP`.
    fn from(value: u8) -> (op: Op) {
        match value {
            0x00 => Op::HLT,
            0x01 => Op::NOP,
            0x02 => Op::LDI,
            0x03 => Op::LDA,
            0x04 => Op::LDR,
            0x05 => Op::MOV,
            0x06 => Op::STORE,
            0x07 => Op::PUSH,
            0x08 => Op::POP,
            0x09 => Op::ADD,
            0x0A => Op::ADDI,
            0x0B => Op::SUB,
            0x0C => Op::SUBI,
            0x0D => Op::INC,
            0x0E => Op::DEC,
            0x0F => Op::AND,
            0x10 => Op::OR,
            0x11 => Op::XOR,
            0x12 => Op::NOT,
            0x13 => Op::CMP,
            0x14 => Op::SHL,
            0x15 => Op::SHR,
            0x16 => Op::JMP,
            0x17 => Op::JZ,
            0x18 => Op::JNZ,
            0x19 => Op::PRINT,
            0x1A => Op::MUL,
            0x1B => Op::MULI,
            0x1C => Op::DIV,
            0x1D => Op::DIVI,
            0x1E => Op::MOD,
            0x1F => Op::MODI,
            0x20 => Op::CALL,
            0x21 => Op::RET,
            0x22 => Op::ROL,
            0x23 => Op::ROR,
            0x24 => Op::IN,
            0x25 => Op::JMPR,
            0x26 => Op::CALLR,
            0x27 => Op::STR,
            _ => Op::NOP,
        }
    }
}

impl vstd::std_specs::convert::FromSpecImpl<u8> for Op {
    open spec fn obeys_from_spec() -> bool {
        true
    }

    open spec fn from_spec(value: u8) -> Op {
        Op::of_byte(value)
    }
}

impl From<Op> for u8 {
    /// The byte that encodes the operation.
    fn from(op: Op) -> (b: u8) {
        match op {
            Op::HLT => 0x00,
            Op::NOP => 0x01,
            Op::LDI => 0x02,
            Op::LDA => 0x03,
            Op::LDR => 0x04,
            Op::MOV => 0x05,
            Op::STORE => 0x06,
            Op::PUSH => 0x07,
            Op::POP => 0x08,
            Op::ADD => 0x09,
            Op::ADDI => 0x0A,
            Op::SUB => 0x0B,
            Op::SUBI => 0x0C,
            Op::INC => 0x0D,
            Op::DEC => 0x0E,
            Op::AND => 0x0F,
            Op::OR => 0x10,
            Op::XOR => 0x11,
            Op::NOT => 0x12,
            Op::CMP => 0x13,
            Op::SHL => 0x14,
            Op::SHR => 0x15,
            Op::JMP => 0x16,
            Op::JZ => 0x17,
            Op::JNZ => 0x18,
            Op::PRINT => 0x19,
            Op::MUL => 0x1A,
            Op::MULI => 0x1B,
            Op::DIV => 0x1C,
            Op::DIVI => 0x1D,
            Op::MOD => 0x1E,
            Op::MODI => 0x1F,
            Op::CALL => 0x20,
            Op::RET => 0x21,
            Op::ROL => 0x22,
            Op::ROR => 0x23,
            Op::IN => 0x24,
            Op::JMPR => 0x25,
            Op::CALLR => 0x26,
            Op::STR => 0x27,
        }
    }
}

impl vstd::std_specs::convert::FromSpecImpl<Op> for u8 {
    open spec fn obeys_from_spec() -> bool {
        true
    }

    open spec fn from_spec(op: Op) -> u8 {
        op.opcode()
    }
}

impl From<Op> for &'static str {
    /// The name of the operation in source text.
    fn from(op: Op) -> (s: &'static str) {
        op.name()
    }
}

impl vstd::std_specs::convert::FromSpecImpl<Op> for &'static str {
    open spec fn obeys_from_spec() -> bool {
        true
    }

    open spec fn from_spec(op: Op) -> &'static str {
        op.mnemonic_str()
    }
}

} // verus!
