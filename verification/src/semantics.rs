//! What each instruction does, as a function from the state of the machine
//! to its next state. The engine is proved against these definitions.

use vstd::prelude::*;

use crate::cpu::CpuState;
use crate::cpu::flags_carry;
use crate::cpu::flags_get;
use crate::cpu::flags_zn;
use crate::cpu::CPU;
use crate::error::EmulatorFault;
use crate::nanocore::Operands;
use crate::Op;
use crate::OperandShape;

verus! {

/// Addition modulo 256.
pub open spec fn wrap_add(a: u8, b: u8) -> u8 {
    ((a + b) % 256) as u8
}

/// Subtraction modulo 256.
pub open spec fn wrap_sub(a: u8, b: u8) -> u8 {
    ((a - b) % 256) as u8
}

/// The result of an arithmetic operation on two bytes, modulo 256, and
/// whether the exact result was outside a byte. For a division or a
/// modulus, `b` is the divisor.
pub open spec fn arithmetic(op: Op, a: u8, b: u8) -> (u8, bool) {
    match op {
        Op::ADD | Op::ADDI | Op::INC => (wrap_add(a, b), a + b > 255),
        Op::SUB | Op::SUBI | Op::DEC => (wrap_sub(a, b), a < b),
        Op::MUL | Op::MULI => (((a * b) % 256) as u8, a * b > 255),
        Op::DIV | Op::DIVI => ((a / b) as u8, false),
        _ => ((a % b) as u8, false),
    }
}

/// Whether the operation is one of those that `arithmetic` computes.
pub open spec fn is_arithmetic(op: Op) -> bool {
    op == Op::ADD || op == Op::ADDI || op == Op::INC || op == Op::SUB || op == Op::SUBI || op
        == Op::DEC || op == Op::MUL || op == Op::MULI || divides(op)
}

/// Whether the operation divides by its second operand.
pub open spec fn divides(op: Op) -> bool {
    op == Op::DIV || op == Op::DIVI || op == Op::MOD || op == Op::MODI
}

/// The result of a comparison: 0 if the two are equal, 1 if the source is
/// greater than the destination, 2 if it is less.
pub open spec fn comparison(src: u8, dst: u8) -> u8 {
    if src == dst {
        0
    } else if src > dst {
        1
    } else {
        2
    }
}

/// The result of a logical operation on the values of the source and the
/// destination register.
pub open spec fn logical(op: Op, src: u8, dst: u8) -> u8 {
    match op {
        Op::AND => src & dst,
        Op::OR => src | dst,
        Op::XOR => src ^ dst,
        _ => comparison(src, dst),
    }
}

/// The result of a shift or a rotation by one bit, and the bit that left
/// the byte.
pub open spec fn shifted(op: Op, v: u8) -> (u8, bool) {
    match op {
        Op::SHL => (((v % 128) * 2) as u8, v >= 128),
        Op::SHR => (v / 2, v % 2 == 1),
        Op::ROL => (((v % 128) * 2 + v / 128) as u8, v >= 128),
        _ => ((v / 2 + (v % 2) * 128) as u8, v % 2 == 1),
    }
}

impl CpuState {
    /// The state with a value in a register, and Z and N set from it.
    pub open spec fn with_result(self, r: u8, v: u8) -> CpuState {
        CpuState {
            registers: self.registers.update(r as int, v),
            flags: flags_zn(self.flags, v),
            ..self
        }
    }

    /// The state with a value in a register, Z and N set from it, and C set
    /// from the carry.
    pub open spec fn with_carried(self, r: u8, outcome: (u8, bool)) -> CpuState {
        CpuState {
            registers: self.registers.update(r as int, outcome.0),
            flags: flags_carry(flags_zn(self.flags, outcome.0), outcome.1),
            ..self
        }
    }

    /// The state with a value in memory, and Z and N set from it.
    pub open spec fn with_stored(self, addr: u8, v: u8) -> CpuState {
        CpuState {
            memory: self.memory.update(addr as int, v),
            flags: flags_zn(self.flags, v),
            ..self
        }
    }

    /// The state after a value was pushed: written at the stack pointer,
    /// which then moves down by one.
    pub open spec fn pushed(self, v: u8) -> CpuState {
        CpuState {
            memory: self.memory.update(self.sp as int, v),
            sp: wrap_sub(self.sp, 1),
            ..self
        }
    }

    /// The state after the stack pointer moved up by one; the value popped
    /// is then `top()`.
    pub open spec fn popped(self) -> CpuState {
        CpuState { sp: wrap_add(self.sp, 1), ..self }
    }

    /// The byte in memory at the stack pointer.
    pub open spec fn top(self) -> u8 {
        self.memory[self.sp as int]
    }

    /// The state with the program counter at an address.
    pub open spec fn at(self, addr: u8) -> CpuState {
        CpuState { pc: addr, ..self }
    }

    /// The state with Z and N set from a value.
    pub open spec fn flagged(self, v: u8) -> CpuState {
        CpuState { flags: flags_zn(self.flags, v), ..self }
    }
}

/// What one instruction did, apart from the trace.
pub struct Effect {
    /// The state of the machine after it.
    pub cpu: CpuState,
    /// Whether it set the program counter itself.
    pub jumped: bool,
    /// Whether it was a conditional jump that was not taken.
    pub skipped: bool,
    /// The byte it sent to the output, if any.
    pub printed: Option<u8>,
    /// Whether it took a byte from the input.
    pub took_input: bool,
}

impl Effect {
    /// An instruction that goes on to the next one and neither prints nor
    /// reads.
    pub open spec fn plain(cpu: CpuState) -> Effect {
        Effect { cpu, jumped: false, skipped: false, printed: None, took_input: false }
    }

    /// An instruction that set the program counter.
    pub open spec fn jump(cpu: CpuState) -> Effect {
        Effect { cpu, jumped: true, skipped: false, printed: None, took_input: false }
    }
}

/// The text of the `InvalidOperand` error for operands of another shape
/// than that of the operation.
pub open spec fn shape_name(shape: OperandShape) -> Seq<char> {
    match shape {
        OperandShape::Bare => "no"@,
        OperandShape::Reg => "register"@,
        OperandShape::RegImm => "register and immediate"@,
        OperandShape::RegReg => "register and register"@,
        OperandShape::RegAddr => "register and address"@,
        OperandShape::Addr => "address"@,
    }
}

/// Why the operands cannot be those of the operation, if they cannot: they
/// have another shape, or name a register above 15.
pub open spec fn operand_fault(op: Op, x: Operands) -> Option<EmulatorFault> {
    if x.shape() != op.shape() {
        Some(
            EmulatorFault::InvalidOperand {
                op: op.mnemonic(),
                expected: shape_name(op.shape()),
                got: shape_name(x.shape()),
            },
        )
    } else if !x.registers_exist() {
        Some(
            EmulatorFault::InvalidOperand {
                op: op.mnemonic(),
                expected: "register R0..R15"@,
                got: seq!['R'] + crate::render::decimal(x.missing_register() as nat),
            },
        )
    } else {
        None
    }
}

/// Why the instruction cannot run in this state, if it cannot: a push onto
/// a full stack, a pop from an empty one, a division by zero, or input
/// where none is waiting.
pub open spec fn state_fault(cpu: CpuState, input: Seq<u8>, op: Op, x: Operands) -> Option<
    EmulatorFault,
> {
    match op {
        Op::PUSH | Op::CALL | Op::CALLR => if cpu.sp == CPU::STACK_MIN {
            Some(EmulatorFault::StackOverflow { sp: cpu.sp })
        } else {
            None
        },
        Op::POP | Op::RET => if cpu.sp == CPU::STACK_MAX {
            Some(EmulatorFault::StackUnderflow { sp: cpu.sp })
        } else {
            None
        },
        Op::DIV | Op::MOD => if cpu.registers[x.second() as int] == 0 {
            Some(EmulatorFault::DivisionByZero { op: op.mnemonic() })
        } else {
            None
        },
        Op::DIVI | Op::MODI => if x.second() == 0 {
            Some(EmulatorFault::DivisionByZero { op: op.mnemonic() })
        } else {
            None
        },
        Op::IN => if input.len() == 0 {
            Some(EmulatorFault::IoError("no input available"@))
        } else {
            None
        },
        _ => None,
    }
}

/// What an instruction does to a machine in which it can run. `x.first()` and
/// `x.second()` are its operands in the order of the source text.
#[verifier::opaque]
pub open spec fn effect(cpu: CpuState, input: Seq<u8>, op: Op, x: Operands) -> Effect {
    let a = x.first();
    let b = x.second();
    let reg = cpu.registers;
    match op {
        Op::HLT => Effect::plain(CpuState { halted: true, ..cpu }),
        Op::NOP => Effect::plain(cpu),
        Op::LDI => Effect::plain(cpu.with_result(a, b)),
        Op::LDA => Effect::plain(cpu.with_result(a, cpu.memory[b as int])),
        Op::LDR => Effect::plain(cpu.with_result(a, cpu.memory[reg[b as int] as int])),
        Op::MOV => Effect::plain(cpu.with_result(a, reg[b as int])),
        Op::STORE => Effect::plain(cpu.with_stored(b, reg[a as int])),
        Op::STR => Effect::plain(cpu.with_stored(reg[b as int], reg[a as int])),
        Op::PUSH => Effect::plain(cpu.pushed(reg[a as int]).flagged(reg[a as int])),
        Op::POP => Effect::plain(cpu.popped().with_result(a, cpu.popped().top())),
        Op::ADD | Op::SUB | Op::MUL | Op::DIV | Op::MOD => Effect::plain(
            cpu.with_carried(a, arithmetic(op, reg[a as int], reg[b as int])),
        ),
        Op::ADDI | Op::SUBI | Op::MULI | Op::DIVI | Op::MODI => Effect::plain(
            cpu.with_carried(a, arithmetic(op, reg[a as int], b)),
        ),
        Op::INC | Op::DEC => Effect::plain(cpu.with_carried(a, arithmetic(op, reg[a as int], 1))),
        Op::AND | Op::OR | Op::XOR | Op::CMP => Effect::plain(
            cpu.with_result(a, logical(op, reg[b as int], reg[a as int])),
        ),
        Op::NOT => Effect::plain(cpu.with_result(a, !reg[a as int])),
        Op::SHL | Op::SHR | Op::ROL | Op::ROR => Effect::plain(
            cpu.with_carried(a, shifted(op, reg[a as int])),
        ),
        Op::JMP => Effect::jump(cpu.at(a)),
        Op::JZ | Op::JNZ => if flags_get(cpu.flags, CPU::FLAG_Z) == (op == Op::JZ) {
            Effect::jump(cpu.at(a))
        } else {
            Effect { skipped: true, ..Effect::plain(cpu) }
        },
        Op::JMPR => Effect::jump(cpu.at(reg[a as int])),
        Op::CALL => Effect::jump(cpu.pushed(wrap_add(cpu.pc, op.len())).at(a)),
        Op::CALLR => Effect::jump(cpu.pushed(wrap_add(cpu.pc, op.len())).at(reg[a as int])),
        Op::RET => Effect::jump(cpu.popped().at(cpu.popped().top())),
        Op::PRINT => Effect { printed: Some(reg[a as int]), ..Effect::plain(cpu) },
        Op::IN => Effect { took_input: true, ..Effect::plain(cpu.with_result(a, input[0])) },
    }
}

} // verus!
