//! The execution engine: it fetches, decodes and executes one instruction
//! per cycle.

use vstd::prelude::*;

use crate::cpu::CpuState;
use crate::cpu::CPU;
use crate::error::EmulatorError;
use crate::error::EmulatorFault;
use crate::error::EmulatorResult;
use crate::render::push_decimal;
use crate::semantics::arithmetic;
use crate::semantics::divides;
use crate::semantics::effect;
use crate::semantics::is_arithmetic;
use crate::semantics::logical;
use crate::semantics::operand_fault;
use crate::semantics::shape_name;
use crate::semantics::shifted;
use crate::semantics::state_fault;
use crate::semantics::wrap_add;
use crate::semantics::Effect;
use crate::trace::log_line;
use crate::trace::log_text;
use crate::trace::opcode_line;
use crate::trace::opcode_text;
use crate::trace::trace;
use crate::trace::trace_text;
use crate::Op;
use crate::OperandShape;

verus! {

/// The operands of one instruction.
#[derive(Debug, Clone, Copy, PartialEq, Eq, Structural)]
pub enum Operands {
    /// No operand.
    Bare,
    /// A register.
    Reg(u8),
    /// A register and an immediate value.
    RegImm(u8, u8),
    /// The destination register and the source register.
    RegReg(u8, u8),
    /// A register and an address.
    RegAddr(u8, u8),
    /// An address.
    Addr(u8),
}

impl Operands {
    /// The shape of the operands.
    pub open spec fn shape(self) -> OperandShape {
        match self {
            Operands::Bare => OperandShape::Bare,
            Operands::Reg(_) => OperandShape::Reg,
            Operands::RegImm(_, _) => OperandShape::RegImm,
            Operands::RegReg(_, _) => OperandShape::RegReg,
            Operands::RegAddr(_, _) => OperandShape::RegAddr,
            Operands::Addr(_) => OperandShape::Addr,
        }
    }

    /// The first operand in the order of the source text, 0 if there is none.
    pub open spec fn first(self) -> u8 {
        match self {
            Operands::Bare => 0,
            Operands::Reg(a) => a,
            Operands::RegImm(a, _) => a,
            Operands::RegReg(a, _) => a,
            Operands::RegAddr(a, _) => a,
            Operands::Addr(a) => a,
        }
    }

    /// The second operand in the order of the source text, 0 if there is none.
    pub open spec fn second(self) -> u8 {
        match self {
            Operands::RegImm(_, b) => b,
            Operands::RegReg(_, b) => b,
            Operands::RegAddr(_, b) => b,
            _ => 0,
        }
    }

    /// Whether every register named is one of the sixteen.
    pub open spec fn registers_exist(self) -> bool {
        match self {
            Operands::Bare => true,
            Operands::Addr(_) => true,
            Operands::RegReg(a, b) => a < 16 && b < 16,
            _ => self.first() < 16,
        }
    }

    /// The first register named that is none of the sixteen, where
    /// `registers_exist` does not hold.
    pub open spec fn missing_register(self) -> u8 {
        if self.first() < 16 {
            self.second()
        } else {
            self.first()
        }
    }

    /// The operands that the two bytes after an opcode hold, for an
    /// operation of the given shape. Two registers share the first byte:
    /// the destination in its high nibble, the source in its low nibble.
    pub open spec fn decode(shape: OperandShape, byte_2: u8, byte_3: u8) -> Operands {
        match shape {
            OperandShape::Bare => Operands::Bare,
            OperandShape::Reg => Operands::Reg(byte_2),
            OperandShape::RegImm => Operands::RegImm(byte_2, byte_3),
            OperandShape::RegReg => Operands::RegReg(byte_2 / 16, byte_2 % 16),
            OperandShape::RegAddr => Operands::RegAddr(byte_2, byte_3),
            OperandShape::Addr => Operands::Addr(byte_2),
        }
    }

    /// The bytes that encode the operands after the opcode.
    pub open spec fn encoding(self) -> Seq<u8> {
        match self {
            Operands::Bare => Seq::empty(),
            Operands::Reg(a) => seq![a],
            Operands::RegImm(a, b) => seq![a, b],
            Operands::RegReg(a, b) => seq![((a % 16) * 16 + b % 16) as u8],
            Operands::RegAddr(a, b) => seq![a, b],
            Operands::Addr(a) => seq![a],
        }
    }

    /// The shape of the operands.
    pub fn operand_shape(&self) -> (shape: OperandShape)
        ensures
            shape == self.shape(),
    {
        match self {
            Operands::Bare => OperandShape::Bare,
            Operands::Reg(_) => OperandShape::Reg,
            Operands::RegImm(_, _) => OperandShape::RegImm,
            Operands::RegReg(_, _) => OperandShape::RegReg,
            Operands::RegAddr(_, _) => OperandShape::RegAddr,
            Operands::Addr(_) => OperandShape::Addr,
        }
    }

    /// The two operands in the order of the source text, 0 where there is
    /// none.
    pub fn parts(&self) -> (p: (u8, u8))
        ensures
            p.0 == self.first(),
            p.1 == self.second(),
    {
        match self {
            Operands::Bare => (0, 0),
            Operands::Reg(a) => (*a, 0),
            Operands::RegImm(a, b) => (*a, *b),
            Operands::RegReg(a, b) => (*a, *b),
            Operands::RegAddr(a, b) => (*a, *b),
            Operands::Addr(a) => (*a, 0),
        }
    }
}

/// The instruction that the bytes encode: the operation of the first byte
/// and the operands that the next two hold for it.
pub open spec fn decode_instruction(opcode: u8, byte_2: u8, byte_3: u8) -> (Op, Operands) {
    (Op::of_byte(opcode), Operands::decode(Op::of_byte(opcode).shape(), byte_2, byte_3))
}

/// The bytes that encode an instruction: the opcode and the operands.
pub open spec fn encode_instruction(op: Op, operands: Operands) -> Seq<u8> {
    seq![op.opcode()] + operands.encoding()
}

/// The bytes that encode an instruction.
pub fn encode(op: Op, operands: &Operands) -> (bytes: Vec<u8>)
    ensures
        bytes@ == encode_instruction(op, *operands),
{
    let mut bytes: Vec<u8> = Vec::new();
    bytes.push(u8::from(op));
    match operands {
        Operands::Bare => {},
        Operands::Reg(a) => {
            bytes.push(*a);
        },
        Operands::RegImm(a, b) => {
            bytes.push(*a);
            bytes.push(*b);
        },
        Operands::RegReg(a, b) => {
            bytes.push((*a % 16) * 16 + *b % 16);
        },
        Operands::RegAddr(a, b) => {
            bytes.push(*a);
            bytes.push(*b);
        },
        Operands::Addr(a) => {
            bytes.push(*a);
        },
    }
    bytes
}

/// The emulator as plain values.
pub struct MachineState {
    pub cpu: CpuState,
    /// The number of instructions retired, modulo 65536.
    pub cycle: u16,
    /// The number of cycles at which `run` stops.
    pub max_cycles: u16,
    /// What the program printed.
    pub output: Seq<char>,
    /// The input that the program has not taken yet.
    pub input: Seq<u8>,
    /// The trace of the instruction executed last; empty before the first.
    pub current_instruction: Seq<char>,
    /// The opcode fetched last, as text; empty before the first.
    pub current_instruction_bin: Seq<char>,
    /// Whether the instruction executed last was a conditional jump that
    /// was not taken.
    pub current_skipped: bool,
    /// The traces of the instructions before the last, the oldest first.
    pub instruction_log: Seq<Seq<char>>,
}

/// The texts that a sequence of strings holds.
pub open spec fn texts(strings: Seq<String>) -> Seq<Seq<char>> {
    Seq::new(strings.len(), |i: int| strings[i]@)
}

impl MachineState {
    /// The state of an emulator that was just made.
    pub open spec fn initial() -> MachineState {
        MachineState {
            cpu: CpuState::initial(),
            cycle: 0,
            max_cycles: NanoCore::MAX_CYCLES,
            output: Seq::empty(),
            input: Seq::empty(),
            current_instruction: Seq::empty(),
            current_instruction_bin: Seq::empty(),
            current_skipped: false,
            instruction_log: Seq::empty(),
        }
    }

    /// The log once another instruction is executed: the instruction before
    /// it, if there was one, has joined it.
    pub open spec fn log_extended(self) -> Seq<Seq<char>> {
        if self.current_instruction.len() > 0 {
            self.instruction_log.push(log_text(self.current_instruction, self.current_skipped))
        } else {
            self.instruction_log
        }
    }

    /// The state after an instruction had its effect: the trace of the
    /// instruction is kept and the one before it has joined the log.
    pub open spec fn after(self, op: Op, x: Operands, e: Effect) -> MachineState {
        MachineState {
            current_instruction: trace_text(op, x, self.cpu, e.cpu),
            current_skipped: e.skipped,
            instruction_log: self.log_extended(),
            ..self.applied(e)
        }
    }

    /// The state after an instruction had its effect on the machine, on
    /// the output and on the input.
    pub open spec fn applied(self, e: Effect) -> MachineState {
        MachineState {
            cpu: e.cpu,
            output: match e.printed {
                Some(b) => self.output.push(b as char),
                None => self.output,
            },
            input: if e.took_input {
                self.input.skip(1)
            } else {
                self.input
            },
            ..self
        }
    }

    /// The state after an instruction was fetched: the text of its opcode
    /// is kept.
    pub open spec fn fetching(self) -> MachineState {
        MachineState {
            current_instruction_bin: opcode_text(self.cpu.memory[self.cpu.pc as int]),
            ..self
        }
    }

    /// The instruction at the program counter. The bytes after the last
    /// address are those at the first.
    pub open spec fn fetched(self) -> (Op, Operands) {
        let m = self.cpu.memory;
        decode_instruction(
            m[self.cpu.pc as int],
            m[wrap_add(self.cpu.pc, 1) as int],
            m[wrap_add(self.cpu.pc, 2) as int],
        )
    }

    /// What executing an instruction gives: the next state and whether the
    /// instruction set the program counter itself, or the error, in which
    /// case the state stays as it is.
    pub open spec fn executed(self, op: Op, x: Operands) -> Result<(MachineState, bool), EmulatorFault> {
        match operand_fault(op, x) {
            Some(fault) => Err(fault),
            None => match state_fault(self.cpu, self.input, op, x) {
                Some(fault) => Err(fault),
                None => {
                    let e = effect(self.cpu, self.input, op, x);
                    Ok((self.after(op, x, e), e.jumped))
                },
            },
        }
    }

    /// The state after an instruction was retired: the program counter moved
    /// past it unless the instruction set it, and one more cycle counted.
    pub open spec fn retired(self, op: Op, jumped: bool) -> MachineState {
        MachineState {
            cpu: if jumped {
                self.cpu
            } else {
                self.cpu.at(wrap_add(self.cpu.pc, op.len()))
            },
            cycle: ((self.cycle + 1) % 65536) as u16,
            ..self
        }
    }

    /// What one cycle gives: the next state and whether the machine has
    /// halted, or the error, in which case the state stays as `fetching()`
    /// left it. A cycle that halts the machine leaves the program counter
    /// on the `HLT` and is not counted.
    pub open spec fn cycled(self) -> Result<(MachineState, bool), EmulatorFault> {
        let (op, x) = self.fetched();
        match self.fetching().executed(op, x) {
            Err(fault) => Err(fault),
            Ok((next, jumped)) => if next.cpu.halted {
                Ok((next, true))
            } else {
                Ok((next.retired(op, jumped), false))
            },
        }
    }

    /// Whether `run` goes on from this state.
    pub open spec fn running(self) -> bool {
        !self.cpu.halted && self.cycle < self.max_cycles
    }

    /// Where `run` ends: the state it stops in, and the error if it stops
    /// for one. It stops when the machine has halted, when the cycle count
    /// has reached `max_cycles`, or at the first error.
    pub open spec fn ran(self) -> (MachineState, Option<EmulatorFault>)
        decreases self.max_cycles - self.cycle,
    {
        if !self.running() {
            (self, None)
        } else {
            match self.cycled() {
                Err(fault) => (self.fetching(), Some(fault)),
                Ok((next, halted)) => if halted {
                    (next, None)
                } else {
                    next.ran()
                },
            }
        }
    }

    /// The state after a program was loaded at an address, where it fits.
    pub open spec fn loaded(self, program: Seq<u8>, start: u8) -> MachineState {
        MachineState {
            cpu: CpuState {
                memory: Seq::new(
                    256,
                    |i: int|
                        if start <= i < start + program.len() {
                            program[i - start]
                        } else {
                            self.cpu.memory[i]
                        },
                ),
                pc: start,
                ..self.cpu
            },
            ..self
        }
    }
}

/// The emulator: the machine, the count of its cycles, what it printed and
/// the input given to it.
#[derive(Debug)]
pub struct NanoCore {
    pub cpu: CPU,
    /// The number of instructions retired.
    pub cycle: u16,
    /// The number of cycles at which `run` stops.
    pub max_cycles: u16,
    /// What the program printed.
    pub output: String,
    /// The input that the program has not taken yet; `IN` takes the first
    /// byte.
    pub input: Vec<u8>,
    /// The trace of the instruction executed last; empty before the first.
    pub current_instruction: String,
    /// The opcode fetched last, as text; empty before the first.
    pub current_instruction_bin: String,
    /// Whether the instruction executed last was a conditional jump that
    /// was not taken.
    pub current_skipped: bool,
    /// The traces of the instructions before the last, the oldest first.
    pub instruction_log: Vec<String>,
}

impl View for NanoCore {
    type V = MachineState;

    open spec fn view(&self) -> MachineState {
        MachineState {
            cpu: self.cpu@,
            cycle: self.cycle,
            max_cycles: self.max_cycles,
            output: self.output@,
            input: self.input@,
            current_instruction: self.current_instruction@,
            current_instruction_bin: self.current_instruction_bin@,
            current_skipped: self.current_skipped,
            instruction_log: texts(self.instruction_log@),
        }
    }
}

impl Default for NanoCore {
    fn default() -> (nano: NanoCore)
        ensures
            nano@ == MachineState::initial(),
    {
        NanoCore::new()
    }
}

/// The result and the carry of an arithmetic operation.
fn compute_arithmetic(op: Op, a: u8, b: u8) -> (r: (u8, bool))
    requires
        is_arithmetic(op),
        divides(op) ==> b != 0,
    ensures
        r == arithmetic(op, a, b),
{
    match op {
        Op::ADD | Op::ADDI | Op::INC => {
            let sum: u16 = a as u16 + b as u16;
            ((sum % 256) as u8, sum > 255)
        },
        Op::SUB | Op::SUBI | Op::DEC => (a.wrapping_sub(b), a < b),
        Op::MUL | Op::MULI => {
            assert(a * b <= 255 * 255) by (nonlinear_arith)
                requires
                    a <= 255,
                    b <= 255,
            ;
            let product: u16 = a as u16 * b as u16;
            ((product % 256) as u8, product > 255)
        },
        Op::DIV | Op::DIVI => (a / b, false),
        _ => (a % b, false),
    }
}

/// The result of a logical operation.
fn compute_logical(op: Op, src: u8, dst: u8) -> (r: u8)
    ensures
        r == logical(op, src, dst),
{
    match op {
        Op::AND => src & dst,
        Op::OR => src | dst,
        Op::XOR => src ^ dst,
        _ => {
            if src == dst {
                0
            } else if src > dst {
                1
            } else {
                2
            }
        },
    }
}

/// The result of a shift or a rotation, and the bit that left the byte.
fn compute_shifted(op: Op, v: u8) -> (r: (u8, bool))
    ensures
        r == shifted(op, v),
{
    match op {
        Op::SHL => ((v % 128) * 2, v >= 128),
        Op::SHR => (v / 2, v % 2 == 1),
        Op::ROL => ((v % 128) * 2 + v / 128, v >= 128),
        _ => (v / 2 + (v % 2) * 128, v % 2 == 1),
    }
}

/// The name of a shape in an error.
fn shape_text(shape: OperandShape) -> (s: &'static str)
    ensures
        s@ == shape_name(shape),
{
    match shape {
        OperandShape::Bare => "no",
        OperandShape::Reg => "register",
        OperandShape::RegImm => "register and immediate",
        OperandShape::RegReg => "register and register",
        OperandShape::RegAddr => "register and address",
        OperandShape::Addr => "address",
    }
}

/// Tells why the operands cannot be those of the operation, if they cannot.
fn check_operands(op: Op, operands: &Operands) -> (r: Option<EmulatorError>)
    ensures
        match operand_fault(op, *operands) {
            Some(fault) => r is Some && r->0@ == fault,
            None => r is None,
        },
{
    let expected = op.operand_shape();
    let got = operands.operand_shape();
    if got != expected {
        return Some(
            EmulatorError::InvalidOperand {
                op: op.name().to_owned(),
                expected: shape_text(expected).to_owned(),
                got: shape_text(got).to_owned(),
            },
        );
    }
    let (a, b) = operands.parts();
    let missing: Option<u8> = match operands {
        Operands::Bare => None,
        Operands::Addr(_) => None,
        Operands::RegReg(_, _) => if a >= 16 {
            Some(a)
        } else if b >= 16 {
            Some(b)
        } else {
            None
        },
        _ => if a >= 16 {
            Some(a)
        } else {
            None
        },
    };
    match missing {
        Some(r) => {
            let mut got = String::new();
            got.push('R');
            push_decimal(&mut got, r as usize);
            Some(
                EmulatorError::InvalidOperand {
                    op: op.name().to_owned(),
                    expected: "register R0..R15".to_owned(),
                    got,
                },
            )
        },
        None => None,
    }
}

impl NanoCore {
    /// The number of cycles at which `run` stops unless `max_cycles` is
    /// set to another.
    pub const MAX_CYCLES: u16 = 1024;

    /// An emulator with a new machine, nothing printed and no input.
    #[must_use]
    pub fn new() -> (nano: NanoCore)
        ensures
            nano@ == MachineState::initial(),
    {
        let nano = NanoCore {
            cpu: CPU::new(),
            cycle: 0,
            max_cycles: 1024,
            output: String::new(),
            input: Vec::new(),
            current_instruction: String::new(),
            current_instruction_bin: String::new(),
            current_skipped: false,
            instruction_log: Vec::new(),
        };
        assert(nano@.instruction_log =~= Seq::empty());
        nano
    }

    /// Copies a program into memory from `start_address` on and sets the
    /// program counter there. A program that would pass the end of memory
    /// is refused and nothing is copied.
    pub fn load_program(&mut self, program: &[u8], start_address: u8) -> (r: EmulatorResult<()>)
        ensures
            start_address + program@.len() <= 256 ==> r is Ok && final(self)@ == old(self)@.loaded(
                program@,
                start_address,
            ),
            start_address + program@.len() > 256 ==> r is Err && r->Err_0@
                == (EmulatorFault::ProgramTooLarge {
                size: program.len(),
                start: start_address,
                max: 256,
            }) && final(self)@ == old(self)@,
    {
        if program.len() > 256 - start_address as usize {
            return Err(
                EmulatorError::ProgramTooLarge {
                    size: program.len(),
                    start: start_address,
                    max: 256,
                },
            );
        }
        let mut i: usize = 0;
        proof {
            assert(self.cpu@.memory =~= Seq::new(
                256,
                |k: int|
                    if start_address <= k < start_address + 0 {
                        program@[k - start_address]
                    } else {
                        old(self).cpu@.memory[k]
                    },
            ));
        }
        while i < program.len()
            invariant
                i <= program.len(),
                start_address + program@.len() <= 256,
                self.cpu@ == (CpuState {
                    memory: Seq::new(
                        256,
                        |k: int|
                            if start_address <= k < start_address + i {
                                program@[k - start_address]
                            } else {
                                old(self).cpu@.memory[k]
                            },
                    ),
                    ..old(self).cpu@
                }),
                self.cycle == old(self).cycle,
                self.max_cycles == old(self).max_cycles,
                self.output == old(self).output,
                self.input == old(self).input,
                self.current_instruction == old(self).current_instruction,
                self.current_instruction_bin == old(self).current_instruction_bin,
                self.current_skipped == old(self).current_skipped,
                self.instruction_log == old(self).instruction_log,
            decreases program.len() - i,
        {
            self.cpu.memory[start_address as usize + i] = program[i];
            i += 1;
            proof {
                assert(self.cpu@.memory =~= Seq::new(
                    256,
                    |k: int|
                        if start_address <= k < start_address + i {
                            program@[k - start_address]
                        } else {
                            old(self).cpu@.memory[k]
                        },
                ));
            }
        }
        self.cpu.pc = start_address;
        Ok(())
    }

    /// Reads the instruction at the program counter: the opcode and the two
    /// bytes after it, from which the operands are taken as the operation
    /// asks.
    pub fn fetch_decode(&mut self) -> (r: (Op, Operands))
        ensures
            r == old(self)@.fetched(),
            final(self)@ == old(self)@.fetching(),
    {
        let opcode = self.cpu.memory[self.cpu.pc as usize];
        self.current_instruction_bin = opcode_line(opcode);
        let byte_2 = self.cpu.memory[self.cpu.pc.wrapping_add(1) as usize];
        let byte_3 = self.cpu.memory[self.cpu.pc.wrapping_add(2) as usize];
        let op: Op = Op::from(opcode);
        let operands = match op.operand_shape() {
            OperandShape::Bare => Operands::Bare,
            OperandShape::Reg => Operands::Reg(byte_2),
            OperandShape::RegImm => Operands::RegImm(byte_2, byte_3),
            OperandShape::RegReg => Operands::RegReg(byte_2 / 16, byte_2 % 16),
            OperandShape::RegAddr => Operands::RegAddr(byte_2, byte_3),
            OperandShape::Addr => Operands::Addr(byte_2),
        };
        (op, operands)
    }

    /// Tells why the instruction cannot run in this state, if it cannot.
    fn check_state(&self, op: Op, operands: &Operands) -> (r: Option<EmulatorError>)
        requires
            operand_fault(op, *operands) is None,
        ensures
            match state_fault(self@.cpu, self@.input, op, *operands) {
                Some(fault) => r is Some && r->0@ == fault,
                None => r is None,
            },
    {
        let (a, b) = operands.parts();
        match op {
            Op::PUSH | Op::CALL | Op::CALLR => if self.cpu.sp == CPU::STACK_MIN {
                Some(EmulatorError::StackOverflow { sp: self.cpu.sp })
            } else {
                None
            },
            Op::POP | Op::RET => if self.cpu.sp == CPU::STACK_MAX {
                Some(EmulatorError::StackUnderflow { sp: self.cpu.sp })
            } else {
                None
            },
            Op::DIV | Op::MOD => if self.cpu.registers[b as usize] == 0 {
                Some(EmulatorError::DivisionByZero { op: op.name().to_owned() })
            } else {
                None
            },
            Op::DIVI | Op::MODI => if b == 0 {
                Some(EmulatorError::DivisionByZero { op: op.name().to_owned() })
            } else {
                None
            },
            Op::IN => if self.input.len() == 0 {
                Some(EmulatorError::IoError("no input available".to_owned()))
            } else {
                None
            },
            _ => None,
        }
    }

    /// Puts a value into a register and sets Z and N from it.
    fn put_result(&mut self, r: u8, v: u8)
        requires
            r < 16,
        ensures
            final(self)@ == (MachineState { cpu: old(self)@.cpu.with_result(r, v), ..old(self)@ }),
    {
        self.cpu.registers[r as usize] = v;
        self.cpu.update_zn_flags(v);
    }

    /// Puts a value into a register, sets Z and N from it and C from the
    /// carry.
    fn put_carried(&mut self, r: u8, outcome: (u8, bool))
        requires
            r < 16,
        ensures
            final(self)@ == (MachineState {
                cpu: old(self)@.cpu.with_carried(r, outcome),
                ..old(self)@
            }),
    {
        self.cpu.registers[r as usize] = outcome.0;
        self.cpu.update_zn_flags(outcome.0);
        self.cpu.update_carry_flag(outcome.1);
    }

    /// Writes a value at the stack pointer and moves the pointer down.
    fn push_byte(&mut self, v: u8)
        ensures
            final(self)@ == (MachineState { cpu: old(self)@.cpu.pushed(v), ..old(self)@ }),
    {
        self.cpu.memory[self.cpu.sp as usize] = v;
        self.cpu.sp = self.cpu.sp.wrapping_sub(1);
    }

    /// Moves the stack pointer up and reads the value there.
    fn pop_byte(&mut self) -> (v: u8)
        ensures
            final(self)@ == (MachineState { cpu: old(self)@.cpu.popped(), ..old(self)@ }),
            v == old(self)@.cpu.popped().top(),
    {
        self.cpu.sp = self.cpu.sp.wrapping_add(1);
        self.cpu.memory[self.cpu.sp as usize]
    }

    /// Does what the instruction does, in a state in which it can run.
    fn apply(&mut self, op: Op, operands: &Operands) -> (e: (bool, bool))
        requires
            operand_fault(op, *operands) is None,
            state_fault(old(self)@.cpu, old(self)@.input, op, *operands) is None,
        ensures
            final(self)@ == old(self)@.applied(
                effect(old(self)@.cpu, old(self)@.input, op, *operands),
            ),
            e.0 == effect(old(self)@.cpu, old(self)@.input, op, *operands).jumped,
            e.1 == effect(old(self)@.cpu, old(self)@.input, op, *operands).skipped,
    {
        reveal(effect);
        let (a, b) = operands.parts();
        let mut jumped = false;
        let mut skipped = false;
        match op {
            Op::HLT => {
                self.cpu.is_halted = true;
            },
            Op::NOP => {},
            Op::LDI => {
                self.put_result(a, b);
            },
            Op::LDA => {
                let value = self.cpu.memory[b as usize];
                self.put_result(a, value);
            },
            Op::LDR => {
                let addr = self.cpu.registers[b as usize];
                let value = self.cpu.memory[addr as usize];
                self.put_result(a, value);
            },
            Op::MOV => {
                let value = self.cpu.registers[b as usize];
                self.put_result(a, value);
            },
            Op::STORE => {
                let value = self.cpu.registers[a as usize];
                self.cpu.memory[b as usize] = value;
                self.cpu.update_zn_flags(value);
            },
            Op::STR => {
                let addr = self.cpu.registers[b as usize];
                let value = self.cpu.registers[a as usize];
                self.cpu.memory[addr as usize] = value;
                self.cpu.update_zn_flags(value);
            },
            Op::PUSH => {
                let value = self.cpu.registers[a as usize];
                self.push_byte(value);
                self.cpu.update_zn_flags(value);
            },
            Op::POP => {
                let value = self.pop_byte();
                self.put_result(a, value);
            },
            Op::ADD | Op::SUB | Op::MUL | Op::DIV | Op::MOD => {
                let v1 = self.cpu.registers[a as usize];
                let v2 = self.cpu.registers[b as usize];
                self.put_carried(a, compute_arithmetic(op, v1, v2));
            },
            Op::ADDI | Op::SUBI | Op::MULI | Op::DIVI | Op::MODI => {
                let v1 = self.cpu.registers[a as usize];
                self.put_carried(a, compute_arithmetic(op, v1, b));
            },
            Op::INC | Op::DEC => {
                let v1 = self.cpu.registers[a as usize];
                self.put_carried(a, compute_arithmetic(op, v1, 1));
            },
            Op::AND | Op::OR | Op::XOR | Op::CMP => {
                let src = self.cpu.registers[b as usize];
                let dst = self.cpu.registers[a as usize];
                self.put_result(a, compute_logical(op, src, dst));
            },
            Op::NOT => {
                let value = self.cpu.registers[a as usize];
                self.put_result(a, !value);
            },
            Op::SHL | Op::SHR | Op::ROL | Op::ROR => {
                let value = self.cpu.registers[a as usize];
                self.put_carried(a, compute_shifted(op, value));
            },
            Op::JMP => {
                self.cpu.pc = a;
                jumped = true;
            },
            Op::JZ | Op::JNZ => {
                if self.cpu.get_flag(CPU::FLAG_Z) == (op == Op::JZ) {
                    self.cpu.pc = a;
                    jumped = true;
                } else {
                    skipped = true;
                }
            },
            Op::JMPR => {
                self.cpu.pc = self.cpu.registers[a as usize];
                jumped = true;
            },
            Op::CALL => {
                let back = self.cpu.pc.wrapping_add(op.instruction_len());
                self.push_byte(back);
                self.cpu.pc = a;
                jumped = true;
            },
            Op::CALLR => {
                let target = self.cpu.registers[a as usize];
                let back = self.cpu.pc.wrapping_add(op.instruction_len());
                self.push_byte(back);
                self.cpu.pc = target;
                jumped = true;
            },
            Op::RET => {
                let back = self.pop_byte();
                self.cpu.pc = back;
                jumped = true;
            },
            Op::PRINT => {
                let value = self.cpu.registers[a as usize];
                self.output.push(value as char);
            },
            Op::IN => {
                let value = self.input.remove(0);
                self.put_result(a, value);
            },
        }
        (jumped, skipped)
    }

    /// Executes one instruction and tells whether it set the program
    /// counter itself. An instruction that cannot run is refused with the
    /// reason, and nothing changes.
    pub fn execute(&mut self, op: Op, operands: Operands) -> (r: EmulatorResult<bool>)
        ensures
            match old(self)@.executed(op, operands) {
                Ok((next, jumped)) => r == Ok::<bool, EmulatorError>(jumped) && final(self)@ == next,
                Err(fault) => r is Err && r->Err_0@ == fault && final(self)@ == old(self)@,
            },
    {
        if let Some(e) = check_operands(op, &operands) {
            return Err(e);
        }
        if let Some(e) = self.check_state(op, &operands) {
            return Err(e);
        }
        if !self.current_instruction.as_str().is_empty() {
            let line = log_line(self.current_instruction.as_str(), self.current_skipped);
            self.instruction_log.push(line);
            proof {
                assert(texts(self.instruction_log@) =~= old(self)@.log_extended());
            }
        }
        let before = self.cpu;
        let (jumped, skipped) = self.apply(op, &operands);
        self.current_skipped = skipped;
        self.current_instruction = trace(op, &operands, &before, &self.cpu);
        Ok(jumped)
    }

    /// Runs one cycle: fetch, decode, execute, and move the program counter
    /// past the instruction unless the instruction set it. Tells whether
    /// the machine has halted. At an error nothing changes but the text of
    /// the opcode fetched.
    pub fn cycle(&mut self) -> (r: EmulatorResult<bool>)
        ensures
            match old(self)@.cycled() {
                Ok((next, halted)) => r == Ok::<bool, EmulatorError>(halted) && final(self)@ == next,
                Err(fault) => r is Err && r->Err_0@ == fault && final(self)@
                    == old(self)@.fetching(),
            },
    {
        let (op, operands) = self.fetch_decode();
        let jumped = match self.execute(op, operands) {
            Ok(jumped) => jumped,
            Err(e) => {
                return Err(e);
            },
        };
        if self.cpu.is_halted {
            return Ok(true);
        }
        if !jumped {
            self.cpu.pc = self.cpu.pc.wrapping_add(op.instruction_len());
        }
        self.cycle = self.cycle.wrapping_add(1);
        Ok(false)
    }

    /// Runs cycles until the machine halts, until `max_cycles` cycles are
    /// counted, or until a cycle fails, and gives that cycle's error.
    pub fn run(&mut self) -> (r: EmulatorResult<()>)
        ensures
            final(self)@ == old(self)@.ran().0,
            match old(self)@.ran().1 {
                Some(fault) => r is Err && r->Err_0@ == fault,
                None => r is Ok,
            },
    {
        while !self.cpu.is_halted && self.cycle < self.max_cycles
            invariant
                self@.ran() == old(self)@.ran(),
            decreases
                    if self.cpu.is_halted {
                        0
                    } else {
                        1 + self.max_cycles - self.cycle
                    },
        {
            match self.cycle() {
                Ok(_) => {},
                Err(e) => {
                    return Err(e);
                },
            }
        }
        Ok(())
    }
}

} // verus!
