//! What holds of the instruction set, the engine and the assembler, each
//! proved from their definitions.

use vstd::prelude::*;

use crate::assembler::AssemblerState;
use crate::cpu::flags_get;
use crate::cpu::lemma_flags_carry;
use crate::cpu::lemma_flags_zn;
use crate::cpu::CPU;
use crate::error::AssemblerFault;
use crate::error::EmulatorFault;
use crate::grammar::constant_step;
use crate::grammar::constants_pass;
use crate::grammar::data_bytes;
use crate::grammar::emit_pass;
use crate::grammar::emitted;
use crate::grammar::instruction_of;
use crate::grammar::kind_of;
use crate::grammar::labels_pass;
use crate::grammar::number_value;
use crate::grammar::operands_of;
use crate::grammar::resolved;
use crate::grammar::size_of;
use crate::grammar::source_lines;
use crate::grammar::LabelScan;
use crate::grammar::LineKind;
use crate::nanocore::decode_instruction;
use crate::nanocore::encode_instruction;
use crate::nanocore::MachineState;
use crate::nanocore::Operands;
use crate::semantics::effect;
use crate::semantics::operand_fault;
use crate::text::words;
use crate::Op;
use crate::OperandShape;

verus! {

/// The byte at an index of a program, 0 beyond its end.
pub open spec fn byte_at(bytes: Seq<u8>, i: int) -> u8 {
    if 0 <= i < bytes.len() {
        bytes[i]
    } else {
        0
    }
}

/// Whether the bytes are a sequence of whole instructions, each with an
/// opcode that is assigned.
pub open spec fn is_program(bytes: Seq<u8>) -> bool
    decreases bytes.len(),
{
    bytes.len() == 0 || (Op::is_assigned(bytes[0]) && Op::of_byte(bytes[0]).len() <= bytes.len()
        && is_program(bytes.skip(Op::of_byte(bytes[0]).len() as int)))
}

/// The instructions that the bytes hold, one after the other, up to the
/// first that is cut short.
pub open spec fn decoded(bytes: Seq<u8>) -> Seq<(Op, Operands)>
    decreases bytes.len(),
{
    if bytes.len() == 0 || bytes.len() < Op::of_byte(bytes[0]).len() {
        Seq::empty()
    } else {
        seq![decode_instruction(bytes[0], byte_at(bytes, 1), byte_at(bytes, 2))] + decoded(
            bytes.skip(Op::of_byte(bytes[0]).len() as int),
        )
    }
}

/// The bytes that encode instructions, one after the other.
pub open spec fn encoded(instructions: Seq<(Op, Operands)>) -> Seq<u8>
    decreases instructions.len(),
{
    if instructions.len() == 0 {
        Seq::empty()
    } else {
        encode_instruction(instructions[0].0, instructions[0].1) + encoded(instructions.skip(1))
    }
}

/// The state after a number of cycles, where none of them fails; at a
/// cycle that fails the machine stays as the fetch left it.
pub open spec fn after_cycles(s: MachineState, n: nat) -> MachineState
    decreases n,
{
    if n == 0 {
        s
    } else {
        match s.cycled() {
            Ok((next, _)) => after_cycles(next, (n - 1) as nat),
            Err(_) => s.fetching(),
        }
    }
}

/// An instruction is as long as its operation says, where the operands are
/// of the shape that the operation takes.
pub proof fn lemma_encoding_length(op: Op, x: Operands)
    requires
        x.shape() == op.shape(),
    ensures
        encode_instruction(op, x).len() == op.len(),
{
}

/// Encoding what was decoded gives the bytes back: the opcode, where it is
/// assigned, and as many of the two bytes after it as the operation takes.
pub proof fn lemma_decode_then_encode(opcode: u8, byte_2: u8, byte_3: u8)
    requires
        Op::is_assigned(opcode),
    ensures
        ({
            let (op, x) = decode_instruction(opcode, byte_2, byte_3);
            &&& x.shape() == op.shape()
            &&& x.registers_exist() || op.shape() != OperandShape::RegReg
            &&& encode_instruction(op, x) == seq![opcode, byte_2, byte_3].take(op.len() as int)
        }),
{
}

/// Decoding what was encoded gives the instruction back, whatever bytes
/// follow it, where the operands are those of the operation and two
/// registers that share a byte are both among the sixteen.
pub proof fn lemma_encode_then_decode(op: Op, x: Operands, after_1: u8, after_2: u8)
    requires
        x.shape() == op.shape(),
        op.shape() == OperandShape::RegReg ==> x.registers_exist(),
    ensures
        ({
            let bytes = encode_instruction(op, x) + seq![after_1, after_2];
            decode_instruction(bytes[0], bytes[1], bytes[2]) == (op, x)
        }),
{
}

/// For every program, encoding the decoded instructions gives the program
/// back.
pub proof fn lemma_program_round_trip(bytes: Seq<u8>)
    requires
        is_program(bytes),
    ensures
        encoded(decoded(bytes)) == bytes,
    decreases bytes.len(),
{
    if bytes.len() > 0 {
        let rest = bytes.skip(Op::of_byte(bytes[0]).len() as int);
        let first = decode_instruction(bytes[0], byte_at(bytes, 1), byte_at(bytes, 2));
        lemma_decode_then_encode(bytes[0], byte_at(bytes, 1), byte_at(bytes, 2));
        lemma_program_round_trip(rest);
        assert((seq![first] + decoded(rest)).skip(1) =~= decoded(rest));
    }
}

/// Whether two emulators hold the same machine and the same input, whatever
/// they have printed, logged and counted.
pub open spec fn same_machine(a: MachineState, b: MachineState) -> bool {
    a.cpu == b.cpu && a.input == b.input
}

/// A cycle depends on the machine and the input alone: on two emulators that
/// agree in both it fails with the same error or leaves them agreeing, and
/// adds the same to what they printed.
pub proof fn lemma_cycle_deterministic(a: MachineState, b: MachineState)
    requires
        same_machine(a, b),
    ensures
        match (a.cycled(), b.cycled()) {
            (Ok((next_a, halted_a)), Ok((next_b, halted_b))) => {
                &&& same_machine(next_a, next_b)
                &&& halted_a == halted_b
                &&& a.output == b.output ==> next_a.output == next_b.output
            },
            (Err(fault_a), Err(fault_b)) => fault_a == fault_b,
            _ => false,
        },
{
}

/// The machine after any number of cycles depends on the machine and the
/// input at the start alone.
pub proof fn lemma_cycles_deterministic(a: MachineState, b: MachineState, n: nat)
    requires
        same_machine(a, b),
    ensures
        same_machine(after_cycles(a, n), after_cycles(b, n)),
        a.output == b.output ==> after_cycles(a, n).output == after_cycles(b, n).output,
    decreases n,
{
    if n > 0 {
        if a.cycled() is Ok {
            lemma_cycles_deterministic(a.cycled()->Ok_0.0, b.cycled()->Ok_0.0, (n - 1) as nat);
        }
    }
}

/// The same program loaded at the same address into two emulators that hold
/// the same machine and the same input gives the same registers, memory,
/// flags, program counter and stack pointer after every number of cycles.
pub proof fn lemma_deterministic(a: MachineState, b: MachineState, program: Seq<u8>, start: u8, n: nat)
    requires
        same_machine(a, b),
    ensures
        same_machine(
            after_cycles(a.loaded(program, start), n),
            after_cycles(b.loaded(program, start), n),
        ),
{
    lemma_cycles_deterministic(a.loaded(program, start), b.loaded(program, start), n);
}

/// A run depends on the machine, the input and the two cycle counts alone:
/// two emulators that agree in them stop with the same machine and the same
/// error, if any.
pub proof fn lemma_run_deterministic(a: MachineState, b: MachineState)
    requires
        same_machine(a, b),
        a.cycle == b.cycle,
        a.max_cycles == b.max_cycles,
    ensures
        same_machine(a.ran().0, b.ran().0),
        a.ran().1 == b.ran().1,
        a.ran().0.cycle == b.ran().0.cycle,
        a.output == b.output ==> a.ran().0.output == b.ran().0.output,
    decreases a.max_cycles - a.cycle,
{
    if a.running() {
        if a.cycled() is Ok && !a.cycled()->Ok_0.1 {
            lemma_run_deterministic(a.cycled()->Ok_0.0, b.cycled()->Ok_0.0);
        }
    }
}

/// `INC` on a register that holds 255 gives 0, sets Z, clears N and sets C,
/// and changes nothing else in the machine.
pub proof fn lemma_inc_wraps(s: MachineState, r: u8)
    requires
        s.cpu.well_formed(),
        r < 16,
        s.cpu.registers[r as int] == 255,
    ensures
        ({
            let done = s.executed(Op::INC, Operands::Reg(r));
            let after = done->Ok_0.0.cpu;
            &&& done is Ok
            &&& !done->Ok_0.1
            &&& after.registers == s.cpu.registers.update(r as int, 0)
            &&& flags_get(after.flags, CPU::FLAG_Z)
            &&& !flags_get(after.flags, CPU::FLAG_N)
            &&& flags_get(after.flags, CPU::FLAG_C)
            &&& after.pc == s.cpu.pc && after.sp == s.cpu.sp && after.memory == s.cpu.memory
            &&& after.halted == s.cpu.halted
        }),
{
    reveal(effect);
    lemma_flags_zn(s.cpu.flags, 0);
    lemma_flags_carry(crate::cpu::flags_zn(s.cpu.flags, 0), true);
}

/// A push fails if and only if the stack pointer is at the lowest address of
/// the stack, 0xEA, and then with that address as a stack overflow; a pop
/// fails if and only if the stack pointer is at the highest address, 0xFF,
/// and then with that address as a stack underflow. `CALL` and `CALLR`
/// push, `RET` pops.
pub proof fn lemma_stack_bounds(s: MachineState, op: Op, x: Operands)
    requires
        op == Op::PUSH || op == Op::POP || op == Op::CALL || op == Op::CALLR || op == Op::RET,
        operand_fault(op, x) is None,
    ensures
        (op == Op::PUSH || op == Op::CALL || op == Op::CALLR) ==> (s.executed(op, x) is Err <==> s.cpu.sp
            == 0xEA),
        (op == Op::PUSH || op == Op::CALL || op == Op::CALLR) && s.cpu.sp == 0xEA ==> s.executed(
            op,
            x,
        ) == Err::<(MachineState, bool), EmulatorFault>(EmulatorFault::StackOverflow { sp: 0xEA }),
        (op == Op::POP || op == Op::RET) ==> (s.executed(op, x) is Err <==> s.cpu.sp == 0xFF),
        (op == Op::POP || op == Op::RET) && s.cpu.sp == 0xFF ==> s.executed(op, x) == Err::<
            (MachineState, bool),
            EmulatorFault,
        >(EmulatorFault::StackUnderflow { sp: 0xFF }),
{
}

/// An instruction leaves the stack pointer within the stack, and only a
/// push or a pop moves it.
pub proof fn lemma_stack_pointer_stays_in_bounds(s: MachineState, op: Op, x: Operands)
    requires
        s.cpu.stack_in_bounds(),
        s.executed(op, x) is Ok,
    ensures
        s.executed(op, x)->Ok_0.0.cpu.stack_in_bounds(),
        !(op == Op::PUSH || op == Op::POP || op == Op::CALL || op == Op::CALLR || op == Op::RET)
            ==> s.executed(op, x)->Ok_0.0.cpu.sp == s.cpu.sp,
{
    reveal(effect);
}

/// A division or a modulus fails if and only if the divisor is zero, and
/// then with the name of the operation. The error leaves the machine as it
/// was: the destination register and the program counter are those from
/// before.
pub proof fn lemma_division_by_zero(s: MachineState, op: Op, x: Operands)
    requires
        op == Op::DIV || op == Op::MOD || op == Op::DIVI || op == Op::MODI,
        operand_fault(op, x) is None,
    ensures
        ({
            let divisor = if op == Op::DIV || op == Op::MOD {
                s.cpu.registers[x.second() as int]
            } else {
                x.second()
            };
            s.executed(op, x) is Err <==> divisor == 0
        }),
        s.executed(op, x) is Err ==> s.executed(op, x)->Err_0 == (EmulatorFault::DivisionByZero {
            op: op.mnemonic(),
        }),
{
}

/// `CMP` puts into the destination register 0 if the two registers hold
/// the same, 1 if the source register holds more than the destination
/// register and 2 if it holds less. It sets Z if and only if they hold the
/// same, clears N and leaves C.
pub proof fn lemma_compare_result(s: MachineState, rd: u8, rs: u8)
    requires
        s.cpu.well_formed(),
        rd < 16,
        rs < 16,
    ensures
        ({
            let src = s.cpu.registers[rs as int];
            let dst = s.cpu.registers[rd as int];
            let done = s.executed(Op::CMP, Operands::RegReg(rd, rs));
            let after = done->Ok_0.0.cpu;
            &&& done is Ok
            &&& !done->Ok_0.1
            &&& src == dst ==> after.registers[rd as int] == 0
            &&& src > dst ==> after.registers[rd as int] == 1
            &&& src < dst ==> after.registers[rd as int] == 2
            &&& flags_get(after.flags, CPU::FLAG_Z) == (src == dst)
            &&& !flags_get(after.flags, CPU::FLAG_N)
            &&& flags_get(after.flags, CPU::FLAG_C) == flags_get(s.cpu.flags, CPU::FLAG_C)
        }),
{
    reveal(effect);
    let src = s.cpu.registers[rs as int];
    let dst = s.cpu.registers[rd as int];
    lemma_flags_zn(s.cpu.flags, crate::semantics::comparison(src, dst));
}

/// A constant stands for its value: a name that is defined as a constant
/// gives the byte that a number of that value gives.
pub proof fn lemma_constant_is_its_value(
    constants: Map<Seq<char>, u8>,
    name: Seq<char>,
    literal: Seq<char>,
    number: usize,
)
    requires
        constants.contains_key(name),
        !constants.contains_key(literal),
        number_value(literal, number) == Ok::<u8, AssemblerFault>(constants[name]),
    ensures
        resolved(constants, name, number) == resolved(constants, literal, number),
{
}

/// An instruction that takes a register and a value gives the same bytes
/// with the name of a constant in the place of the value as with a number
/// of the constant's value there.
pub proof fn lemma_constant_folding(
    named: Seq<char>,
    plain: Seq<char>,
    constants: Map<Seq<char>, u8>,
    labels: Map<Seq<char>, u8>,
    number: usize,
)
    requires
        kind_of(named) == LineKind::Instruction,
        kind_of(plain) == LineKind::Instruction,
        words(named).len() >= 3,
        words(plain).len() >= 3,
        words(named)[0] == words(plain)[0],
        words(named)[1] == words(plain)[1],
        Op::of_mnemonic(words(named)[0]) is Some,
        Op::of_mnemonic(words(named)[0])->0.shape() == OperandShape::RegImm || Op::of_mnemonic(
            words(named)[0],
        )->0.shape() == OperandShape::RegAddr,
        constants.contains_key(words(named)[2]),
        !constants.contains_key(words(plain)[2]),
        number_value(words(plain)[2], number) == Ok::<u8, AssemblerFault>(
            constants[words(named)[2]],
        ),
    ensures
        emitted(named, constants, labels, number) == emitted(plain, constants, labels, number),
{
}

/// One cycle keeps the sixteen registers and the 256 bytes of memory, and
/// leaves the stack pointer within the stack.
pub proof fn lemma_cycle_keeps_the_machine(s: MachineState)
    requires
        s.cpu.well_formed(),
        s.cpu.stack_in_bounds(),
        s.cycled() is Ok,
    ensures
        s.cycled()->Ok_0.0.cpu.well_formed(),
        s.cycled()->Ok_0.0.cpu.stack_in_bounds(),
{
    reveal(effect);
}

/// Whether an error is one that the assembler gives for line `number` of a
/// text: it holds that number, and it is none for a label that is not
/// defined.
pub open spec fn is_error_of_line(fault: AssemblerFault, number: usize) -> bool {
    fault.line() == number && !(fault is UndefinedLabel)
}

/// An error in a `.DB` line is an error of that line.
pub proof fn lemma_data_error_is_of_the_line(
    constants: Map<Seq<char>, u8>,
    w: Seq<Seq<char>>,
    n: int,
    number: usize,
)
    requires
        data_bytes(constants, w, n, number) is Err,
    ensures
        is_error_of_line(data_bytes(constants, w, n, number)->Err_0, number),
    decreases n,
{
    if n > 1 && data_bytes(constants, w, n - 1, number) is Err {
        lemma_data_error_is_of_the_line(constants, w, n - 1, number);
    }
}

/// The error that a line gives in any of the three passes is an error of
/// that line.
pub proof fn lemma_error_is_of_the_line(
    line: Seq<char>,
    constants: Map<Seq<char>, u8>,
    labels: Map<Seq<char>, u8>,
    number: usize,
)
    ensures
        constant_step(constants, line, number) is Err ==> is_error_of_line(
            constant_step(constants, line, number)->Err_0,
            number,
        ),
        size_of(line, number) is Err ==> is_error_of_line(size_of(line, number)->Err_0, number),
        emitted(line, constants, labels, number) is Err ==> is_error_of_line(
            emitted(line, constants, labels, number)->Err_0,
            number,
        ),
{
    if kind_of(line) == LineKind::Bytes && emitted(line, constants, labels, number) is Err {
        lemma_data_error_is_of_the_line(constants, words(line), words(line).len() as int, number);
    }
}

/// The error of the first pass over the first `n` lines names one of them.
pub proof fn lemma_constants_error_names_a_line(
    ls: Seq<Seq<char>>,
    n: int,
    constants: Map<Seq<char>, u8>,
)
    requires
        n <= usize::MAX,
        constants_pass(ls, n, constants).1 is Some,
    ensures
        1 <= constants_pass(ls, n, constants).1->0.line() <= n,
        !(constants_pass(ls, n, constants).1->0 is UndefinedLabel),
    decreases n,
{
    if n > 0 {
        let before = constants_pass(ls, n - 1, constants);
        if before.1 is Some {
            lemma_constants_error_names_a_line(ls, n - 1, constants);
        } else {
            lemma_error_is_of_the_line(ls[n - 1], before.0, Map::empty(), n as usize);
        }
    }
}

/// The error of the second pass over the first `n` lines names one of them.
pub proof fn lemma_labels_error_names_a_line(ls: Seq<Seq<char>>, n: int, start: LabelScan)
    requires
        n <= usize::MAX,
        labels_pass(ls, n, start).1 is Some,
    ensures
        1 <= labels_pass(ls, n, start).1->0.line() <= n,
        !(labels_pass(ls, n, start).1->0 is UndefinedLabel),
    decreases n,
{
    if n > 0 {
        if labels_pass(ls, n - 1, start).1 is Some {
            lemma_labels_error_names_a_line(ls, n - 1, start);
        } else {
            lemma_error_is_of_the_line(ls[n - 1], Map::empty(), Map::empty(), n as usize);
        }
    }
}

/// The error of the third pass over the first `n` lines names one of them.
pub proof fn lemma_emit_error_names_a_line(
    ls: Seq<Seq<char>>,
    n: int,
    constants: Map<Seq<char>, u8>,
    labels: Map<Seq<char>, u8>,
)
    requires
        n <= usize::MAX,
        emit_pass(ls, n, constants, labels) is Err,
    ensures
        1 <= emit_pass(ls, n, constants, labels)->Err_0.line() <= n,
        !(emit_pass(ls, n, constants, labels)->Err_0 is UndefinedLabel),
    decreases n,
{
    if n > 0 {
        if emit_pass(ls, n - 1, constants, labels) is Err {
            lemma_emit_error_names_a_line(ls, n - 1, constants, labels);
        } else {
            lemma_error_is_of_the_line(ls[n - 1], constants, labels, n as usize);
        }
    }
}

/// Every error of the assembler holds the number of a line of the source
/// text, counted from 1. No text gives the error for a label that is not
/// defined: the target of a jump that is no label is read as a number.
pub proof fn lemma_assembly_error_names_a_line(s: AssemblerState, text: Seq<char>)
    requires
        source_lines(text).len() <= usize::MAX,
        s.assembled(text).1 is Some,
    ensures
        1 <= s.assembled(text).1->0.line() <= source_lines(text).len(),
        !(s.assembled(text).1->0 is UndefinedLabel),
{
    let ls = source_lines(text);
    let n = ls.len() as int;
    let first = (AssemblerState { source: text, ..s }).with_constants();
    if first.1 is Some {
        lemma_constants_error_names_a_line(ls, n, s.constants);
    } else {
        let second = first.0.with_labels();
        if second.1 is Some {
            lemma_labels_error_names_a_line(
                ls,
                n,
                LabelScan { labels: first.0.labels, address: 0 },
            );
        } else {
            lemma_emit_error_names_a_line(ls, n, second.0.constants, second.0.labels);
        }
    }
}

/// A failed assembly leaves the program as it was.
pub proof fn lemma_assembly_error_keeps_the_program(s: AssemblerState, text: Seq<char>)
    requires
        s.assembled(text).1 is Some,
    ensures
        s.assembled(text).0.program == s.program,
{
}

/// The bytes of a `.DB` line are as many as its words after the first.
pub proof fn lemma_data_length(
    constants: Map<Seq<char>, u8>,
    w: Seq<Seq<char>>,
    n: int,
    number: usize,
)
    requires
        1 <= n,
        data_bytes(constants, w, n, number) is Ok,
    ensures
        data_bytes(constants, w, n, number)->Ok_0.len() == n - 1,
    decreases n,
{
    if n > 1 {
        lemma_data_length(constants, w, n - 1, number);
    }
}

/// What the assembler makes of an instruction line is an instruction that
/// the engine accepts: operands of the shape that the operation takes, and
/// registers among the sixteen.
pub proof fn lemma_assembled_operands_fit(
    op: Op,
    w: Seq<Seq<char>>,
    constants: Map<Seq<char>, u8>,
    labels: Map<Seq<char>, u8>,
    number: usize,
)
    requires
        operands_of(op, w, constants, labels, number) is Ok,
    ensures
        operand_fault(op, operands_of(op, w, constants, labels, number)->Ok_0) is None,
{
}

/// The engine decodes the bytes of an instruction line to the instruction
/// that the assembler read from the line, whatever follows the bytes.
pub proof fn lemma_assembled_instruction_decodes(
    line: Seq<char>,
    constants: Map<Seq<char>, u8>,
    labels: Map<Seq<char>, u8>,
    number: usize,
    after_1: u8,
    after_2: u8,
)
    requires
        kind_of(line) == LineKind::Instruction,
        instruction_of(line, constants, labels, number) is Ok,
        instruction_of(line, constants, labels, number)->Ok_0 is Some,
    ensures
        ({
            let bytes = emitted(line, constants, labels, number)->Ok_0 + seq![after_1, after_2];
            &&& emitted(line, constants, labels, number) is Ok
            &&& Some(decode_instruction(bytes[0], bytes[1], bytes[2])) == instruction_of(
                line,
                constants,
                labels,
                number,
            )->Ok_0
        }),
{
}

/// The second pass moves the address on by as much as the third pass adds
/// to the program, modulo 256: the address of a label is that of the byte
/// after it.
pub proof fn lemma_size_is_emitted_length(
    line: Seq<char>,
    constants: Map<Seq<char>, u8>,
    labels: Map<Seq<char>, u8>,
    number: usize,
)
    requires
        emitted(line, constants, labels, number) is Ok,
        kind_of(line) == LineKind::Bytes ==> words(line).len() >= 1,
    ensures
        size_of(line, number) == Ok::<u8, AssemblerFault>(
            (emitted(line, constants, labels, number)->Ok_0.len() % 256) as u8,
        ),
{
    if kind_of(line) == LineKind::Bytes {
        lemma_data_length(constants, words(line), words(line).len() as int, number);
    }
}

} // verus!
