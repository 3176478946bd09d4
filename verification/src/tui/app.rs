//! The state of the debugger and what stepping, running and resetting do
//! to it.

use vstd::prelude::*;
use vstd::slice::slice_subrange;
use vstd::slice::slice_to_vec;
use vstd::utf8::encode_utf8;

use crate::cpu::CpuState;
use crate::cpu::CPU;
use crate::error::EmulatorError;
use crate::error::EmulatorFault;
use crate::hexlit::decode_hex;
use crate::hexlit::hex_decoded;
use crate::hexlit::is_hex_text;
use crate::nanocore::MachineState;
use crate::nanocore::NanoCore;
use crate::render::chars_of;
use crate::render::string_of;
use crate::text::has_prefix;
use crate::text::starts_with;
use crate::text::without;

verus! {

/// The debugger.
#[derive(Debug)]
pub struct App {
    /// Whether the debugger is to be left.
    pub exit: bool,
    pub nano_core: NanoCore,
    /// The name of the file that the program came from.
    pub filename: String,
    /// The program, kept for a reset.
    pub program: Vec<u8>,
    /// Whether the program runs on its own, one cycle at each tick.
    pub running: bool,
    /// The time between two ticks, in milliseconds.
    pub tick_rate: u64,
    /// The addresses at which a running program stops.
    pub breakpoints: Vec<u8>,
    /// The address of a breakpoint while it is typed.
    pub editing_breakpoint: Option<String>,
    /// The address from which memory is shown.
    pub mem_view_start: u8,
    /// That address while it is typed.
    pub mem_view_start_editing: Option<String>,
    /// The address from which the stack is shown.
    pub stack_view_start: u8,
    /// That address while it is typed.
    pub stack_view_start_editing: Option<String>,
}

/// The debugger as plain values.
pub struct AppState {
    pub exit: bool,
    pub nano_core: MachineState,
    pub filename: Seq<char>,
    pub program: Seq<u8>,
    pub running: bool,
    pub tick_rate: u64,
    pub breakpoints: Seq<u8>,
    pub editing_breakpoint: Option<Seq<char>>,
    pub mem_view_start: u8,
    pub mem_view_start_editing: Option<Seq<char>>,
    pub stack_view_start: u8,
    pub stack_view_start_editing: Option<Seq<char>>,
}

/// The text that is typed, if any is.
pub open spec fn typed(editing: Option<String>) -> Option<Seq<char>> {
    match editing {
        Some(text) => Some(text@),
        None => None,
    }
}

impl View for App {
    type V = AppState;

    open spec fn view(&self) -> AppState {
        AppState {
            exit: self.exit,
            nano_core: self.nano_core@,
            filename: self.filename@,
            program: self.program@,
            running: self.running,
            tick_rate: self.tick_rate,
            breakpoints: self.breakpoints@,
            editing_breakpoint: typed(self.editing_breakpoint),
            mem_view_start: self.mem_view_start,
            mem_view_start_editing: typed(self.mem_view_start_editing),
            stack_view_start: self.stack_view_start,
            stack_view_start_editing: typed(self.stack_view_start_editing),
        }
    }
}

/// The address that a typed text stands for: the first byte of the
/// hexadecimal digits after `0x`, and 0 where the text does not start with
/// `0x` or no pairs of digits follow.
pub open spec fn address_of(text: Seq<char>) -> u8 {
    let digits = encode_utf8(text.skip(2));
    if has_prefix(text, "0x"@) && is_hex_text(digits) && digits.len() > 0 {
        hex_decoded(digits)[0]
    } else {
        0
    }
}

/// The machine, halted.
pub open spec fn halted(s: MachineState) -> MachineState {
    MachineState { cpu: CpuState { halted: true, ..s.cpu }, ..s }
}

impl AppState {
    /// The state of a debugger that was just made.
    pub open spec fn initial(filename: Seq<char>, program: Seq<u8>) -> AppState {
        AppState {
            exit: false,
            nano_core: MachineState::initial(),
            filename,
            program,
            running: false,
            tick_rate: 100,
            breakpoints: Seq::empty(),
            editing_breakpoint: None,
            mem_view_start: 0,
            mem_view_start_editing: None,
            stack_view_start: CPU::STACK_MAX,
            stack_view_start_editing: None,
        }
    }

    /// Whether no address is being typed.
    pub open spec fn none_editing(self) -> bool {
        self.editing_breakpoint is None && self.mem_view_start_editing is None
            && self.stack_view_start_editing is None
    }

    /// The state with another program, loaded at address 0 where it fits.
    pub open spec fn loaded(self, bytes: Seq<u8>) -> (AppState, Option<EmulatorFault>) {
        if bytes.len() <= 256 {
            (AppState { program: bytes, nano_core: self.nano_core.loaded(bytes, 0), ..self }, None)
        } else {
            (
                AppState { program: bytes, ..self },
                Some(
                    EmulatorFault::ProgramTooLarge { size: bytes.len() as usize, start: 0, max: 256 },
                ),
            )
        }
    }

    /// The state after one step: a machine that has halted stays; another
    /// runs one cycle, and halts if the cycle fails.
    pub open spec fn stepped(self) -> (AppState, Option<EmulatorFault>) {
        if self.nano_core.cpu.halted {
            (self, None)
        } else {
            match self.nano_core.cycled() {
                Ok((next, _)) => (AppState { nano_core: next, ..self }, None),
                Err(fault) => (
                    AppState { nano_core: halted(self.nano_core.fetching()), ..self },
                    Some(fault),
                ),
            }
        }
    }

    /// The state after a turn of a running program: it stops where the
    /// machine has halted or stands at a breakpoint; else it runs one cycle
    /// if a tick is due, and halts and stops if the cycle fails.
    pub open spec fn ran_full(self, tick_due: bool) -> (AppState, Option<EmulatorFault>) {
        if self.nano_core.cpu.halted || self.breakpoints.contains(self.nano_core.cpu.pc) {
            (AppState { running: false, ..self }, None)
        } else if !tick_due {
            (self, None)
        } else {
            match self.nano_core.cycled() {
                Ok((next, _)) => (AppState { nano_core: next, ..self }, None),
                Err(fault) => (
                    AppState {
                        nano_core: halted(self.nano_core.fetching()),
                        running: false,
                        ..self
                    },
                    Some(fault),
                ),
            }
        }
    }

    /// The state after a reset: a new machine with the program loaded at
    /// address 0 where it fits, and not running.
    pub open spec fn reset(self) -> (AppState, Option<EmulatorFault>) {
        if self.program.len() <= 256 {
            (
                AppState {
                    nano_core: MachineState::initial().loaded(self.program, 0),
                    running: false,
                    ..self
                },
                None,
            )
        } else {
            (
                AppState { nano_core: MachineState::initial(), running: false, ..self },
                Some(
                    EmulatorFault::ProgramTooLarge {
                        size: self.program.len() as usize,
                        start: 0,
                        max: 256,
                    },
                ),
            )
        }
    }

    /// The state with a breakpoint more, or without the breakpoint where
    /// there was one at the address.
    pub open spec fn toggled(self, addr: u8) -> AppState {
        AppState {
            breakpoints: if self.breakpoints.contains(addr) {
                without(self.breakpoints, addr)
            } else {
                self.breakpoints.push(addr)
            },
            ..self
        }
    }
}

/// Whether an error is the expected one, or none where none is expected.
pub open spec fn reports(r: Option<EmulatorError>, expected: Option<EmulatorFault>) -> bool {
    match expected {
        None => r is None,
        Some(fault) => r is Some && r->0@ == fault,
    }
}

/// Whether a byte stands in the vector.
pub fn holds(v: &Vec<u8>, x: u8) -> (found: bool)
    ensures
        found == v@.contains(x),
{
    let mut i: usize = 0;
    while i < v.len()
        invariant
            i <= v.len(),
            forall|k: int| 0 <= k < i ==> v@[k] != x,
        decreases v.len() - i,
    {
        if v[i] == x {
            return true;
        }
        i += 1;
    }
    false
}

/// The bytes of the vector that are not `x`.
pub fn remove_byte(v: &Vec<u8>, x: u8) -> (out: Vec<u8>)
    ensures
        out@ == without(v@, x),
{
    let mut out: Vec<u8> = Vec::new();
    let mut i: usize = 0;
    while i < v.len()
        invariant
            i <= v.len(),
            out@ == without(v@.take(i as int), x),
        decreases v.len() - i,
    {
        proof {
            assert(v@.take(i + 1).drop_last() =~= v@.take(i as int));
        }
        if v[i] != x {
            out.push(v[i]);
        }
        i += 1;
    }
    proof {
        assert(v@.take(i as int) =~= v@);
    }
    out
}

impl App {
    /// A debugger for a program, with a new machine, not running, with a
    /// tick every 100 milliseconds and no breakpoint.
    pub fn new(filename: String, program: Vec<u8>) -> (app: App)
        ensures
            app@ == AppState::initial(filename@, program@),
    {
        App {
            exit: false,
            nano_core: NanoCore::new(),
            filename,
            program,
            running: false,
            tick_rate: 100,
            breakpoints: Vec::new(),
            editing_breakpoint: None,
            mem_view_start: 0,
            mem_view_start_editing: None,
            stack_view_start: CPU::STACK_MAX,
            stack_view_start_editing: None,
        }
    }

    /// Takes another program and loads it at address 0. A program that does
    /// not fit is kept and not loaded.
    pub fn load(&mut self, bytes: &[u8]) -> (r: Option<EmulatorError>)
        ensures
            final(self)@ == old(self)@.loaded(bytes@).0,
            reports(r, old(self)@.loaded(bytes@).1),
    {
        self.program = slice_to_vec(bytes);
        match self.nano_core.load_program(bytes, 0) {
            Ok(()) => None,
            Err(e) => Some(e),
        }
    }

    /// Whether no address is being typed.
    pub fn none_editing(&self) -> (none: bool)
        ensures
            none == self@.none_editing(),
    {
        self.editing_breakpoint.is_none() && self.mem_view_start_editing.is_none()
            && self.stack_view_start_editing.is_none()
    }

    /// Asks for the debugger to be left.
    pub fn exit(&mut self)
        ensures
            final(self)@ == (AppState { exit: true, ..old(self)@ }),
    {
        self.exit = true;
    }

    /// Runs one cycle unless the machine has halted. A cycle that fails
    /// halts the machine; its error is given.
    pub fn next(&mut self) -> (r: Option<EmulatorError>)
        ensures
            final(self)@ == old(self)@.stepped().0,
            reports(r, old(self)@.stepped().1),
    {
        if self.nano_core.cpu.is_halted {
            return None;
        }
        match self.nano_core.cycle() {
            Ok(_) => None,
            Err(e) => {
                self.nano_core.cpu.is_halted = true;
                Some(e)
            },
        }
    }

    /// One turn of a running program: it stops at a breakpoint or where
    /// the machine has halted, and runs one cycle if a tick is due. A cycle
    /// that fails halts the machine and stops the program; its error is
    /// given.
    pub fn run_full(&mut self, tick_due: bool) -> (r: Option<EmulatorError>)
        ensures
            final(self)@ == old(self)@.ran_full(tick_due).0,
            reports(r, old(self)@.ran_full(tick_due).1),
    {
        if self.nano_core.cpu.is_halted || holds(&self.breakpoints, self.nano_core.cpu.pc) {
            self.running = false;
            return None;
        }
        if !tick_due {
            return None;
        }
        match self.nano_core.cycle() {
            Ok(_) => None,
            Err(e) => {
                self.nano_core.cpu.is_halted = true;
                self.running = false;
                Some(e)
            },
        }
    }

    /// Starts over: a new machine with the program loaded at address 0,
    /// not running. The error of a program that does not fit is given.
    pub fn reset(&mut self) -> (r: Option<EmulatorError>)
        ensures
            final(self)@ == old(self)@.reset().0,
            reports(r, old(self)@.reset().1),
    {
        self.nano_core = NanoCore::new();
        self.running = false;
        match self.nano_core.load_program(self.program.as_slice(), 0) {
            Ok(()) => None,
            Err(e) => Some(e),
        }
    }

    /// Sets a breakpoint at an address, or removes the one that is there.
    pub fn toggle_breakpoint(&mut self, addr: u8)
        ensures
            final(self)@ == old(self)@.toggled(addr),
    {
        if holds(&self.breakpoints, addr) {
            self.breakpoints = remove_byte(&self.breakpoints, addr);
        } else {
            self.breakpoints.push(addr);
        }
    }

    /// The address that a typed text stands for.
    pub fn parse_addr(s: &str) -> (addr: u8)
        ensures
            addr == address_of(s@),
    {
        let text = chars_of(s);
        if !starts_with(text.as_slice(), "0x") {
            return 0;
        }
        proof {
            reveal_strlit("0x");
        }
        let rest = slice_subrange(text.as_slice(), 2, text.len());
        let digits = string_of(rest);
        match decode_hex(digits.as_str()) {
            Ok(bytes) => {
                if bytes.len() > 0 {
                    bytes[0]
                } else {
                    0
                }
            },
            Err(_) => 0,
        }
    }
}

} // verus!
