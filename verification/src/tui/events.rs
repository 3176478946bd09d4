//! What each key does to the debugger.

use vstd::prelude::*;

use crate::cpu::CPU;
use crate::error::EmulatorError;
use crate::error::EmulatorFault;
use crate::render::hex_byte;
use crate::render::push_hex_byte;
use crate::tui::app::address_of;
use crate::tui::app::reports;
use crate::tui::app::typed;
use crate::tui::app::App;
use crate::tui::app::AppState;

verus! {

/// A key that was pressed.
#[derive(Debug, Clone, Copy, PartialEq, Eq, Structural)]
pub enum Key {
    /// A key that stands for a character.
    Char(char),
    Enter,
    Esc,
    Backspace,
    Up,
    Down,
    /// Any other key.
    Other,
}

/// What a key does to an address that is being typed: the text after the
/// key, and the address that is to be taken, if the key gives one. Escape
/// ends the typing; `k` ends it and gives the address to go back to; Enter
/// ends it and gives the address typed; a character is added and Backspace
/// takes the last away. Where nothing is being typed, no key does anything.
pub open spec fn edited(key: Key, editing: Option<Seq<char>>, reset_value: u8) -> (
    Option<Seq<char>>,
    Option<u8>,
) {
    match editing {
        None => (None, None),
        Some(input) => match key {
            Key::Esc => (None, None),
            Key::Char(c) => if c == 'k' {
                (None, Some(reset_value))
            } else {
                (Some(input.push(c)), None)
            },
            Key::Backspace => (
                Some(
                    if input.len() > 0 {
                        input.drop_last()
                    } else {
                        input
                    },
                ),
                None,
            ),
            Key::Enter => (None, Some(address_of(input))),
            _ => (editing, None),
        },
    }
}

/// The saturating sum of two numbers.
pub open spec fn saturating_sum(a: u64, b: u64) -> u64 {
    if a + b > u64::MAX {
        u64::MAX
    } else {
        (a + b) as u64
    }
}

/// The difference of two numbers, 0 where the second is the greater.
pub open spec fn saturating_difference(a: u64, b: u64) -> u64 {
    if a < b {
        0
    } else {
        (a - b) as u64
    }
}

/// What a key that belongs to the typing does: it goes to each of the
/// three addresses that may be typed, and an address that is given sets or
/// removes a breakpoint, or becomes the start of a view.
pub open spec fn typed_into(s: AppState, key: Key) -> AppState {
    let breakpoint = edited(key, s.editing_breakpoint, 0);
    let first = AppState { editing_breakpoint: breakpoint.0, ..s };
    let second = match breakpoint.1 {
        Some(addr) => first.toggled(addr),
        None => first,
    };
    let memory = edited(key, second.mem_view_start_editing, 0);
    let third = AppState {
        mem_view_start_editing: memory.0,
        mem_view_start: match memory.1 {
            Some(addr) => addr,
            None => second.mem_view_start,
        },
        ..second
    };
    let stack = edited(key, third.stack_view_start_editing, CPU::STACK_MAX);
    AppState {
        stack_view_start_editing: stack.0,
        stack_view_start: match stack.1 {
            Some(addr) => addr,
            None => third.stack_view_start,
        },
        ..third
    }
}

/// What a key does to the debugger, with the error of a cycle or of a
/// reset that failed. `q` leaves, the space bar steps, Enter starts and
/// stops the program where nothing is being typed, the arrows make the
/// ticks slower and faster by 50 milliseconds, `r` resets, `b`, `m` and `s`
/// begin the typing of a breakpoint and of the start of the two views. Any
/// other key belongs to the typing.
pub open spec fn keyed(s: AppState, key: Key) -> (AppState, Option<EmulatorFault>) {
    if key == Key::Char('q') {
        (AppState { exit: true, ..s }, None)
    } else if key == Key::Char(' ') {
        s.stepped()
    } else if key == Key::Enter && s.none_editing() {
        (AppState { running: !s.running, ..s }, None)
    } else if key == Key::Up {
        (AppState { tick_rate: saturating_sum(s.tick_rate, 50), ..s }, None)
    } else if key == Key::Down {
        (AppState { tick_rate: saturating_difference(s.tick_rate, 50), ..s }, None)
    } else if key == Key::Char('r') {
        s.reset()
    } else if key == Key::Char('b') {
        (AppState { editing_breakpoint: Some("0x"@), ..s }, None)
    } else if key == Key::Char('m') {
        (AppState { mem_view_start_editing: Some(hex_byte(s.mem_view_start)), ..s }, None)
    } else if key == Key::Char('s') {
        (AppState { stack_view_start_editing: Some(hex_byte(s.stack_view_start)), ..s }, None)
    } else {
        (typed_into(s, key), None)
    }
}

/// An address as it stands when its typing begins.
fn address_text(addr: u8) -> (s: String)
    ensures
        s@ == hex_byte(addr),
{
    let mut s = String::new();
    push_hex_byte(&mut s, addr);
    s
}

/// Hands a key to an address that is being typed, and gives the address
/// that is to be taken, if the key gives one.
pub fn handle_edit_input(key: Key, editing: &mut Option<String>, reset_value: u8) -> (r: Option<u8>)
    ensures
        typed(*final(editing)) == edited(key, typed(*old(editing)), reset_value).0,
        r == edited(key, typed(*old(editing)), reset_value).1,
{
    match editing.take() {
        None => None,
        Some(input) => {
            let mut input = input;
            match key {
                Key::Esc => None,
                Key::Char(c) => {
                    if c == 'k' {
                        Some(reset_value)
                    } else {
                        input.push(c);
                        *editing = Some(input);
                        None
                    }
                },
                Key::Backspace => {
                    let _ = input.pop();
                    *editing = Some(input);
                    None
                },
                Key::Enter => Some(App::parse_addr(input.as_str())),
                _ => {
                    *editing = Some(input);
                    None
                },
            }
        },
    }
}

/// Does what a key asks for, and gives the error of a cycle or of a reset
/// that failed.
pub fn handle_key(app: &mut App, key: Key) -> (r: Option<EmulatorError>)
    ensures
        final(app)@ == keyed(old(app)@, key).0,
        reports(r, keyed(old(app)@, key).1),
{
    match key {
        Key::Char('q') => {
            app.exit();
            None
        },
        Key::Char(' ') => app.next(),
        Key::Up => {
            app.tick_rate = app.tick_rate.saturating_add(50);
            None
        },
        Key::Down => {
            app.tick_rate = app.tick_rate.saturating_sub(50);
            None
        },
        Key::Char('r') => app.reset(),
        Key::Char('b') => {
            app.editing_breakpoint = Some("0x".to_owned());
            None
        },
        Key::Char('m') => {
            app.mem_view_start_editing = Some(address_text(app.mem_view_start));
            None
        },
        Key::Char('s') => {
            app.stack_view_start_editing = Some(address_text(app.stack_view_start));
            None
        },
        _ => {
            if key == Key::Enter && app.none_editing() {
                app.running = !app.running;
                return None;
            }
            if let Some(addr) = handle_edit_input(key, &mut app.editing_breakpoint, 0) {
                app.toggle_breakpoint(addr);
            }
            if let Some(addr) = handle_edit_input(key, &mut app.mem_view_start_editing, 0) {
                app.mem_view_start = addr;
            }
            if let Some(addr) = handle_edit_input(
                key,
                &mut app.stack_view_start_editing,
                CPU::STACK_MAX,
            ) {
                app.stack_view_start = addr;
            }
            None
        },
    }
}

} // verus!
