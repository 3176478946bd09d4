use nanocore::trace::get_instruction_parts;
use nanocore::tui::app::{holds, remove_byte, App};
use nanocore::tui::events::{handle_edit_input, handle_key, Key};
use nanocore::EmulatorError;

fn app(program: &[u8]) -> App {
    let mut app = App::new("test.ncb".to_string(), Vec::new());
    assert!(app.load(program).is_none());
    app
}

fn press(app: &mut App, text: &str) {
    for c in text.chars() {
        assert!(handle_key(app, Key::Char(c)).is_none());
    }
}

#[test]
fn a_new_debugger() {
    let app = App::new("a.nca".to_string(), vec![1, 2, 3]);
    assert!(!app.exit);
    assert!(!app.running);
    assert_eq!(app.filename, "a.nca");
    assert_eq!(app.program, vec![1, 2, 3]);
    assert_eq!(app.tick_rate, 100);
    assert!(app.breakpoints.is_empty());
    assert_eq!(app.mem_view_start, 0);
    assert_eq!(app.stack_view_start, 0xFF);
    assert!(app.none_editing());
    assert_eq!(app.nano_core.cpu.memory, [0u8; 256]);
}

#[test]
fn loading_keeps_the_program() {
    let mut app = App::new("a".to_string(), Vec::new());
    assert!(app.load(&[0x0D, 0x00, 0x00]).is_none());
    assert_eq!(app.program, vec![0x0D, 0x00, 0x00]);
    assert_eq!(&app.nano_core.cpu.memory[..3], &[0x0D, 0x00, 0x00]);
    assert_eq!(
        app.load(&[0u8; 257]),
        Some(EmulatorError::ProgramTooLarge { size: 257, start: 0, max: 256 })
    );
    assert_eq!(app.program.len(), 257);
    assert_eq!(&app.nano_core.cpu.memory[..3], &[0x0D, 0x00, 0x00]);
}

#[test]
fn addresses_as_typed() {
    assert_eq!(App::parse_addr("0x10"), 0x10);
    assert_eq!(App::parse_addr("0xfF"), 0xFF);
    assert_eq!(App::parse_addr("0x1234"), 0x12);
    assert_eq!(App::parse_addr("0x"), 0);
    assert_eq!(App::parse_addr("0x1"), 0);
    assert_eq!(App::parse_addr("0xZZ"), 0);
    assert_eq!(App::parse_addr("10"), 0);
    assert_eq!(App::parse_addr("ff"), 0);
    assert_eq!(App::parse_addr(""), 0);
}

#[test]
fn stepping() {
    let mut app = app(&[0x0D, 0x00, 0x1D, 0x00, 0x00]);
    assert!(app.next().is_none());
    assert_eq!(app.nano_core.cpu.registers[0], 1);
    assert_eq!(
        app.next(),
        Some(EmulatorError::DivisionByZero { op: "DIVI".to_string() })
    );
    assert!(app.nano_core.cpu.is_halted);
    assert_eq!(app.nano_core.cpu.pc, 2);
    assert!(app.next().is_none());
    assert_eq!(app.nano_core.cpu.pc, 2);
    assert_eq!(app.nano_core.cycle, 1);
}

#[test]
fn running_stops_at_a_breakpoint() {
    let mut app = app(&[0x0D, 0x00, 0x0D, 0x00, 0x0D, 0x00, 0x00]);
    app.toggle_breakpoint(4);
    app.running = true;
    assert!(app.run_full(false).is_none());
    assert_eq!(app.nano_core.cpu.pc, 0);
    assert!(app.running);
    assert!(app.run_full(true).is_none());
    assert!(app.run_full(true).is_none());
    assert_eq!(app.nano_core.cpu.pc, 4);
    assert!(app.running);
    assert!(app.run_full(true).is_none());
    assert!(!app.running);
    assert_eq!(app.nano_core.cpu.pc, 4);
    assert_eq!(app.nano_core.cpu.registers[0], 2);
}

#[test]
fn running_stops_when_the_machine_halts_or_fails() {
    let mut app = app(&[0x00]);
    app.running = true;
    assert!(app.run_full(true).is_none());
    assert!(app.nano_core.cpu.is_halted);
    assert!(app.running);
    assert!(app.run_full(true).is_none());
    assert!(!app.running);

    let mut app = app_with_failure();
    app.running = true;
    assert_eq!(
        app.run_full(true),
        Some(EmulatorError::StackUnderflow { sp: 0xFF })
    );
    assert!(!app.running);
    assert!(app.nano_core.cpu.is_halted);
}

fn app_with_failure() -> App {
    app(&[0x21])
}

#[test]
fn reset_starts_over() {
    let mut app = app(&[0x0D, 0x00, 0x00]);
    app.running = true;
    app.next();
    app.toggle_breakpoint(9);
    assert!(app.reset().is_none());
    assert!(!app.running);
    assert_eq!(app.nano_core.cpu.registers[0], 0);
    assert_eq!(app.nano_core.cpu.pc, 0);
    assert_eq!(&app.nano_core.cpu.memory[..3], &[0x0D, 0x00, 0x00]);
    assert_eq!(app.breakpoints, vec![9]);
    app.program = vec![0; 300];
    assert_eq!(
        app.reset(),
        Some(EmulatorError::ProgramTooLarge { size: 300, start: 0, max: 256 })
    );
    assert_eq!(app.nano_core.cpu.memory, [0u8; 256]);
}

#[test]
fn breakpoints_are_set_and_removed() {
    let mut app = app(&[]);
    app.toggle_breakpoint(3);
    app.toggle_breakpoint(5);
    assert_eq!(app.breakpoints, vec![3, 5]);
    app.toggle_breakpoint(3);
    assert_eq!(app.breakpoints, vec![5]);
    app.breakpoints = vec![1, 2, 1, 3, 1];
    app.toggle_breakpoint(1);
    assert_eq!(app.breakpoints, vec![2, 3]);
    assert!(holds(&app.breakpoints, 2));
    assert!(!holds(&app.breakpoints, 1));
    assert_eq!(remove_byte(&vec![4, 4], 4), Vec::<u8>::new());
}

#[test]
fn keys_that_do_not_type() {
    let mut app = app(&[0x0D, 0x00, 0x00]);
    assert!(handle_key(&mut app, Key::Char(' ')).is_none());
    assert_eq!(app.nano_core.cpu.registers[0], 1);
    handle_key(&mut app, Key::Enter);
    assert!(app.running);
    handle_key(&mut app, Key::Enter);
    assert!(!app.running);
    handle_key(&mut app, Key::Up);
    assert_eq!(app.tick_rate, 150);
    handle_key(&mut app, Key::Down);
    handle_key(&mut app, Key::Down);
    handle_key(&mut app, Key::Down);
    assert_eq!(app.tick_rate, 0);
    handle_key(&mut app, Key::Down);
    assert_eq!(app.tick_rate, 0);
    app.tick_rate = u64::MAX - 10;
    handle_key(&mut app, Key::Up);
    assert_eq!(app.tick_rate, u64::MAX);
    handle_key(&mut app, Key::Char('r'));
    assert_eq!(app.nano_core.cpu.registers[0], 0);
    handle_key(&mut app, Key::Other);
    handle_key(&mut app, Key::Esc);
    handle_key(&mut app, Key::Char('x'));
    assert!(app.none_editing());
    assert!(!app.exit);
    handle_key(&mut app, Key::Char('q'));
    assert!(app.exit);
}

#[test]
fn typing_a_breakpoint() {
    let mut app = app(&[]);
    press(&mut app, "b");
    assert_eq!(app.editing_breakpoint, Some("0x".to_string()));
    assert!(!app.none_editing());
    press(&mut app, "1f");
    assert_eq!(app.editing_breakpoint, Some("0x1f".to_string()));
    handle_key(&mut app, Key::Backspace);
    press(&mut app, "0");
    assert_eq!(app.editing_breakpoint, Some("0x10".to_string()));
    handle_key(&mut app, Key::Enter);
    assert!(!app.running);
    assert_eq!(app.editing_breakpoint, None);
    assert_eq!(app.breakpoints, vec![0x10]);

    press(&mut app, "b10");
    handle_key(&mut app, Key::Enter);
    assert!(app.breakpoints.is_empty());

    press(&mut app, "b77");
    handle_key(&mut app, Key::Esc);
    assert!(app.none_editing());
    assert!(app.breakpoints.is_empty());

    press(&mut app, "bk");
    assert!(app.none_editing());
    assert_eq!(app.breakpoints, vec![0]);
}

#[test]
fn typing_the_start_of_the_views() {
    let mut app = app(&[]);
    app.mem_view_start = 0x0A;
    press(&mut app, "m");
    assert_eq!(app.mem_view_start_editing, Some("0x0A".to_string()));
    for _ in 0..2 {
        handle_key(&mut app, Key::Backspace);
    }
    press(&mut app, "C0");
    handle_key(&mut app, Key::Enter);
    assert_eq!(app.mem_view_start, 0xC0);
    assert_eq!(app.mem_view_start_editing, None);
    press(&mut app, "mk");
    assert_eq!(app.mem_view_start, 0);

    press(&mut app, "s");
    assert_eq!(app.stack_view_start_editing, Some("0xFF".to_string()));
    for _ in 0..9 {
        handle_key(&mut app, Key::Backspace);
    }
    assert_eq!(app.stack_view_start_editing, Some("".to_string()));
    press(&mut app, "0xF0");
    handle_key(&mut app, Key::Other);
    handle_key(&mut app, Key::Enter);
    assert_eq!(app.stack_view_start, 0xF0);
    press(&mut app, "sk");
    assert_eq!(app.stack_view_start, 0xFF);
    assert!(app.none_editing());
}

#[test]
fn a_key_goes_to_every_address_that_is_typed() {
    let mut app = app(&[]);
    app.editing_breakpoint = Some("0x".to_string());
    app.mem_view_start_editing = Some("0x".to_string());
    press(&mut app, "20");
    handle_key(&mut app, Key::Enter);
    assert_eq!(app.breakpoints, vec![0x20]);
    assert_eq!(app.mem_view_start, 0x20);
    assert_eq!(app.stack_view_start, 0xFF);
}

#[test]
fn keys_on_a_text_of_their_own() {
    let mut editing = None;
    assert_eq!(handle_edit_input(Key::Char('1'), &mut editing, 7), None);
    assert_eq!(editing, None);
    let mut editing = Some("0x4".to_string());
    assert_eq!(handle_edit_input(Key::Char('2'), &mut editing, 7), None);
    assert_eq!(editing, Some("0x42".to_string()));
    assert_eq!(handle_edit_input(Key::Up, &mut editing, 7), None);
    assert_eq!(editing, Some("0x42".to_string()));
    assert_eq!(handle_edit_input(Key::Enter, &mut editing, 7), Some(0x42));
    assert_eq!(editing, None);
    let mut editing = Some("zz".to_string());
    assert_eq!(handle_edit_input(Key::Char('k'), &mut editing, 7), Some(7));
    assert_eq!(editing, None);
    let mut editing = Some("zz".to_string());
    assert_eq!(handle_edit_input(Key::Enter, &mut editing, 7), Some(0));
}

#[test]
fn the_parts_of_a_line_of_the_trace() {
    let parts = |l: &str| {
        let (a, b, c) = get_instruction_parts(l);
        (a, b, c)
    };
    assert_eq!(
        parts("LDI   R0 0x0A| (010) "),
        ("LDI".to_string(), "   R0 0x0A".to_string(), " (010) ".to_string())
    );
    assert_eq!(
        parts("OR   R0 R1| 010 (0x0A) | 012 (0x0C) = 014 (0x0E)"),
        (
            "OR".to_string(),
            "   R0 R1".to_string(),
            " 010 (0x0A)  012 (0x0C) = 014 (0x0E)".to_string()
        )
    );
    assert_eq!(
        parts("HLT "),
        ("HLT".to_string(), " ".to_string(), "".to_string())
    );
    assert_eq!(parts(""), ("".to_string(), "".to_string(), "".to_string()));
    assert_eq!(
        parts("RET  | 0x02 Mem(0x00)"),
        ("RET".to_string(), "  ".to_string(), " 0x02 Mem(0x00)".to_string())
    );
    assert_eq!(
        parts("  NOP|x"),
        ("NOP|x".to_string(), "  NOP".to_string(), "x".to_string())
    );
}
