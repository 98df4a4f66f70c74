use termedit::editor::{BuildInfo, Editor};
use termedit::event::{EventError, InputEvent, KeyCode, KeyEvent, KeyEventKind};
use termedit::terminal::{ClearType, Command, Terminal};
use termedit::types::point::Point;
use termedit::types::size::Size;

fn press(code: KeyCode) -> InputEvent {
    InputEvent::Key(KeyEvent { code, kind: KeyEventKind::Press })
}

fn info() -> BuildInfo {
    BuildInfo::new("ann", "ed", "1.0")
}

fn move_to(x: usize, y: usize) -> Command {
    Command::MoveTo(Point::new(x, y))
}

fn print(s: &str) -> Command {
    Command::Print(s.to_string())
}

fn pos(editor: &Editor) -> (usize, usize) {
    let p = editor.cursor_pos();
    (p.x, p.y)
}

fn press_all(editor: &mut Editor, term: &mut Terminal, size: Size, code: KeyCode, n: usize) {
    for _ in 0..n {
        editor.step(term, press(code), size).unwrap();
    }
}

#[test]
fn default_editor_state() {
    let editor = Editor::default();
    assert!(!editor.should_quit());
    assert!(editor.should_clear_screen());
    assert_eq!(pos(&editor), (0, 0));
}

#[test]
fn point_and_size_constructors() {
    let p = Point::new(3, 4);
    assert_eq!((p.x, p.y), (3, 4));
    let d = Point::default();
    assert_eq!((d.x, d.y), (0, 0));
    let s = Size::new(80, 24);
    assert_eq!((s.width, s.height), (80, 24));
}

#[test]
fn navigation_example_80_by_24() {
    let size = Size::new(80, 24);
    let mut term = Terminal::new();
    let mut editor = Editor::default();
    press_all(&mut editor, &mut term, size, KeyCode::Right, 5);
    assert_eq!(pos(&editor), (5, 0));
    editor.step(&mut term, press(KeyCode::PageDown), size).unwrap();
    assert_eq!(pos(&editor), (5, 23));
    editor.step(&mut term, press(KeyCode::Home), size).unwrap();
    assert_eq!(pos(&editor), (0, 23));
    editor.step(&mut term, press(KeyCode::Up), size).unwrap();
    assert_eq!(pos(&editor), (0, 22));
}

#[test]
fn movement_stays_in_bounds_for_key_sequence() {
    let size = Size::new(3, 2);
    let mut term = Terminal::new();
    let mut editor = Editor::default();
    let keys = [
        KeyCode::Right, KeyCode::Right, KeyCode::Right, KeyCode::Right, KeyCode::Down,
        KeyCode::Down, KeyCode::Down, KeyCode::End, KeyCode::PageDown, KeyCode::Left,
        KeyCode::Up, KeyCode::Up, KeyCode::Home, KeyCode::PageUp,
    ];
    for k in keys {
        editor.step(&mut term, press(k), size).unwrap();
        let (x, y) = pos(&editor);
        assert!(x < 3 && y < 2);
    }
}

#[test]
fn left_and_up_converge_to_zero() {
    let size = Size::new(10, 10);
    let mut term = Terminal::new();
    let mut editor = Editor::default();
    press_all(&mut editor, &mut term, size, KeyCode::Right, 4);
    press_all(&mut editor, &mut term, size, KeyCode::Down, 3);
    assert_eq!(pos(&editor), (4, 3));
    press_all(&mut editor, &mut term, size, KeyCode::Left, 4);
    assert_eq!(pos(&editor), (0, 3));
    press_all(&mut editor, &mut term, size, KeyCode::Left, 2);
    assert_eq!(pos(&editor), (0, 3));
    press_all(&mut editor, &mut term, size, KeyCode::Up, 7);
    assert_eq!(pos(&editor), (0, 0));
}

#[test]
fn right_and_down_converge_to_far_edge() {
    let size = Size::new(4, 3);
    let mut term = Terminal::new();
    let mut editor = Editor::default();
    press_all(&mut editor, &mut term, size, KeyCode::Right, 3);
    assert_eq!(pos(&editor), (3, 0));
    press_all(&mut editor, &mut term, size, KeyCode::Right, 5);
    assert_eq!(pos(&editor), (3, 0));
    press_all(&mut editor, &mut term, size, KeyCode::Down, 9);
    assert_eq!(pos(&editor), (3, 2));
}

#[test]
fn jump_keys_are_idempotent() {
    let size = Size::new(7, 5);
    let mut term = Terminal::new();
    let mut editor = Editor::default();
    press_all(&mut editor, &mut term, size, KeyCode::Right, 2);
    press_all(&mut editor, &mut term, size, KeyCode::Down, 2);
    let expected = [
        (KeyCode::End, (6, 2)),
        (KeyCode::PageDown, (6, 4)),
        (KeyCode::Home, (0, 4)),
        (KeyCode::PageUp, (0, 0)),
    ];
    for (k, want) in expected {
        editor.step(&mut term, press(k), size).unwrap();
        assert_eq!(pos(&editor), want);
        editor.step(&mut term, press(k), size).unwrap();
        assert_eq!(pos(&editor), want);
    }
}

#[test]
fn zero_sized_screen_keeps_cursor_at_origin() {
    let size = Size::new(0, 0);
    let mut term = Terminal::new();
    let mut editor = Editor::default();
    for k in [KeyCode::Right, KeyCode::Down, KeyCode::End, KeyCode::PageDown] {
        editor.step(&mut term, press(k), size).unwrap();
        assert_eq!(pos(&editor), (0, 0));
    }
}

#[test]
fn movement_queues_cursor_move_and_flush() {
    let size = Size::new(10, 10);
    let mut term = Terminal::new();
    let mut editor = Editor::default();
    editor.evaluate_event(&mut term, &KeyEvent { code: KeyCode::Down, kind: KeyEventKind::Press }, size);
    assert_eq!(term.take_commands(), vec![move_to(0, 1), Command::Flush]);
    assert!(term.take_commands().is_empty());
}

#[test]
fn clear_flag_lifecycle() {
    let size = Size::new(10, 10);
    let mut term = Terminal::new();
    let mut editor = Editor::default();
    assert!(editor.should_clear_screen());
    editor.clear_screen(&mut term);
    assert!(!editor.should_clear_screen());
    assert_eq!(
        term.take_commands(),
        vec![Command::HideCursor, Command::Clear(ClearType::All), Command::ShowCursor, Command::Flush]
    );
    for k in [KeyCode::Esc, KeyCode::Up, KeyCode::Char('a'), KeyCode::Other] {
        let mut e = Editor::default();
        e.clear_screen(&mut term);
        e.evaluate_event(&mut term, &KeyEvent { code: k, kind: KeyEventKind::Press }, size);
        assert!(!e.should_clear_screen());
    }
    editor.evaluate_event(&mut term, &KeyEvent { code: KeyCode::Char('`'), kind: KeyEventKind::Press }, size);
    assert!(editor.should_clear_screen());
    term.take_commands();
    editor.clear_screen(&mut term);
    assert!(!editor.should_clear_screen());
    assert_eq!(
        term.take_commands(),
        vec![Command::HideCursor, Command::Clear(ClearType::All), Command::ShowCursor, Command::Flush]
    );
    editor.clear_screen(&mut term);
    assert_eq!(term.take_commands(), vec![Command::HideCursor, Command::ShowCursor, Command::Flush]);
}

#[test]
fn escape_sets_quit_flag() {
    let size = Size::new(10, 10);
    let mut term = Terminal::new();
    let mut editor = Editor::default();
    editor.step(&mut term, press(KeyCode::Char('`')), size).unwrap();
    assert!(!editor.should_quit());
    editor.step(&mut term, press(KeyCode::Esc), size).unwrap();
    assert!(editor.should_quit());
    editor.step(&mut term, press(KeyCode::Left), size).unwrap();
    assert!(editor.should_quit());
}

#[test]
fn release_and_repeat_events_do_nothing() {
    let size = Size::new(10, 10);
    let mut term = Terminal::new();
    let mut editor = Editor::default();
    for kind in [KeyEventKind::Release, KeyEventKind::Repeat] {
        for code in [KeyCode::Esc, KeyCode::Right, KeyCode::Char('`')] {
            editor.step(&mut term, InputEvent::Key(KeyEvent { code, kind }), size).unwrap();
        }
    }
    assert!(!editor.should_quit());
    assert_eq!(pos(&editor), (0, 0));
}

#[test]
fn non_key_event_is_an_error() {
    let size = Size::new(10, 10);
    let mut term = Terminal::new();
    let mut editor = Editor::default();
    let others = [
        InputEvent::Resize(Size::new(20, 30)),
        InputEvent::Mouse,
        InputEvent::FocusGained,
        InputEvent::FocusLost,
        InputEvent::Paste,
    ];
    for ev in others {
        assert_eq!(editor.parsing_keyevent(ev), Err(EventError::InvalidKeyEvent));
        assert_eq!(editor.step(&mut term, ev, size), Err(EventError::InvalidKeyEvent));
    }
    assert!(term.take_commands().is_empty());
    assert!(editor.should_clear_screen());
    let k = KeyEvent { code: KeyCode::Up, kind: KeyEventKind::Press };
    assert_eq!(editor.parsing_keyevent(InputEvent::Key(k)), Ok(k));
    assert_eq!(EventError::InvalidKeyEvent.message(), "Invalid key event");
}

#[test]
fn welcome_message_text() {
    assert_eq!(info().welcome_message(), "ann's ed -- version 1.0");
}

#[test]
fn welcome_centered() {
    let mut term = Terminal::new();
    let mut editor = Editor::default();
    // 23 characters on a 31-wide screen: (31 - 23) / 2 = 4
    editor.print_welcome(&mut term, Size::new(31, 9), &info());
    assert_eq!(
        term.take_commands(),
        vec![move_to(0, 4), print("    "), move_to(4, 4), print("ann's ed -- version 1.0"), Command::Flush]
    );
}

#[test]
fn welcome_wider_than_terminal_has_no_padding() {
    let mut term = Terminal::new();
    let mut editor = Editor::default();
    let wide = BuildInfo::new("abcdefg", "klm", "0.0.1");
    let msg = wide.welcome_message();
    assert_eq!(msg.chars().count(), 30);
    editor.print_welcome(&mut term, Size::new(10, 5), &wide);
    assert_eq!(
        term.take_commands(),
        vec![move_to(0, 2), print(""), move_to(0, 2), Command::Print(msg), Command::Flush]
    );
}

#[test]
fn draw_rows_output() {
    let mut term = Terminal::new();
    Editor::draw_rows(&mut term, 2);
    assert_eq!(
        term.take_commands(),
        vec![
            Command::Clear(ClearType::CurrentLine),
            move_to(0, 0),
            print("~"),
            move_to(0, 0),
            print("\r\n"),
            Command::Clear(ClearType::CurrentLine),
            move_to(0, 1),
            print("~"),
        ]
    );
}

#[test]
fn refresh_screen_output() {
    let mut term = Terminal::new();
    let mut editor = Editor::default();
    editor.step(&mut term, press(KeyCode::Right), Size::new(30, 1)).unwrap();
    term.take_commands();
    editor.refresh_screen(&mut term, Size::new(30, 1), &info());
    assert_eq!(pos(&editor), (0, 0));
    assert_eq!(
        term.take_commands(),
        vec![
            Command::HideCursor,
            Command::Clear(ClearType::CurrentLine),
            move_to(0, 0),
            print("~"),
            move_to(0, 0),
            print("   "),
            move_to(3, 0),
            print("ann's ed -- version 1.0"),
            Command::Flush,
            move_to(0, 0),
            Command::ShowCursor,
            Command::Flush,
        ]
    );
}

#[test]
fn start_clears_then_redraws() {
    let mut term = Terminal::new();
    let mut editor = Editor::default();
    editor.start(&mut term, Size::new(23, 1), &info());
    assert!(!editor.should_clear_screen());
    let cmds = term.take_commands();
    assert_eq!(cmds[..4], [Command::HideCursor, Command::Clear(ClearType::All), Command::ShowCursor, Command::Flush]);
    assert_eq!(cmds.len(), 4 + 1 + 3 + 5 + 3);
}

#[test]
fn init_and_exit_sequences() {
    let mut term = Terminal::new();
    let mut editor = Editor::default();
    editor.init(&mut term);
    assert_eq!(term.take_commands(), vec![Command::Flush, Command::EnableRawMode]);
    Editor::exit(&mut term);
    assert_eq!(
        term.take_commands(),
        vec![Command::DisableRawMode, Command::Clear(ClearType::All), move_to(0, 0), Command::Flush]
    );
}

#[test]
fn terminal_print_queues_move_then_text() {
    let mut term = Terminal::new();
    term.print(Point::new(2, 3), "hi");
    term.hide_cursor();
    term.show_cursor();
    term.execute();
    assert_eq!(
        term.take_commands(),
        vec![move_to(2, 3), print("hi"), Command::HideCursor, Command::ShowCursor, Command::Flush]
    );
}
