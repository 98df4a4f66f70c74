use vstd::prelude::*;

use crate::event::{classify, is_movement_key, is_press, EventError, InputEvent, KeyCode, KeyEvent, KeyEventKind};
use crate::terminal::{ClearType, Op, Terminal};
use crate::types::point::Point;
use crate::types::size::Size;

verus! {

/// The editor session's state as plain values.
#[derive(Clone, Copy, Debug, PartialEq, Eq, Structural)]
pub struct EditorState {
    pub should_quit: bool,
    pub should_clear_screen: bool,
    pub cursor_pos: Point,
}

/// The index of the last of `n` cells, or 0 when there are none.
pub open spec fn last_index(n: usize) -> usize {
    if n == 0 {
        0
    } else {
        (n - 1) as usize
    }
}

/// One step towards 0, staying at 0.
pub open spec fn step_back(v: usize) -> usize {
    if v == 0 {
        0
    } else {
        (v - 1) as usize
    }
}

/// One step forward, but no further than the last of `n` cells.
pub open spec fn step_forward(v: usize, n: usize) -> usize {
    if v + 1 <= last_index(n) {
        (v + 1) as usize
    } else {
        last_index(n)
    }
}

/// Where the cursor goes from `p` when `code` is pressed on a screen of `size`.
pub open spec fn moved(p: Point, code: KeyCode, size: Size) -> Point {
    match code {
        KeyCode::Up => Point { x: p.x, y: step_back(p.y) },
        KeyCode::Down => Point { x: p.x, y: step_forward(p.y, size.height) },
        KeyCode::Left => Point { x: step_back(p.x), y: p.y },
        KeyCode::Right => Point { x: step_forward(p.x, size.width), y: p.y },
        KeyCode::Home => Point { x: 0, y: p.y },
        KeyCode::End => Point { x: last_index(size.width), y: p.y },
        KeyCode::PageUp => Point { x: p.x, y: 0 },
        KeyCode::PageDown => Point { x: p.x, y: last_index(size.height) },
        _ => p,
    }
}

/// The session state after `event` is evaluated.
pub open spec fn evaluated(s: EditorState, event: KeyEvent, size: Size) -> EditorState {
    if !is_press(event) {
        s
    } else {
        match event.code {
            KeyCode::Esc => EditorState { should_quit: true, ..s },
            KeyCode::Char(c) => if c == '`' {
                EditorState { should_clear_screen: true, ..s }
            } else {
                s
            },
            _ => if is_movement_key(event.code) {
                EditorState { cursor_pos: moved(s.cursor_pos, event.code, size), ..s }
            } else {
                s
            },
        }
    }
}

/// The terminal operations queued while `event` is evaluated.
pub open spec fn evaluate_ops(s: EditorState, event: KeyEvent, size: Size) -> Seq<Op> {
    if is_press(event) && is_movement_key(event.code) {
        seq![Op::MoveTo(moved(s.cursor_pos, event.code, size)), Op::Flush]
    } else {
        seq![Op::Flush]
    }
}

/// The operations of one queued full or skipped clear.
pub open spec fn clear_ops(should_clear: bool) -> Seq<Op> {
    if should_clear {
        seq![Op::HideCursor, Op::Clear(ClearType::All), Op::ShowCursor, Op::Flush]
    } else {
        seq![Op::HideCursor, Op::ShowCursor, Op::Flush]
    }
}

/// The operations that draw filler row `row` of a screen `height` rows high:
/// clear the line, a `~` at its start, and a line break on all but the last.
pub open spec fn row_ops(row: usize, height: usize) -> Seq<Op> {
    seq![Op::Clear(ClearType::CurrentLine), Op::MoveTo(Point { x: 0, y: row }), Op::Print(seq!['~'])]
        + if row + 1 < height {
        seq![Op::MoveTo(Point { x: 0, y: row }), Op::Print(seq!['\r', '\n'])]
    } else {
        Seq::<Op>::empty()
    }
}

/// The operations that draw the first `n` filler rows.
pub open spec fn rows_ops(n: nat, height: usize) -> Seq<Op>
    decreases n,
{
    if n == 0 {
        Seq::<Op>::empty()
    } else {
        rows_ops((n - 1) as nat, height) + row_ops((n - 1) as usize, height)
    }
}

/// The left padding that centres `len` cells on a screen `width` cells wide;
/// none when the text is as wide as the screen or wider.
pub open spec fn welcome_padding(width: usize, len: nat) -> usize {
    if len >= width {
        0
    } else {
        ((width - len) / 2) as usize
    }
}

/// `n` spaces.
pub open spec fn spaces(n: nat) -> Seq<char> {
    Seq::new(n, |i: int| ' ')
}

/// The operations that print `message` centred on a screen of `size`.
pub open spec fn welcome_ops(message: Seq<char>, size: Size) -> Seq<Op> {
    let pad = welcome_padding(size.width, message.len());
    let row = (size.height / 2) as usize;
    seq![
        Op::MoveTo(Point { x: 0, y: row }),
        Op::Print(spaces(pad as nat)),
        Op::MoveTo(Point { x: pad, y: row }),
        Op::Print(message),
        Op::Flush,
    ]
}

/// The operations of a full redraw: filler rows, the banner, the cursor home.
pub open spec fn refresh_ops(message: Seq<char>, size: Size) -> Seq<Op> {
    seq![Op::HideCursor] + rows_ops(size.height as nat, size.height) + welcome_ops(message, size)
        + seq![Op::MoveTo(Point { x: 0, y: 0 }), Op::ShowCursor, Op::Flush]
}

/// The banner text: `<author>'s <name> -- version <version>`.
pub open spec fn welcome_text(author: Seq<char>, name: Seq<char>, version: Seq<char>) -> Seq<char> {
    author + seq!['\'', 's', ' '] + name + seq![' ', '-', '-', ' ', 'v', 'e', 'r', 's', 'i', 'o', 'n', ' ']
        + version
}

/// Build metadata shown in the welcome banner.
#[derive(Clone, Debug, PartialEq, Eq)]
pub struct BuildInfo {
    pub author: String,
    pub name: String,
    pub version: String,
}

impl BuildInfo {
    pub fn new(author: &str, name: &str, version: &str) -> (r: Self)
        ensures
            r.author@ == author@,
            r.name@ == name@,
            r.version@ == version@,
    {
        BuildInfo {
            author: String::from_str(author),
            name: String::from_str(name),
            version: String::from_str(version),
        }
    }

    pub fn welcome_message(&self) -> (r: String)
        ensures
            r@ == welcome_text(self.author@, self.name@, self.version@),
    {
        proof {
            reveal_strlit("'s ");
            reveal_strlit(" -- version ");
        }
        let r = self.author.clone().concat("'s ").concat(self.name.as_str()).concat(
            " -- version ",
        ).concat(self.version.as_str());
        assert(r@ =~= welcome_text(self.author@, self.name@, self.version@));
        r
    }
}

/// The session state after one step on key event `event`: evaluation, then
/// the clear check that consumes a pending clear request.
pub open spec fn after_step(s: EditorState, event: KeyEvent, size: Size) -> EditorState {
    EditorState { should_clear_screen: false, ..evaluated(s, event, size) }
}

/// The terminal operations queued by one step on key event `event`.
pub open spec fn step_ops(s: EditorState, event: KeyEvent, size: Size) -> Seq<Op> {
    evaluate_ops(s, event, size) + clear_ops(evaluated(s, event, size).should_clear_screen)
}

/// The editor session: cursor position and the quit and clear flags.
pub struct Editor {
    should_quit: bool,
    should_clear_screen: bool,
    cursor_pos: Point,
}

impl View for Editor {
    type V = EditorState;

    closed spec fn view(&self) -> EditorState {
        EditorState {
            should_quit: self.should_quit,
            should_clear_screen: self.should_clear_screen,
            cursor_pos: self.cursor_pos,
        }
    }
}

impl Editor {
    /// A fresh session: not quitting, a full clear pending, cursor at the origin.
    pub fn default() -> (r: Self)
        ensures
            r@ == (EditorState {
                should_quit: false,
                should_clear_screen: true,
                cursor_pos: Point { x: 0, y: 0 },
            }),
    {
        Editor { should_quit: false, should_clear_screen: true, cursor_pos: Point::new(0, 0) }
    }

    pub fn should_quit(&self) -> (r: bool)
        ensures
            r == self@.should_quit,
    {
        self.should_quit
    }

    pub fn should_clear_screen(&self) -> (r: bool)
        ensures
            r == self@.should_clear_screen,
    {
        self.should_clear_screen
    }

    pub fn cursor_pos(&self) -> (r: Point)
        ensures
            r == self@.cursor_pos,
    {
        self.cursor_pos
    }

    /// Acquires the terminal: flushes pending output and enters raw mode.
    pub fn init(&mut self, term: &mut Terminal)
        ensures
            final(self)@ == old(self)@,
            final(term)@ == old(term)@ + seq![Op::Flush, Op::EnableRawMode],
    {
        term.init()
    }

    /// Releases the terminal: leaves raw mode, clears the screen and homes
    /// the cursor.
    pub fn exit(term: &mut Terminal)
        ensures
            final(term)@ == old(term)@ + seq![
                Op::DisableRawMode,
                Op::Clear(ClearType::All),
                Op::MoveTo(Point { x: 0, y: 0 }),
                Op::Flush,
            ],
    {
        term.exit()
    }

    /// The start of the read-evaluate loop: the first clear check, then a
    /// full redraw.
    pub fn start(&mut self, term: &mut Terminal, size: Size, info: &BuildInfo)
        ensures
            final(self)@ == (EditorState {
                should_clear_screen: false,
                cursor_pos: Point { x: 0, y: 0 },
                ..old(self)@
            }),
            final(term)@ == old(term)@ + clear_ops(old(self)@.should_clear_screen) + refresh_ops(
                welcome_text(info.author@, info.name@, info.version@),
                size,
            ),
    {
        self.clear_screen(term);
        self.refresh_screen(term, size, info);
    }

    /// One turn of the read-evaluate loop on an event that was read while
    /// the screen had `size`: a non-key event is an error and changes
    /// nothing; a key event is evaluated, then the clear check runs. The loop
    /// ends once `should_quit` holds afterwards.
    pub fn step(&mut self, term: &mut Terminal, event: InputEvent, size: Size) -> (r: Result<
        (),
        EventError,
    >)
        ensures
            match classify(event) {
                Ok(k) => {
                    &&& r is Ok
                    &&& final(self)@ == after_step(old(self)@, k, size)
                    &&& final(term)@ == old(term)@ + step_ops(old(self)@, k, size)
                },
                Err(e) => {
                    &&& r == Err::<(), EventError>(e)
                    &&& final(self)@ == old(self)@
                    &&& final(term)@ == old(term)@
                },
            },
    {
        let key_event = match self.parsing_keyevent(event) {
            Ok(k) => k,
            Err(e) => {
                return Err(e);
            },
        };
        self.evaluate_event(term, &key_event, size);
        self.clear_screen(term);
        assert(term@ =~= old(term)@ + step_ops(old(self)@, key_event, size));
        Ok(())
    }

    /// Performs a pending full clear, consuming the request; the cursor is
    /// hidden meanwhile and the output flushed either way.
    pub fn clear_screen(&mut self, term: &mut Terminal)
        ensures
            final(self)@ == (EditorState { should_clear_screen: false, ..old(self)@ }),
            final(term)@ == old(term)@ + clear_ops(old(self)@.should_clear_screen),
    {
        term.hide_cursor();
        if self.should_clear_screen {
            self.should_clear_screen = false;
            term.clear_screen(ClearType::All);
        }
        term.show_cursor();
        term.execute();
        assert(term@ =~= old(term)@ + clear_ops(old(self)@.should_clear_screen));
    }

    /// Draws a `~` at the start of each of the `height` rows.
    pub fn draw_rows(term: &mut Terminal, height: usize)
        ensures
            final(term)@ == old(term)@ + rows_ops(height as nat, height),
    {
        let mut current_row: usize = 0;
        assert(term@ =~= old(term)@ + rows_ops(0, height));
        while current_row < height
            invariant
                current_row <= height,
                term@ == old(term)@ + rows_ops(current_row as nat, height),
            decreases height - current_row,
        {
            proof {
                reveal_strlit("~");
                reveal_strlit("\r\n");
            }
            let ghost before = term@;
            term.clear_screen(ClearType::CurrentLine);
            term.print(Point::new(0, current_row), "~");
            if current_row + 1 < height {
                term.print(Point::new(0, current_row), "\r\n");
            }
            assert("~"@ =~= seq!['~']);
            assert("\r\n"@ =~= seq!['\r', '\n']);
            assert(term@ =~= before + row_ops(current_row, height));
            assert(rows_ops((current_row + 1) as nat, height) == rows_ops(current_row as nat, height)
                + row_ops(current_row, height));
            current_row = current_row + 1;
        }
    }

    /// Prints the banner centred horizontally, on the middle row.
    pub fn print_welcome(&mut self, term: &mut Terminal, size: Size, info: &BuildInfo)
        ensures
            final(self)@ == old(self)@,
            final(term)@ == old(term)@ + welcome_ops(
                welcome_text(info.author@, info.name@, info.version@),
                size,
            ),
    {
        let message = info.welcome_message();
        let width: usize = size.width;
        let height: usize = size.height;
        let len: usize = message.as_str().unicode_len();
        let x_padding: usize = width.saturating_sub(len) / 2;
        let y_padding: usize = height / 2;
        let mut padding = String::new();
        let mut i: usize = 0;
        while i < x_padding
            invariant
                i <= x_padding,
                padding@ == spaces(i as nat),
            decreases x_padding - i,
        {
            proof {
                reveal_strlit(" ");
            }
            padding.append(" ");
            assert(padding@ =~= spaces((i + 1) as nat));
            i = i + 1;
        }
        assert(padding@ =~= spaces(x_padding as nat));
        term.print(Point { x: 0, y: y_padding }, padding.as_str());
        term.print(Point { x: x_padding, y: y_padding }, message.as_str());
        term.execute();
        assert(term@ =~= old(term)@ + welcome_ops(message@, size));
    }

    /// Redraws the placeholder screen: filler rows, the banner, and the cursor
    /// back at the origin.
    pub fn refresh_screen(&mut self, term: &mut Terminal, size: Size, info: &BuildInfo)
        ensures
            final(self)@ == (EditorState { cursor_pos: Point { x: 0, y: 0 }, ..old(self)@ }),
            final(term)@ == old(term)@ + refresh_ops(
                welcome_text(info.author@, info.name@, info.version@),
                size,
            ),
    {
        term.hide_cursor();
        Self::draw_rows(term, size.height);
        self.print_welcome(term, size, info);
        self.move_cursor_to(term, Point { x: 0, y: 0 });
        term.show_cursor();
        term.execute();
        assert(term@ =~= old(term)@ + refresh_ops(
            welcome_text(info.author@, info.name@, info.version@),
            size,
        ));
    }

    /// Records `point` as the cursor position and queues the cursor move.
    pub fn move_cursor_to(&mut self, term: &mut Terminal, point: Point)
        ensures
            final(self)@ == (EditorState { cursor_pos: point, ..old(self)@ }),
            final(term)@ == old(term)@.push(Op::MoveTo(point)),
    {
        self.cursor_pos = point;
        term.move_cursor_to(point);
    }

    /// Moves the cursor as `code` asks on a screen of `size`, clamped to the
    /// screen, and queues the move.
    pub fn move_cursor_event(&mut self, term: &mut Terminal, code: KeyCode, size: Size)
        ensures
            final(self)@ == (EditorState {
                cursor_pos: moved(old(self)@.cursor_pos, code, size),
                ..old(self)@
            }),
            final(term)@ == old(term)@.push(Op::MoveTo(moved(old(self)@.cursor_pos, code, size))),
    {
        let mut x: usize = self.cursor_pos.x;
        let mut y: usize = self.cursor_pos.y;
        let height: usize = size.height;
        let width: usize = size.width;
        match code {
            KeyCode::Up => {
                y = y.saturating_sub(1);
            },
            KeyCode::Down => {
                y = if height.saturating_sub(1) < y.saturating_add(1) {
                    height.saturating_sub(1)
                } else {
                    y.saturating_add(1)
                };
            },
            KeyCode::Left => {
                x = x.saturating_sub(1);
            },
            KeyCode::Right => {
                x = if width.saturating_sub(1) < x.saturating_add(1) {
                    width.saturating_sub(1)
                } else {
                    x.saturating_add(1)
                };
            },
            KeyCode::PageUp => {
                y = 0;
            },
            KeyCode::PageDown => {
                y = height.saturating_sub(1);
            },
            KeyCode::Home => {
                x = 0;
            },
            KeyCode::End => {
                x = width.saturating_sub(1);
            },
            _ => {},
        }
        let p = Point { x, y };
        self.move_cursor_to(term, p);
    }

    /// Acts on a key event: only a press does anything. Escape requests the
    /// end of the session, a backtick requests a full clear, the movement keys
    /// move the cursor. The output is flushed in every case.
    pub fn evaluate_event(&mut self, term: &mut Terminal, event: &KeyEvent, size: Size)
        ensures
            final(self)@ == evaluated(old(self)@, *event, size),
            final(term)@ == old(term)@ + evaluate_ops(old(self)@, *event, size),
    {
        if event.kind == KeyEventKind::Press {
            match event.code {
                KeyCode::Esc => {
                    self.should_quit = true;
                },
                KeyCode::Char(c) => {
                    if c == '`' {
                        self.should_clear_screen = true;
                    }
                },
                KeyCode::Up | KeyCode::Down | KeyCode::Left | KeyCode::Right | KeyCode::PageDown
                | KeyCode::PageUp | KeyCode::End | KeyCode::Home => {
                    self.move_cursor_event(term, event.code, size);
                },
                _ => {},
            }
        }
        term.execute();
        assert(term@ =~= old(term)@ + evaluate_ops(old(self)@, *event, size));
    }

    /// Accepts keyboard events only; any other event is an error.
    pub fn parsing_keyevent(&mut self, event: InputEvent) -> (r: Result<KeyEvent, EventError>)
        ensures
            r == classify(event),
            final(self)@ == old(self)@,
    {
        match event {
            InputEvent::Key(key_event) => Ok(key_event),
            _ => Err(EventError::InvalidKeyEvent),
        }
    }
}

} // verus!
