use vstd::prelude::*;

use crate::types::point::Point;

verus! {

/// What a screen clear erases.
#[derive(Clone, Copy, Debug, PartialEq, Eq, Structural)]
pub enum ClearType {
    All,
    CurrentLine,
}

/// One queued terminal operation.
#[derive(Clone, Debug, PartialEq, Eq)]
pub enum Command {
    EnableRawMode,
    DisableRawMode,
    HideCursor,
    ShowCursor,
    Clear(ClearType),
    MoveTo(Point),
    Print(String),
    Flush,
}

/// The mathematical form of a [`Command`]: printed text as a sequence of
/// characters.
pub enum Op {
    EnableRawMode,
    DisableRawMode,
    HideCursor,
    ShowCursor,
    Clear(ClearType),
    MoveTo(Point),
    Print(Seq<char>),
    Flush,
}

impl View for Command {
    type V = Op;

    open spec fn view(&self) -> Op {
        match self {
            Command::EnableRawMode => Op::EnableRawMode,
            Command::DisableRawMode => Op::DisableRawMode,
            Command::HideCursor => Op::HideCursor,
            Command::ShowCursor => Op::ShowCursor,
            Command::Clear(c) => Op::Clear(*c),
            Command::MoveTo(p) => Op::MoveTo(*p),
            Command::Print(s) => Op::Print(s@),
            Command::Flush => Op::Flush,
        }
    }
}

/// The terminal driver's output buffer. Every operation is queued here; a
/// driver performs them in order, and nothing is guaranteed visible before a
/// `Flush`.
pub struct Terminal {
    commands: Vec<Command>,
}

impl View for Terminal {
    type V = Seq<Op>;

    /// The operations queued so far, oldest first.
    closed spec fn view(&self) -> Seq<Op> {
        self.commands@.map_values(|c: Command| c@)
    }
}

impl Terminal {
    pub fn new() -> (r: Self)
        ensures
            r@ == Seq::<Op>::empty(),
    {
        let r = Terminal { commands: Vec::new() };
        assert(r@ =~= Seq::<Op>::empty());
        r
    }

    fn push(&mut self, c: Command)
        ensures
            final(self)@ == old(self)@.push(c@),
    {
        self.commands.push(c);
        assert(self@ =~= old(self)@.push(c@));
    }

    /// Hands the queued operations to the caller and empties the queue.
    pub fn take_commands(&mut self) -> (r: Vec<Command>)
        ensures
            r@.map_values(|c: Command| c@) == old(self)@,
            final(self)@ == Seq::<Op>::empty(),
    {
        let mut r: Vec<Command> = Vec::new();
        std::mem::swap(&mut r, &mut self.commands);
        assert(self@ =~= Seq::<Op>::empty());
        r
    }

    /// Flushes whatever is pending, then switches the terminal to raw input.
    pub fn init(&mut self)
        ensures
            final(self)@ == old(self)@ + seq![Op::Flush, Op::EnableRawMode],
    {
        self.execute();
        self.push(Command::EnableRawMode);
        assert(final(self)@ =~= old(self)@ + seq![Op::Flush, Op::EnableRawMode]);
    }

    /// Leaves raw input, clears the screen, homes the cursor and flushes.
    pub fn exit(&mut self)
        ensures
            final(self)@ == old(self)@ + seq![
                Op::DisableRawMode,
                Op::Clear(ClearType::All),
                Op::MoveTo(Point { x: 0, y: 0 }),
                Op::Flush,
            ],
    {
        self.push(Command::DisableRawMode);
        self.clear_screen(ClearType::All);
        self.move_cursor_to(Point { x: 0, y: 0 });
        self.execute();
        assert(final(self)@ =~= old(self)@ + seq![
            Op::DisableRawMode,
            Op::Clear(ClearType::All),
            Op::MoveTo(Point { x: 0, y: 0 }),
            Op::Flush,
        ]);
    }

    pub fn hide_cursor(&mut self)
        ensures
            final(self)@ == old(self)@.push(Op::HideCursor),
    {
        self.push(Command::HideCursor);
    }

    pub fn show_cursor(&mut self)
        ensures
            final(self)@ == old(self)@.push(Op::ShowCursor),
    {
        self.push(Command::ShowCursor);
    }

    /// Erases the screen or the current line; the cursor does not move.
    pub fn clear_screen(&mut self, clear_target: ClearType)
        ensures
            final(self)@ == old(self)@.push(Op::Clear(clear_target)),
    {
        self.push(Command::Clear(clear_target));
    }

    /// Moves the cursor to `point`, then writes `text` there. The text is
    /// neither wrapped nor clipped.
    pub fn print(&mut self, point: Point, text: &str)
        ensures
            final(self)@ == old(self)@ + seq![Op::MoveTo(point), Op::Print(text@)],
    {
        self.push(Command::MoveTo(point));
        self.push(Command::Print(String::from_str(text)));
        assert(final(self)@ =~= old(self)@ + seq![Op::MoveTo(point), Op::Print(text@)]);
    }

    pub fn move_cursor_to(&mut self, point: Point)
        ensures
            final(self)@ == old(self)@.push(Op::MoveTo(point)),
    {
        self.push(Command::MoveTo(point));
    }

    /// Makes everything queued so far visible.
    pub fn execute(&mut self)
        ensures
            final(self)@ == old(self)@.push(Op::Flush),
    {
        self.push(Command::Flush);
    }
}

} // verus!
