use vstd::prelude::*;

use crate::editor::{after_step, evaluated, last_index, moved, EditorState};
use crate::event::{is_press, KeyCode, KeyEvent};
use crate::types::point::Point;
use crate::types::size::Size;

verus! {

/// `p` lies on a screen of `size`.
pub open spec fn in_bounds(p: Point, size: Size) -> bool {
    p.x < size.width && p.y < size.height
}

/// Where the cursor goes from `p` when the keys of `keys` are pressed in order.
pub open spec fn moved_all(p: Point, keys: Seq<KeyCode>, size: Size) -> Point
    decreases keys.len(),
{
    if keys.len() == 0 {
        p
    } else {
        moved_all(moved(p, keys[0], size), keys.drop_first(), size)
    }
}

/// Where the cursor goes from `p` when `code` is pressed `n` times.
pub open spec fn pressed(p: Point, code: KeyCode, n: nat, size: Size) -> Point
    decreases n,
{
    if n == 0 {
        p
    } else {
        pressed(moved(p, code, size), code, (n - 1) as nat, size)
    }
}

/// A single key press keeps a cursor that is on the screen on the screen.
pub proof fn lemma_move_stays_in_bounds(p: Point, code: KeyCode, size: Size)
    requires
        in_bounds(p, size),
    ensures
        in_bounds(moved(p, code, size), size),
{
}

/// On any screen, from any cell of it, any sequence of keys leaves the cursor
/// on the screen.
pub proof fn lemma_moves_stay_in_bounds(p: Point, keys: Seq<KeyCode>, size: Size)
    requires
        size.width >= 1,
        size.height >= 1,
        in_bounds(p, size),
    ensures
        in_bounds(moved_all(p, keys, size), size),
    decreases keys.len(),
{
    if keys.len() > 0 {
        lemma_move_stays_in_bounds(p, keys[0], size);
        lemma_moves_stay_in_bounds(moved(p, keys[0], size), keys.drop_first(), size);
    }
}

/// Pressing Left at least `p.x` times brings the cursor to the first column
/// of its row, and further presses keep it there.
pub proof fn lemma_left_converges(p: Point, n: nat, size: Size)
    requires
        n >= p.x,
    ensures
        pressed(p, KeyCode::Left, n, size) == (Point { x: 0, y: p.y }),
    decreases n,
{
    if n > 0 {
        lemma_left_converges(moved(p, KeyCode::Left, size), (n - 1) as nat, size);
    }
}

/// Pressing Up at least `p.y` times brings the cursor to the first row, and
/// further presses keep it there.
pub proof fn lemma_up_converges(p: Point, n: nat, size: Size)
    requires
        n >= p.y,
    ensures
        pressed(p, KeyCode::Up, n, size) == (Point { x: p.x, y: 0 }),
    decreases n,
{
    if n > 0 {
        lemma_up_converges(moved(p, KeyCode::Up, size), (n - 1) as nat, size);
    }
}

/// From a cell on the screen, pressing Right enough times brings the cursor
/// to the last column of its row, and further presses keep it there.
pub proof fn lemma_right_converges(p: Point, n: nat, size: Size)
    requires
        in_bounds(p, size),
        n >= size.width - 1 - p.x,
    ensures
        pressed(p, KeyCode::Right, n, size) == (Point { x: last_index(size.width), y: p.y }),
    decreases n,
{
    if n > 0 {
        lemma_right_converges(moved(p, KeyCode::Right, size), (n - 1) as nat, size);
    }
}

/// From a cell on the screen, pressing Down enough times brings the cursor
/// to the last row, and further presses keep it there.
pub proof fn lemma_down_converges(p: Point, n: nat, size: Size)
    requires
        in_bounds(p, size),
        n >= size.height - 1 - p.y,
    ensures
        pressed(p, KeyCode::Down, n, size) == (Point { x: p.x, y: last_index(size.height) }),
    decreases n,
{
    if n > 0 {
        lemma_down_converges(moved(p, KeyCode::Down, size), (n - 1) as nat, size);
    }
}

/// Home, End, PageUp and PageDown pressed twice in a row put the cursor where
/// one press does.
pub proof fn lemma_jump_keys_idempotent(p: Point, code: KeyCode, size: Size)
    requires
        code == KeyCode::Home || code == KeyCode::End || code == KeyCode::PageUp || code
            == KeyCode::PageDown,
    ensures
        moved(moved(p, code, size), code, size) == moved(p, code, size),
{
}

/// Only a backtick press raises the clear request: evaluating any other key
/// event leaves it as it was.
pub proof fn lemma_clear_request_only_by_backtick(s: EditorState, event: KeyEvent, size: Size)
    ensures
        evaluated(s, event, size).should_clear_screen == (s.should_clear_screen || (is_press(event)
            && event.code == KeyCode::Char('`'))),
        !after_step(s, event, size).should_clear_screen,
{
}

/// An Escape press sets the quit flag, whatever the other flags hold, so the
/// loop ends at its next check.
pub proof fn lemma_escape_quits(s: EditorState, event: KeyEvent, size: Size)
    requires
        is_press(event),
        event.code == KeyCode::Esc,
    ensures
        evaluated(s, event, size).should_quit,
        after_step(s, event, size).should_quit,
{
}

/// No key event clears the quit flag once it is set.
pub proof fn lemma_quit_is_kept(s: EditorState, event: KeyEvent, size: Size)
    requires
        s.should_quit,
    ensures
        after_step(s, event, size).should_quit,
{
}

} // verus!
