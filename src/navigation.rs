use vstd::prelude::*;
use crate::document::Document;
use crate::position::Position;
use crate::row::expand_tabs;

verus! {

/// A key event, as the input loop sees it.
#[derive(Clone, Copy, PartialEq, Eq, Structural, Debug)]
pub enum Key {
    Up,
    Down,
    Left,
    Right,
    PageUp,
    PageDown,
    Home,
    End,
    /// A character typed with Ctrl held.
    Ctrl(char),
    /// A plain character.
    Char(char),
    /// Any other key.
    Other,
}

/// Whether `key` moves the cursor.
pub open spec fn is_navigation(key: Key) -> bool {
    match key {
        Key::Up | Key::Down | Key::Left | Key::Right | Key::PageUp | Key::PageDown | Key::Home
        | Key::End => true,
        _ => false,
    }
}

/// The screen width of line `y` of `doc`, or 0 past the last line.
pub open spec fn line_width(doc: Seq<Seq<char>>, y: int) -> int {
    if 0 <= y < doc.len() {
        expand_tabs(doc[y]).len() as int
    } else {
        0
    }
}

pub open spec fn min(a: int, b: int) -> int {
    if a <= b {
        a
    } else {
        b
    }
}

/// The line the cursor goes to: vertical keys move one line, page keys a
/// viewport height, never above the first line nor below the line just past
/// the last one.
pub open spec fn target_line(doc: Seq<Seq<char>>, y: int, key: Key, height: int) -> int {
    match key {
        Key::Up => if y >= 1 { y - 1 } else { 0 },
        Key::Down => if y < doc.len() { y + 1 } else { y },
        Key::PageUp => if y >= height { y - height } else { 0 },
        Key::PageDown => if y < doc.len() { min(y + height, doc.len() as int) } else { y },
        _ => y,
    }
}

/// The cursor after `key`: Left and Right move one column, staying within
/// the line (Right stops at its end), Home goes to column 0 and End to the
/// end of the line. A vertical move lands on the same column, or on the end
/// of the new line when that is shorter. Other keys leave the cursor alone.
pub open spec fn navigate(doc: Seq<Seq<char>>, c: Position, key: Key, height: int) -> Position {
    let y = target_line(doc, c.y as int, key, height);
    let w = line_width(doc, y);
    let x = match key {
        Key::Left => if c.x >= 1 { c.x - 1 } else { 0 },
        Key::Right => if c.x < w { c.x + 1 } else { c.x as int },
        Key::Home => 0,
        Key::End => w,
        Key::Up | Key::Down | Key::PageUp | Key::PageDown => min(c.x as int, w),
        _ => c.x as int,
    };
    Position { x: x as usize, y: y as usize }
}

fn line_width_exec(doc: &Document, y: usize) -> (r: usize)
    ensures
        r == line_width(doc@, y as int),
{
    match doc.row(y) {
        Some(row) => row.width(),
        None => 0,
    }
}

/// The cursor after `key`, in a viewport `height` lines tall.
pub fn move_cursor(doc: &Document, cursor: &Position, key: Key, height: u16) -> (r: Position)
    ensures
        r == navigate(doc@, *cursor, key, height as int),
{
    let len = doc.len();
    let h = height as usize;
    let y = cursor.y;
    let y = match key {
        Key::Up => y.saturating_sub(1),
        Key::Down => if y < len { y + 1 } else { y },
        Key::PageUp => y.saturating_sub(h),
        Key::PageDown => if y < len {
            if len - y < h { len } else { y + h }
        } else {
            y
        },
        _ => y,
    };
    let w = line_width_exec(doc, y);
    let x = cursor.x;
    let x = match key {
        Key::Left => x.saturating_sub(1),
        Key::Right => if x < w { x + 1 } else { x },
        Key::Home => 0,
        Key::End => w,
        Key::Up | Key::Down | Key::PageUp | Key::PageDown => if x < w { x } else { w },
        _ => x,
    };
    Position { x, y }
}

/// Moving left or up from the top-left corner stays there.
pub proof fn lemma_navigation_saturates(doc: Seq<Seq<char>>, height: int)
    ensures
        navigate(doc, Position { x: 0, y: 0 }, Key::Left, height) == (Position { x: 0, y: 0 }),
        navigate(doc, Position { x: 0, y: 0 }, Key::Up, height) == (Position { x: 0, y: 0 }),
{
}

/// A move never leaves the cursor past the end of its line, nor below the
/// line just past the document's last one.
pub proof fn lemma_navigation_in_document(
    doc: Seq<Seq<char>>,
    c: Position,
    key: Key,
    height: int,
)
    requires
        c.y <= doc.len(),
        c.x <= line_width(doc, c.y as int),
        height >= 0,
        forall|y: int| 0 <= y < doc.len() ==> line_width(doc, y) <= usize::MAX,
        doc.len() <= usize::MAX,
    ensures
        navigate(doc, c, key, height).y <= doc.len(),
        navigate(doc, c, key, height).x <= line_width(
            doc,
            navigate(doc, c, key, height).y as int,
        ),
{
}

} // verus!
