use vstd::prelude::*;
use crate::position::{Position, Size};

verus! {

/// The new offset along one axis for cursor coordinate `c`, old offset `o`
/// and visible extent `h`: moved just far enough to bring `c` into view.
pub open spec fn scroll_axis(c: int, o: int, h: int) -> int {
    if c < o {
        c
    } else if c >= o + h {
        if h == 0 {
            c
        } else {
            c - h + 1
        }
    } else {
        o
    }
}

/// The offset that `rescroll` computes.
pub open spec fn scrolled(cursor: Position, size: Size, offset: Position) -> Position {
    Position {
        x: scroll_axis(cursor.x as int, offset.x as int, size.width as int) as usize,
        y: scroll_axis(cursor.y as int, offset.y as int, size.height as int) as usize,
    }
}

/// Whether `cursor` lies inside the `size` rectangle whose top-left cell is `offset`.
pub open spec fn visible(cursor: Position, size: Size, offset: Position) -> bool {
    &&& offset.x <= cursor.x < offset.x + size.width
    &&& offset.y <= cursor.y < offset.y + size.height
}

fn scroll_axis_exec(c: usize, o: usize, h: u16) -> (r: usize)
    ensures
        r as int == scroll_axis(c as int, o as int, h as int),
{
    if c < o {
        c
    } else if c - o >= h as usize {
        if h == 0 {
            c
        } else {
            c - h as usize + 1
        }
    } else {
        o
    }
}

/// The offset after a cursor move: each axis moves only as far as needed to
/// keep the cursor inside the viewport.
pub fn rescroll(cursor: &Position, size: &Size, offset: &Position) -> (r: Position)
    ensures
        r == scrolled(*cursor, *size, *offset),
        r.x <= cursor.x,
        r.y <= cursor.y,
{
    Position {
        x: scroll_axis_exec(cursor.x, offset.x, size.width),
        y: scroll_axis_exec(cursor.y, offset.y, size.height),
    }
}

/// After rescrolling, the cursor is inside a viewport of nonzero size.
pub proof fn lemma_rescroll_shows_cursor(cursor: Position, size: Size, offset: Position)
    requires
        size.width > 0,
        size.height > 0,
    ensures
        visible(cursor, size, scrolled(cursor, size, offset)),
{
}

/// A cursor that is already visible leaves the offset unchanged.
pub proof fn lemma_rescroll_keeps_visible(cursor: Position, size: Size, offset: Position)
    requires
        visible(cursor, size, offset),
    ensures
        scrolled(cursor, size, offset) == offset,
{
}

/// Rescrolling moves the offset by the least amount: no offset nearer to the
/// old one on either axis shows the cursor.
pub proof fn lemma_rescroll_minimal(cursor: Position, size: Size, offset: Position, other: Position)
    requires
        visible(cursor, size, other),
    ensures
        visible(cursor, size, scrolled(cursor, size, offset)),
        abs_diff(scrolled(cursor, size, offset).x as int, offset.x as int) <= abs_diff(
            other.x as int,
            offset.x as int,
        ),
        abs_diff(scrolled(cursor, size, offset).y as int, offset.y as int) <= abs_diff(
            other.y as int,
            offset.y as int,
        ),
{
}

pub open spec fn abs_diff(a: int, b: int) -> int {
    if a >= b {
        a - b
    } else {
        b - a
    }
}

} // verus!
