use vstd::prelude::*;
use crate::document::Document;
use crate::position::{Position, Size};
use crate::row::{expand_tabs, window};
use crate::text::{
    blanks, chars_of, decimal, push_all, push_blanks, push_decimal, string_of, truncate,
    truncate_to,
};

verus! {

/// One terminal primitive of a frame, executed in order by the program's
/// terminal driver.
#[derive(Debug)]
pub enum Command {
    HideCursor,
    ShowCursor,
    ClearScreen,
    /// Clears the line the terminal cursor is on.
    ClearLine,
    /// Moves the terminal cursor to a 0-based cell of the screen.
    MoveTo(Position),
    /// Prints the text and ends the terminal line.
    Line(String),
    /// Prints the text and stays on the line.
    Text(String),
    SetBg(u8, u8, u8),
    SetFg(u8, u8, u8),
    ResetBg,
    ResetFg,
    Flush,
}

/// Whether `c` prints exactly `t` and ends the line.
pub open spec fn prints_line(c: Command, t: Seq<char>) -> bool {
    c matches Command::Line(s) && s@ == t
}

/// Whether `c` prints exactly `t` without ending the line.
pub open spec fn prints_text(c: Command, t: Seq<char>) -> bool {
    c matches Command::Text(s) && s@ == t
}

/// The product name and version shown on an empty document.
pub open spec fn welcome_message() -> Seq<char> {
    "Milli Editor -- version 0.1.0"@
}

/// The welcome banner for a screen `width` columns wide: a `~`, then blanks
/// that center the message, then the message cut to the width.
pub open spec fn welcome_line(width: int) -> Seq<char> {
    let msg = welcome_message();
    let pad = if width > msg.len() {
        (width - msg.len()) / 2
    } else {
        0
    };
    let lead = if pad >= 1 {
        pad - 1
    } else {
        0
    };
    seq!['~'] + blanks(lead as nat) + truncate(msg, width as nat)
}

/// The text of screen line `i`: the document line under it, windowed by the
/// offset; the welcome banner a third of the way down an empty document; a
/// `~` anywhere else.
pub open spec fn screen_line(doc: Seq<Seq<char>>, offset: Position, size: Size, i: int) -> Seq<
    char,
> {
    let y = offset.y + i;
    if y < doc.len() {
        window(expand_tabs(doc[y]), offset.x as int, offset.x + size.width)
    } else if doc.len() == 0 && i == size.height / 3 {
        welcome_line(size.width as int)
    } else {
        seq!['~']
    }
}

/// Longest file name shown in the status bar.
pub const NAME_WIDTH: usize = 20;

/// The left part of the status bar: the file name (or a placeholder) and the
/// line count.
pub open spec fn status_left(name: Option<Seq<char>>, total: nat) -> Seq<char> {
    let shown = match name {
        Some(n) => truncate(n, NAME_WIDTH as nat),
        None => "[No Name]"@,
    };
    shown + " - "@ + decimal(total) + " lines"@
}

/// The right part of the status bar: current line over line count, from 1.
pub open spec fn status_right(line: nat, total: nat) -> Seq<char> {
    decimal(line + 1) + "/"@ + decimal(total)
}

/// The status bar: the left part, blanks that push the right part to the
/// right edge, the right part, all cut to `width`.
pub open spec fn status_line(name: Option<Seq<char>>, total: nat, line: nat, width: nat) -> Seq<
    char,
> {
    let l = status_left(name, total);
    let r = status_right(line, total);
    let fill = if width > l.len() + r.len() {
        width - l.len() - r.len()
    } else {
        0
    };
    truncate(l + blanks(fill as nat) + r, width)
}

/// Seconds a status message stays on screen.
pub const MESSAGE_DURATION: u64 = 5;

/// The message bar: the message cut to `width` while it is younger than the
/// display duration, nothing after that.
pub open spec fn message_line(text: Seq<char>, time: u64, now: u64, width: nat) -> Seq<char> {
    let age = if now >= time {
        now - time
    } else {
        0
    };
    if age < MESSAGE_DURATION {
        truncate(text, width)
    } else {
        seq![]
    }
}

/// The welcome banner for a screen `width` columns wide.
pub fn render_welcome(width: u16) -> (r: String)
    ensures
        r@ == welcome_line(width as int),
{
    let msg = chars_of("Milli Editor -- version 0.1.0");
    let w = width as usize;
    let pad = w.saturating_sub(msg.len()) / 2;
    let mut out: Vec<char> = Vec::new();
    out.push('~');
    push_blanks(&mut out, pad.saturating_sub(1));
    let mut shown = msg;
    truncate_to(&mut shown, w);
    push_all(&mut out, &shown);
    proof {
        assert(out@ =~= welcome_line(width as int));
    }
    string_of(&out)
}

/// The text of screen line `i` for `doc` scrolled to `offset`.
pub fn draw_row(doc: &Document, offset: &Position, size: &Size, i: u16) -> (r: String)
    ensures
        r@ == screen_line(doc@, *offset, *size, i as int),
{
    let y = offset.y.checked_add(i as usize);
    let row = match y {
        Some(y) => doc.row(y),
        None => None,
    };
    match row {
        Some(row) => {
            // The row ends within usize, so a saturated window end cuts nothing.
            let width = row.width();
            let end = offset.x.saturating_add(size.width as usize);
            let r = row.render(offset.x, end);
            proof {
                let d = row.columns_of();
                assert(d.len() == width);
                assert(window(d, offset.x as int, end as int) == window(
                    d,
                    offset.x as int,
                    offset.x + size.width,
                ));
            }
            r
        },
        None => {
            if doc.len() == 0 && i == size.height / 3 {
                render_welcome(size.width)
            } else {
                let mut out: Vec<char> = Vec::new();
                out.push('~');
                proof {
                    assert(out@ =~= seq!['~']);
                }
                string_of(&out)
            }
        },
    }
}

/// The status bar for `doc` with the cursor on line `line`.
pub fn draw_status_bar(doc: &Document, line: usize, width: u16) -> (r: String)
    ensures
        r@ == status_line(doc.name(), doc@.len(), line as nat, width as nat),
{
    let total = doc.len();
    let mut left: Vec<char> = match doc.file_name() {
        Some(n) => {
            let mut v = chars_of(n.as_str());
            truncate_to(&mut v, NAME_WIDTH);
            v
        },
        None => chars_of("[No Name]"),
    };
    push_all(&mut left, &chars_of(" - "));
    push_decimal(&mut left, total as u128);
    push_all(&mut left, &chars_of(" lines"));
    let mut right: Vec<char> = Vec::new();
    push_decimal(&mut right, line as u128 + 1);
    push_all(&mut right, &chars_of("/"));
    push_decimal(&mut right, total as u128);
    proof {
        assert(left@ =~= status_left(doc.name(), doc@.len()));
        assert(right@ =~= status_right(line as nat, doc@.len()));
    }
    let w = width as usize;
    let mut out = left;
    if w > out.len() && w - out.len() > right.len() {
        let fill = w - out.len() - right.len();
        push_blanks(&mut out, fill);
    }
    push_all(&mut out, &right);
    truncate_to(&mut out, w);
    string_of(&out)
}

} // verus!
