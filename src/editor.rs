use vstd::prelude::*;
use crate::document::Document;
use crate::navigation::{is_navigation, move_cursor, navigate, Key};
use crate::position::{Position, Size};
use crate::screen::{
    draw_row, draw_status_bar, message_line, prints_line, prints_text, screen_line, status_line,
    Command, MESSAGE_DURATION,
};
use crate::scroll::{rescroll, scrolled};
use crate::text::{chars_of, push_all, string_of, truncate_to};

verus! {

/// A status text and the time, in seconds, at which it was set.
pub struct StatusMessage {
    text: String,
    time: u64,
}

impl StatusMessage {
    pub closed spec fn text_of(&self) -> Seq<char> {
        self.text@
    }

    pub closed spec fn time_of(&self) -> u64 {
        self.time
    }

    /// A message showing `text`, set at `time` seconds.
    pub fn new(text: String, time: u64) -> (r: StatusMessage)
        ensures
            r.text_of() == text@,
            r.time_of() == time,
    {
        StatusMessage { text, time }
    }

    /// The message bar at time `now`, `width` columns wide.
    pub fn render(&self, now: u64, width: u16) -> (r: String)
        ensures
            r@ == message_line(self.text_of(), self.time_of(), now, width as nat),
    {
        let age = now.saturating_sub(self.time);
        let mut out: Vec<char> = Vec::new();
        if age < MESSAGE_DURATION {
            push_all(&mut out, &chars_of(self.text.as_str()));
            truncate_to(&mut out, width as usize);
        }
        proof {
            assert(out@ =~= message_line(self.text_of(), self.time_of(), now, width as nat));
        }
        string_of(&out)
    }
}

/// The viewer's state: the document, the cursor, the scroll offset, the
/// status message, and whether the user asked to quit.
pub struct Editor {
    should_quit: bool,
    cursor_position: Position,
    offset: Position,
    document: Document,
    status_message: StatusMessage,
}

/// The greeting in the message bar.
pub open spec fn help_message() -> Seq<char> {
    "HELP: Ctrl-Q = quit"@
}

/// The farewell printed by the last frame.
pub open spec fn goodbye() -> Seq<char> {
    "Goodbye."@
}

/// Background and foreground of the status bar.
pub const STATUS_BG: (u8, u8, u8) = (239, 239, 239);

pub const STATUS_FG: (u8, u8, u8) = (63, 63, 63);

/// Whether screen line `i` of frame `r` is cleared and then shows `t`.
pub open spec fn draws_line(r: Seq<Command>, i: int, t: Seq<char>) -> bool {
    &&& r[2 + 2 * i] == Command::ClearLine
    &&& prints_line(r[3 + 2 * i], t)
}

/// The last frame: the screen cleared once, then the farewell.
pub open spec fn quit_frame(r: Seq<Command>) -> bool {
    &&& r.len() == 6
    &&& r[0] == Command::HideCursor
    &&& r[1] == Command::ClearScreen
    &&& r[2] == Command::MoveTo(Position { x: 0, y: 0 })
    &&& prints_line(r[3], goodbye())
    &&& r[4] == Command::ShowCursor
    &&& r[5] == Command::Flush
}

/// An ordinary frame: every document line, the status bar in its colours,
/// the message bar, then the cursor placed at its cell of the viewport.
pub open spec fn running_frame(e: Editor, size: Size, now: u64, r: Seq<Command>) -> bool {
    let h = size.height as int;
    let b = 2 + 2 * h;
    let c = e.cursor();
    let o = e.scroll_offset();
    &&& r.len() == b + 11
    &&& r[0] == Command::HideCursor
    &&& r[1] == Command::MoveTo(Position { x: 0, y: 0 })
    &&& forall|i: int| 0 <= i < h ==> #[trigger] draws_line(r, i, screen_line(e.doc()@, o, size, i))
    &&& r[b] == Command::ClearLine
    &&& r[b + 1] == Command::SetBg(STATUS_BG.0, STATUS_BG.1, STATUS_BG.2)
    &&& r[b + 2] == Command::SetFg(STATUS_FG.0, STATUS_FG.1, STATUS_FG.2)
    &&& prints_line(
        r[b + 3],
        status_line(e.doc().name(), e.doc()@.len(), c.y as nat, size.width as nat),
    )
    &&& r[b + 4] == Command::ResetFg
    &&& r[b + 5] == Command::ResetBg
    &&& r[b + 6] == Command::ClearLine
    &&& prints_text(
        r[b + 7],
        message_line(e.message().text_of(), e.message().time_of(), now, size.width as nat),
    )
    &&& r[b + 8] == Command::MoveTo(Position { x: (c.x - o.x) as usize, y: (c.y - o.y) as usize })
    &&& r[b + 9] == Command::ShowCursor
    &&& r[b + 10] == Command::Flush
}

impl Editor {
    #[verifier::type_invariant]
    spec fn inv(self) -> bool {
        &&& self.offset.x <= self.cursor_position.x
        &&& self.offset.y <= self.cursor_position.y
    }

    pub closed spec fn quitting(&self) -> bool {
        self.should_quit
    }

    pub closed spec fn cursor(&self) -> Position {
        self.cursor_position
    }

    pub closed spec fn scroll_offset(&self) -> Position {
        self.offset
    }

    pub closed spec fn doc(&self) -> Document {
        self.document
    }

    pub closed spec fn message(&self) -> StatusMessage {
        self.status_message
    }

    /// An editor on `document`, cursor and offset at the top-left corner,
    /// showing `message`.
    pub fn new(document: Document, message: StatusMessage) -> (r: Editor)
        ensures
            !r.quitting(),
            r.cursor() == (Position { x: 0, y: 0 }),
            r.scroll_offset() == (Position { x: 0, y: 0 }),
            r.doc() == document,
            r.message() == message,
    {
        Editor {
            should_quit: false,
            cursor_position: Position { x: 0, y: 0 },
            offset: Position { x: 0, y: 0 },
            document,
            status_message: message,
        }
    }

    /// An editor on the built-in document, greeting with the help text at time 0.
    pub fn default() -> (r: Editor)
        ensures
            !r.quitting(),
            r.cursor() == (Position { x: 0, y: 0 }),
            r.scroll_offset() == (Position { x: 0, y: 0 }),
            r.doc()@ == Document::open_view(),
            r.doc().name() is None,
            r.message().text_of() == help_message(),
            r.message().time_of() == 0,
    {
        let help = string_of(&chars_of("HELP: Ctrl-Q = quit"));
        Editor::new(Document::open(), StatusMessage::new(help, 0))
    }

    /// Whether the user asked to quit.
    pub fn should_quit(&self) -> (r: bool)
        ensures
            r == self.quitting(),
    {
        self.should_quit
    }

    /// The cursor, in document space.
    pub fn cursor_position(&self) -> (r: Position)
        ensures
            r == self.cursor(),
    {
        self.cursor_position
    }

    /// The document cell at the top-left corner of the viewport.
    pub fn offset(&self) -> (r: Position)
        ensures
            r == self.scroll_offset(),
    {
        self.offset
    }

    /// The document shown.
    pub fn document(&self) -> (r: &Document)
        ensures
            *r == self.doc(),
    {
        &self.document
    }

    /// The frame that shows the editor in a viewport of `size` at time `now`
    /// (in seconds), or the farewell once the user asked to quit.
    pub fn refresh_screen(&self, size: &Size, now: u64) -> (r: Vec<Command>)
        ensures
            self.quitting() ==> quit_frame(r@),
            !self.quitting() ==> running_frame(*self, *size, now, r@),
    {
        proof {
            use_type_invariant(self);
        }
        let mut r: Vec<Command> = Vec::new();
        r.push(Command::HideCursor);
        if self.should_quit {
            r.push(Command::ClearScreen);
            r.push(Command::MoveTo(Position { x: 0, y: 0 }));
            r.push(Command::Line(string_of(&chars_of("Goodbye."))));
            r.push(Command::ShowCursor);
            r.push(Command::Flush);
            return r;
        }
        r.push(Command::MoveTo(Position { x: 0, y: 0 }));
        let ghost doc = self.document@;
        let mut i: u16 = 0;
        while i < size.height
            invariant
                doc == self.document@,
                i <= size.height,
                r@.len() == 2 + 2 * i,
                r@[0] is HideCursor,
                r@[1] == Command::MoveTo(Position { x: 0, y: 0 }),
                forall|k: int|
                    0 <= k < i ==> #[trigger] draws_line(r@, k, screen_line(doc, self.offset, *size, k)),
            decreases size.height - i,
        {
            let ghost before = r@;
            r.push(Command::ClearLine);
            let ghost mid = r@;
            r.push(Command::Line(draw_row(&self.document, &self.offset, size, i)));
            i = i + 1;
            proof {
                assert forall|k: int| 0 <= k < i implies #[trigger] draws_line(
                    r@,
                    k,
                    screen_line(doc, self.offset, *size, k),
                ) by {
                    if k < i - 1 {
                        assert(draws_line(before, k, screen_line(doc, self.offset, *size, k)));
                        assert(r@[2 + 2 * k] == before[2 + 2 * k]);
                        assert(r@[3 + 2 * k] == before[3 + 2 * k]);
                    } else {
                        assert(r@[2 + 2 * k] == mid[2 + 2 * k]);
                    }
                }
            }
        }
        let ghost rows = r@;
        r.push(Command::ClearLine);
        r.push(Command::SetBg(STATUS_BG.0, STATUS_BG.1, STATUS_BG.2));
        r.push(Command::SetFg(STATUS_FG.0, STATUS_FG.1, STATUS_FG.2));
        r.push(
            Command::Line(draw_status_bar(&self.document, self.cursor_position.y, size.width)),
        );
        r.push(Command::ResetFg);
        r.push(Command::ResetBg);
        r.push(Command::ClearLine);
        r.push(Command::Text(self.status_message.render(now, size.width)));
        r.push(
            Command::MoveTo(
                Position {
                    x: self.cursor_position.x - self.offset.x,
                    y: self.cursor_position.y - self.offset.y,
                },
            ),
        );
        r.push(Command::ShowCursor);
        r.push(Command::Flush);
        proof {
            let h = size.height as int;
            assert forall|k: int| 0 <= k < h implies #[trigger] draws_line(
                r@,
                k,
                screen_line(doc, self.offset, *size, k),
            ) by {
                assert(draws_line(rows, k, screen_line(doc, self.offset, *size, k)));
                assert(r@[2 + 2 * k] == rows[2 + 2 * k]);
                assert(r@[3 + 2 * k] == rows[3 + 2 * k]);
            }
        }
        r
    }

    /// Handles one key in a viewport of `size`: Ctrl-Q asks to quit, a
    /// navigation key moves the cursor and rescrolls, any other key changes
    /// nothing.
    pub fn process_keypress(&mut self, key: Key, size: &Size)
        ensures
            final(self).doc() == old(self).doc(),
            final(self).message() == old(self).message(),
            key == Key::Ctrl('q') ==> {
                &&& final(self).quitting()
                &&& final(self).cursor() == old(self).cursor()
                &&& final(self).scroll_offset() == old(self).scroll_offset()
            },
            is_navigation(key) ==> {
                &&& final(self).quitting() == old(self).quitting()
                &&& final(self).cursor() == navigate(
                    old(self).doc()@,
                    old(self).cursor(),
                    key,
                    size.height as int,
                )
                &&& final(self).scroll_offset() == scrolled(
                    final(self).cursor(),
                    *size,
                    old(self).scroll_offset(),
                )
            },
            key != Key::Ctrl('q') && !is_navigation(key) ==> {
                &&& final(self).quitting() == old(self).quitting()
                &&& final(self).cursor() == old(self).cursor()
                &&& final(self).scroll_offset() == old(self).scroll_offset()
            },
    {
        proof {
            use_type_invariant(&*self);
        }
        match key {
            Key::Ctrl('q') => {
                self.should_quit = true;
            },
            Key::Up | Key::Down | Key::Left | Key::Right | Key::PageUp | Key::PageDown | Key::Home
            | Key::End => {
                let cursor = move_cursor(&self.document, &self.cursor_position, key, size.height);
                let offset = rescroll(&cursor, size, &self.offset);
                // The offset goes to the corner first, so that it never
                // passes the cursor while the two are replaced.
                self.offset = Position { x: 0, y: 0 };
                self.cursor_position = cursor;
                self.offset = offset;
            },
            _ => {},
        }
    }
}

} // verus!
