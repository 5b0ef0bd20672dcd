use vstd::prelude::*;
use crate::text::{blanks, chars_of, push_blanks, string_of};

verus! {

/// Columns between two tab stops.
pub const TAB_STOP: usize = 8;

/// The columns a line occupies on screen: each tab is widened with blanks up
/// to the next tab stop, every other character takes one column.
pub open spec fn expand_tabs(s: Seq<char>) -> Seq<char>
    decreases s.len(),
{
    if s.len() == 0 {
        seq![]
    } else {
        let p = expand_tabs(s.drop_last());
        if s.last() == '\t' {
            p + blanks((TAB_STOP as int - (p.len() as int) % (TAB_STOP as int)) as nat)
        } else {
            p.push(s.last())
        }
    }
}

/// The columns of `d` from `start` (inclusive) to `end` (exclusive), clamped
/// to `d`; empty when the window holds none of them.
pub open spec fn window(d: Seq<char>, start: int, end: int) -> Seq<char> {
    let hi = if end < d.len() { end } else { d.len() as int };
    if start < hi {
        d.subrange(start, hi)
    } else {
        seq![]
    }
}

/// A line never takes fewer columns than characters, nor more than a tab
/// stop's worth per character.
pub proof fn lemma_expand_tabs_len(s: Seq<char>)
    ensures
        s.len() <= expand_tabs(s).len() <= TAB_STOP * s.len(),
    decreases s.len(),
{
    if s.len() > 0 {
        lemma_expand_tabs_len(s.drop_last());
    }
}

/// One line of a document, kept with its on-screen columns.
pub struct Row {
    content: Vec<char>,
    columns: Vec<char>,
}

impl View for Row {
    type V = Seq<char>;

    closed spec fn view(&self) -> Seq<char> {
        self.content@
    }
}

impl Row {
    #[verifier::type_invariant]
    spec fn inv(self) -> bool {
        self.columns@ == expand_tabs(self.content@)
    }

    /// The row's on-screen columns.
    pub open spec fn columns_of(&self) -> Seq<char> {
        expand_tabs(self@)
    }

    /// A row holding the characters of `text`.
    pub fn new(text: &str) -> (r: Row)
        ensures
            r@ == text@,
    {
        Row::from_chars(chars_of(text))
    }

    pub(crate) fn from_chars(content: Vec<char>) -> (r: Row)
        requires
            content@.len() <= usize::MAX / 8,
        ensures
            r@ == content@,
    {
        let mut columns: Vec<char> = Vec::new();
        let mut i: usize = 0;
        while i < content.len()
            invariant
                i <= content@.len(),
                content@.len() <= usize::MAX / 8,
                columns@ == expand_tabs(content@.take(i as int)),
            decreases content@.len() - i,
        {
            proof {
                lemma_expand_tabs_len(content@.take(i as int));
                assert(content@.take(i as int + 1).drop_last() =~= content@.take(i as int));
            }
            let c = content[i];
            if c == '\t' {
                let pad = TAB_STOP - columns.len() % TAB_STOP;
                push_blanks(&mut columns, pad);
            } else {
                columns.push(c);
            }
            i = i + 1;
        }
        assert(content@.take(content@.len() as int) =~= content@);
        Row { content, columns }
    }

    /// The number of characters in the row.
    pub fn len(&self) -> (r: usize)
        ensures
            r == self@.len(),
    {
        self.content.len()
    }

    /// Whether the row holds no characters.
    pub fn is_empty(&self) -> (r: bool)
        ensures
            r == (self@.len() == 0),
    {
        self.content.len() == 0
    }

    /// The number of screen columns the row occupies.
    pub fn width(&self) -> (r: usize)
        ensures
            r == self.columns_of().len(),
    {
        proof {
            use_type_invariant(self);
        }
        self.columns.len()
    }

    /// The row's characters, as written.
    pub fn text(&self) -> (r: String)
        ensures
            r@ == self@,
    {
        string_of(&self.content)
    }

    /// The part of the row visible between screen columns `start` and `end`.
    pub fn render(&self, start: usize, end: usize) -> (r: String)
        ensures
            r@ == window(self.columns_of(), start as int, end as int),
    {
        proof {
            use_type_invariant(self);
        }
        let hi = if end < self.columns.len() { end } else { self.columns.len() };
        let mut out: Vec<char> = Vec::new();
        if start >= hi {
            return string_of(&out);
        }
        let mut i: usize = start;
        while i < hi
            invariant
                hi <= self.columns@.len(),
                start <= i <= hi,
                out@ == self.columns@.subrange(start as int, i as int),
            decreases hi - i,
        {
            out.push(self.columns[i]);
            i = i + 1;
            assert(out@ =~= self.columns@.subrange(start as int, i as int));
        }
        string_of(&out)
    }
}

/// Rendering never fails and never yields more than `end - start` columns,
/// none at all when `start >= end`. As `render` returns exactly this window,
/// which depends on the row's characters and the bounds alone, rendering the
/// same row with the same bounds again gives the same text.
pub proof fn lemma_render_total(row: Row, start: usize, end: usize)
    ensures
        window(row.columns_of(), start as int, end as int).len() <= if start <= end {
            end - start
        } else {
            0
        },
        start >= end ==> window(row.columns_of(), start as int, end as int).len() == 0,
{
}

} // verus!
