use vstd::prelude::*;
use crate::row::Row;
use crate::text::chars_of;

verus! {

/// `s` cut at each line feed: always one piece more than there are line feeds.
pub open spec fn split_lines(s: Seq<char>) -> Seq<Seq<char>>
    decreases s.len(),
{
    if s.len() == 0 {
        seq![seq![]]
    } else {
        let p = split_lines(s.drop_last());
        if s.last() == '\n' {
            p.push(seq![])
        } else {
            p.update(p.len() - 1, p.last().push(s.last()))
        }
    }
}

/// A piece of a split without its carriage return, if it ends in one.
pub open spec fn strip_cr(l: Seq<char>) -> Seq<char> {
    if l.len() > 0 && l.last() == '\r' {
        l.drop_last()
    } else {
        l
    }
}

/// The lines of a text: split at line feeds, terminators removed, with no
/// line after a final line feed (and none at all in an empty text).
pub open spec fn lines(s: Seq<char>) -> Seq<Seq<char>> {
    let p = split_lines(s);
    let q = if p.last().len() == 0 {
        p.drop_last()
    } else {
        p
    };
    q.map_values(|l: Seq<char>| strip_cr(l))
}

proof fn lemma_split_lines_nonempty(s: Seq<char>)
    ensures
        split_lines(s).len() >= 1,
        forall|i: int| 0 <= i < split_lines(s).len() ==> (#[trigger] split_lines(s)[i]).len() <= s.len(),
    decreases s.len(),
{
    if s.len() > 0 {
        lemma_split_lines_nonempty(s.drop_last());
    }
}

/// The text shown when no file is loaded.
pub open spec fn greeting() -> Seq<char> {
    "Hello world!"@
}

/// An ordered, read-only sequence of rows, with the name of the file they
/// came from, if any.
pub struct Document {
    rows: Vec<Row>,
    file_name: Option<String>,
}

impl View for Document {
    type V = Seq<Seq<char>>;

    closed spec fn view(&self) -> Seq<Seq<char>> {
        self.rows@.map_values(|r: Row| r@)
    }
}

impl Document {
    /// The name of the file the rows came from.
    pub closed spec fn name(&self) -> Option<Seq<char>> {
        match self.file_name {
            Some(n) => Some(n@),
            None => None,
        }
    }

    /// The rows of the built-in document.
    pub open spec fn open_view() -> Seq<Seq<char>> {
        seq![greeting()]
    }

    /// The built-in document: the single row "Hello world!", with no file name.
    pub fn open() -> (r: Document)
        ensures
            r@ == Document::open_view(),
            r.name() is None,
    {
        let mut rows: Vec<Row> = Vec::new();
        rows.push(Row::new("Hello world!"));
        let r = Document { rows, file_name: None };
        assert(r@ =~= seq![greeting()]);
        r
    }

    /// A document holding the lines of `text`, read from the file `file_name`.
    pub fn from_text(text: &str, file_name: Option<String>) -> (r: Document)
        ensures
            r@ == lines(text@),
            r.name() == (match file_name {
                Some(n) => Some(n@),
                None => None,
            }),
    {
        let chars = chars_of(text);
        let ghost s = chars@;
        let mut rows: Vec<Row> = Vec::new();
        let mut cur: Vec<char> = Vec::new();
        let mut i: usize = 0;
        proof {
            assert(s.take(0) =~= Seq::<char>::empty());
        }
        while i < chars.len()
            invariant
                s == chars@,
                i <= s.len(),
                s.len() <= usize::MAX / 8,
                split_lines(s.take(i as int)).len() == rows@.len() + 1,
                forall|k: int|
                    0 <= k < rows@.len() ==> (#[trigger] rows@[k])@ == strip_cr(
                        split_lines(s.take(i as int))[k],
                    ),
                cur@ == split_lines(s.take(i as int)).last(),
            decreases s.len() - i,
        {
            let ghost prev = s.take(i as int);
            proof {
                assert(s.take(i as int + 1).drop_last() =~= prev);
                lemma_split_lines_nonempty(prev);
            }
            let c = chars[i];
            if c == '\n' {
                let line = if cur.len() > 0 && cur[cur.len() - 1] == '\r' {
                    let mut l = cur.clone();
                    l.pop();
                    l
                } else {
                    cur.clone()
                };
                proof {
                    assert(line@ =~= strip_cr(cur@));
                }
                rows.push(Row::from_chars(line));
                cur = Vec::new();
            } else {
                cur.push(c);
            }
            i = i + 1;
            proof {
                let p = split_lines(prev);
                let q = split_lines(s.take(i as int));
                assert forall|k: int| 0 <= k < rows@.len() implies (#[trigger] rows@[k])@ == strip_cr(q[k]) by {
                    if k < rows@.len() - 1 || c != '\n' {
                        assert(q[k] == p[k]);
                    }
                }
                assert(cur@ =~= q.last());
            }
        }
        let ghost p = split_lines(s);
        proof {
            assert(s.take(s.len() as int) =~= s);
            lemma_split_lines_nonempty(s);
        }
        if cur.len() > 0 {
            let line = if cur[cur.len() - 1] == '\r' {
                let mut l = cur.clone();
                l.pop();
                l
            } else {
                cur.clone()
            };
            proof {
                assert(line@ =~= strip_cr(cur@));
            }
            rows.push(Row::from_chars(line));
        }
        let r = Document { rows, file_name };
        proof {
            let q = if p.last().len() == 0 { p.drop_last() } else { p };
            assert(r@ =~= q.map_values(|l: Seq<char>| strip_cr(l)));
        }
        r
    }

    /// The number of rows.
    pub fn len(&self) -> (r: usize)
        ensures
            r == self@.len(),
    {
        self.rows.len()
    }

    /// Whether the document has no rows.
    pub fn is_empty(&self) -> (r: bool)
        ensures
            r == (self@.len() == 0),
    {
        self.rows.len() == 0
    }

    /// The row at `index`, or `None` past the last row.
    pub fn row(&self, index: usize) -> (r: Option<&Row>)
        ensures
            r is Some <==> index < self@.len(),
            r matches Some(row) ==> row@ == self@[index as int],
    {
        if index < self.rows.len() {
            Some(&self.rows[index])
        } else {
            None
        }
    }

    /// The file name, if the rows came from a file.
    pub fn file_name(&self) -> (r: Option<String>)
        ensures
            r matches Some(n) ==> self.name() == Some(n@),
            r is None <==> self.name() is None,
    {
        match &self.file_name {
            Some(n) => Some(n.clone()),
            None => None,
        }
    }
}

} // verus!
