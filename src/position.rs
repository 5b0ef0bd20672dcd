use vstd::prelude::*;

verus! {

/// A cell in document space: `x` is the column, `y` the line.
#[derive(Clone, Copy, PartialEq, Eq, Structural, Debug)]
pub struct Position {
    pub x: usize,
    pub y: usize,
}

/// The width and height, in cells, of the area that shows document rows.
#[derive(Clone, Copy, PartialEq, Eq, Structural, Debug)]
pub struct Size {
    pub width: u16,
    pub height: u16,
}

/// Terminal lines kept below the document area: a status bar and a message bar.
pub const FOOTER_SIZE: u16 = 2;

impl Size {
    /// The document area of a terminal of `columns` by `rows` cells.
    pub fn viewport(columns: u16, rows: u16) -> (r: Size)
        ensures
            r.width == columns,
            r.height == if rows >= FOOTER_SIZE {
                rows - FOOTER_SIZE
            } else {
                0
            },
    {
        Size { width: columns, height: rows.saturating_sub(FOOTER_SIZE) }
    }
}

} // verus!
