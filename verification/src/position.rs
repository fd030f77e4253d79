//! Sizes and the two coordinate spaces: places in the document and places
//! on the screen.
use vstd::prelude::*;

verus! {

/// Extent of a rectangle of screen cells.
#[derive(Copy, Clone, Debug, PartialEq, Eq, Structural)]
pub struct Size {
    pub height: usize,
    pub width: usize,
}

impl Default for Size {
    fn default() -> (size: Size)
        ensures
            size == (Size { height: 0, width: 0 }),
    {
        Size { height: 0, width: 0 }
    }
}

/// A place on the screen, or a scroll offset, in rows and columns.
#[derive(Copy, Clone, Debug, PartialEq, Eq, Structural)]
pub struct Position {
    pub col: usize,
    pub row: usize,
}

impl Default for Position {
    fn default() -> (position: Position)
        ensures
            position == (Position { col: 0, row: 0 }),
    {
        Position { col: 0, row: 0 }
    }
}

/// The difference of two coordinates, saturating at zero.
pub open spec fn minus(a: usize, b: usize) -> usize {
    if a >= b {
        (a - b) as usize
    } else {
        0
    }
}

/// The sum of two coordinates, saturating at the largest value.
pub open spec fn plus(a: usize, b: usize) -> usize {
    if a + b <= usize::MAX {
        (a + b) as usize
    } else {
        usize::MAX
    }
}

/// `a - b`, or zero where `b` is larger.
pub fn saturating_sub(a: usize, b: usize) -> (r: usize)
    ensures
        r == minus(a, b),
{
    if a >= b {
        a - b
    } else {
        0
    }
}

/// `a + b`, or the largest value where the sum does not fit.
pub fn saturating_add(a: usize, b: usize) -> (r: usize)
    ensures
        r == plus(a, b),
{
    if a <= usize::MAX - b {
        a + b
    } else {
        usize::MAX
    }
}

/// Half of `n`, rounded up.
pub open spec fn half_up(n: usize) -> usize {
    ((n + 1) / 2) as usize
}

/// Half of `n`, rounded up.
pub fn half_rounded_up(n: usize) -> (r: usize)
    ensures
        r == half_up(n),
{
    n / 2 + n % 2
}

impl Position {
    /// The position relative to `other`, each coordinate saturating at zero.
    pub open spec fn minus(self, other: Position) -> Position {
        Position { col: minus(self.col, other.col), row: minus(self.row, other.row) }
    }

    /// The position relative to `other`, each coordinate saturating at zero.
    pub fn saturating_sub(self, other: Position) -> (r: Position)
        ensures
            r == self.minus(other),
    {
        Position {
            col: saturating_sub(self.col, other.col),
            row: saturating_sub(self.row, other.row),
        }
    }
}

/// A place in the document: a line and a grapheme cluster in it.
#[derive(Copy, Clone, Debug, PartialEq, Eq, Structural)]
pub struct Location {
    pub grapheme_idx: usize,
    pub line_idx: usize,
}

impl Default for Location {
    fn default() -> (location: Location)
        ensures
            location == (Location { grapheme_idx: 0, line_idx: 0 }),
    {
        Location { grapheme_idx: 0, line_idx: 0 }
    }
}

} // verus!
