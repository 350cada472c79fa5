//! The coordinate types shared with the terminal surface.

use vstd::prelude::*;

verus! {

/// The extent of the terminal, in character cells.
#[derive(Clone, Copy, Debug, PartialEq, Eq, Structural)]
pub struct Size {
    pub width: usize,
    pub height: usize,
}

/// A cell of the screen, or of the text laid out in columns: `col` counts
/// display columns, `row` counts rows.
#[derive(Clone, Copy, Debug, PartialEq, Eq, Structural)]
pub struct Position {
    pub col: usize,
    pub row: usize,
}

impl Default for Size {
    fn default() -> (size: Size)
        ensures
            size == (Size { width: 0, height: 0 }),
    {
        Size { width: 0, height: 0 }
    }
}

impl Default for Position {
    fn default() -> (position: Position)
        ensures
            position == (Position { col: 0, row: 0 }),
    {
        Position { col: 0, row: 0 }
    }
}

impl Position {
    /// The offset of this position from `other` on each axis, with zero in
    /// place of a negative difference.
    pub open spec fn spec_saturating_sub(self, other: Position) -> Position {
        Position {
            col: if self.col >= other.col { (self.col - other.col) as usize } else { 0 },
            row: if self.row >= other.row { (self.row - other.row) as usize } else { 0 },
        }
    }

    #[verifier::when_used_as_spec(spec_saturating_sub)]
    pub fn saturating_sub(self, other: Position) -> (difference: Position)
        ensures
            difference == self.spec_saturating_sub(other),
    {
        Position {
            col: self.col.saturating_sub(other.col),
            row: self.row.saturating_sub(other.row),
        }
    }
}

} // verus!
