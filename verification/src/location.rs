//! The cursor's place in the text.

use vstd::prelude::*;

verus! {

/// A place in the text, counted in lines and in grapheme clusters within the
/// line; it says nothing of screen columns.
#[derive(Clone, Copy, Debug, PartialEq, Eq, Structural)]
pub struct Location {
    pub grapheme_index: usize,
    pub line_index: usize,
}

impl Default for Location {
    fn default() -> (location: Location)
        ensures
            location == (Location { grapheme_index: 0, line_index: 0 }),
    {
        Location { grapheme_index: 0, line_index: 0 }
    }
}

impl Location {
    /// How far this location lies past `other`, in lines and in graphemes,
    /// with zero in place of a negative difference.
    pub open spec fn spec_subtract(&self, other: &Location) -> Location {
        Location {
            grapheme_index: if self.grapheme_index >= other.grapheme_index {
                (self.grapheme_index - other.grapheme_index) as usize
            } else {
                0
            },
            line_index: if self.line_index >= other.line_index {
                (self.line_index - other.line_index) as usize
            } else {
                0
            },
        }
    }

    #[verifier::when_used_as_spec(spec_subtract)]
    pub fn subtract(&self, other: &Location) -> (difference: Location)
        ensures
            difference == self.spec_subtract(other),
    {
        Location {
            grapheme_index: self.grapheme_index.saturating_sub(other.grapheme_index),
            line_index: self.line_index.saturating_sub(other.line_index),
        }
    }
}

} // verus!
