//! The view as a mathematical value, and what each operation makes of it.

use crate::command::{Direction, EditorCommand};
use crate::line::{columns_before, saturated, visible, GraphemeView};
use crate::location::Location;
use crate::terminal::{Position, Size};
use vstd::prelude::*;

verus! {

/// Everything the view remembers.
pub struct ViewState {
    /// The text, line by line.
    pub lines: Seq<Seq<GraphemeView>>,
    /// Whether the screen has to be drawn again.
    pub redraw: bool,
    /// The extent of the screen.
    pub size: Size,
    /// Where the cursor is in the text.
    pub location: Location,
    /// The cell of the text shown in the top left corner of the screen.
    pub scroll_offset: Position,
}

/// The name under which the viewer greets its user.
pub const NAME: &'static str = "hecto";

/// The version it announces.
pub const VERSION: &'static str = "0.1.0";

/// The glyph that fills a row which shows no line of the text.
pub const FILLER: char = '~';

/// The greeting, without padding.
pub open spec fn welcome_text() -> Seq<char> {
    "Welcome to "@ + NAME@ + " -- version "@ + VERSION@
}

/// The row that greets the user on a screen `width` columns wide: the
/// filler, then the greeting after half as many spaces as the greeting
/// leaves free of the width.
pub open spec fn welcome_message(width: usize) -> Seq<char> {
    let text = welcome_text();
    let padding = if width > text.len() { (width - text.len()) / 2 } else { 0 };
    seq![FILLER] + Seq::new(padding as nat, |i: int| ' ') + text
}

/// Where the window has to begin on one axis so that it shows the cell `at`:
/// where it was if that cell is inside already, at the cell if it lies before
/// the window, and otherwise just far enough on for the cell to be the last
/// one shown. A window without extent shows no cell, and comes to begin just
/// past this one.
pub open spec fn scrolled_offset(at: usize, offset: usize, extent: usize) -> usize {
    if at < offset {
        at
    } else if at - offset >= extent {
        saturated((at - extent + 1) as nat)
    } else {
        offset
    }
}

impl ViewState {
    /// The number of graphemes on the line of the given index, and 0 where
    /// the text has no such line.
    pub open spec fn grapheme_count(self, line_index: int) -> int {
        if 0 <= line_index < self.lines.len() {
            self.lines[line_index].len() as int
        } else {
            0
        }
    }

    /// The index of the last grapheme on the line of the given index, and 0
    /// where the line is empty or missing.
    pub open spec fn last_grapheme(self, line_index: int) -> int {
        if self.grapheme_count(line_index) > 0 {
            self.grapheme_count(line_index) - 1
        } else {
            0
        }
    }

    /// The cell of the laid-out text at which the cursor stands: its line,
    /// and the column at which its grapheme begins (column 0 below the text).
    pub open spec fn cursor_position(self) -> Position {
        let row = self.location.line_index;
        Position {
            row,
            col: if row < self.lines.len() {
                saturated(columns_before(self.lines[row as int], self.location.grapheme_index as int))
            } else {
                0
            },
        }
    }

    /// Whether the cursor's cell lies inside the window that the screen shows.
    pub open spec fn cursor_in_view(self) -> bool {
        let at = self.cursor_position();
        &&& self.scroll_offset.row <= at.row < self.scroll_offset.row + self.size.height
        &&& self.scroll_offset.col <= at.col < self.scroll_offset.col + self.size.width
    }

    /// The state after the window was moved, on each axis by itself, just far
    /// enough to show the cursor. Where the window moved, the screen has to
    /// be drawn again; where it did not, a redraw that was due stays due and
    /// none is newly asked for.
    pub open spec fn scrolled_into_view(self) -> ViewState {
        let at = self.cursor_position();
        let scroll_offset = Position {
            row: scrolled_offset(at.row, self.scroll_offset.row, self.size.height),
            col: scrolled_offset(at.col, self.scroll_offset.col, self.size.width),
        };
        ViewState {
            scroll_offset,
            redraw: self.redraw || scroll_offset != self.scroll_offset,
            ..self
        }
    }

    /// Where a movement takes the cursor.
    pub open spec fn relocated(self, direction: Direction) -> Location {
        let line = self.location.line_index as int;
        let grapheme = self.location.grapheme_index as int;
        let height = self.lines.len() as int;
        let page = self.size.height as int;
        let (l, g): (int, int) = match direction {
            Direction::Up => {
                let above = if line > 0 { line - 1 } else { 0 };
                if above < height && self.last_grapheme(above) < grapheme {
                    (above, self.last_grapheme(above))
                } else {
                    (above, grapheme)
                }
            },
            Direction::Down => {
                if line + 1 >= height {
                    (line + 1, 0)
                } else if self.last_grapheme(line + 1) < grapheme {
                    (line + 1, self.last_grapheme(line + 1))
                } else {
                    (line + 1, grapheme)
                }
            },
            Direction::Left => {
                if grapheme > 0 {
                    (line, grapheme - 1)
                } else if 0 < line <= height {
                    (line - 1, self.last_grapheme(line - 1))
                } else {
                    (line, grapheme)
                }
            },
            Direction::Right => {
                if line < height && grapheme < self.grapheme_count(line) {
                    (line, grapheme + 1)
                } else if line < height {
                    (line + 1, 0)
                } else {
                    (line, 0)
                }
            },
            Direction::PageUp => (if line > page { line - page } else { 0 }, grapheme),
            Direction::PageDown => (line + page, grapheme),
            Direction::Home => (line, 0),
            Direction::End => (line, self.grapheme_count(line)),
        };
        Location {
            line_index: (if l < height { l } else { height }) as usize,
            grapheme_index: g as usize,
        }
    }

    /// The state after a movement: the cursor is taken to its new place, and
    /// the window follows it.
    pub open spec fn moved(self, direction: Direction) -> ViewState {
        (ViewState { location: self.relocated(direction), ..self }).scrolled_into_view()
    }

    /// The state after a text was loaded: the text is replaced, and the
    /// screen has to be drawn again.
    pub open spec fn loaded(self, lines: Seq<Seq<GraphemeView>>) -> ViewState {
        ViewState { lines, redraw: true, ..self }
    }

    /// The state after a run of movements, one after the other.
    pub open spec fn moved_all(self, directions: Seq<Direction>) -> ViewState
        decreases directions.len(),
    {
        if directions.len() == 0 {
            self
        } else {
            self.moved_all(directions.drop_last()).moved(directions.last())
        }
    }

    /// Whether the text is one that fits in memory: it has no more lines,
    /// and no line has more graphemes, than a `usize` can count.
    pub open spec fn countable(self) -> bool {
        &&& self.lines.len() <= usize::MAX
        &&& forall|i: int| 0 <= i < self.lines.len() ==> (#[trigger] self.lines[i]).len() <= usize::MAX
    }

    /// Whether the cursor stands on a line of the text or just below the
    /// last one.
    pub open spec fn cursor_on_line(self) -> bool {
        self.location.line_index <= self.lines.len()
    }

    /// Whether the cursor stands on a grapheme of its line or just after the
    /// last one; below the text that is the beginning of the line.
    pub open spec fn cursor_on_grapheme(self) -> bool {
        self.location.grapheme_index <= self.grapheme_count(self.location.line_index as int)
    }

    /// The state after the screen took a new size.
    pub open spec fn resized(self, size: Size) -> ViewState {
        ViewState { size, redraw: true, ..self }
    }

    /// The state after a command. Quitting is not the view's business and
    /// leaves it as it is.
    pub open spec fn applied(self, command: EditorCommand) -> ViewState {
        match command {
            EditorCommand::Quit => self,
            EditorCommand::Move(direction) => self.moved(direction),
            EditorCommand::Resize(size) => self.resized(size),
        }
    }

    /// What the screen row `row` shows: the part of its line of the text
    /// that lies in the window, as far as a `usize` can name its columns;
    /// the greeting, a third of the way down, while there is no text;
    /// otherwise the filler.
    pub open spec fn row_text(self, row: int) -> Seq<char> {
        let line = self.scroll_offset.row + row;
        let left = self.scroll_offset.col;
        if line < self.lines.len() {
            visible(self.lines[line], left as int, saturated((left + self.size.width) as nat) as int)
        } else if self.lines.len() == 0 && row == self.size.height / 3 {
            welcome_message(self.size.width)
        } else {
            seq![FILLER]
        }
    }

    /// Whether rendering draws anything: only when the screen is due to be
    /// drawn again and has both a width and a height.
    pub open spec fn draws(self) -> bool {
        self.redraw && self.size.height > 0 && self.size.width > 0
    }

    /// The rows that rendering draws, top to bottom: one for each row of the
    /// screen, or none at all where it draws nothing.
    pub open spec fn rows(self) -> Seq<Seq<char>> {
        if self.draws() {
            Seq::new(self.size.height as nat, |row: int| self.row_text(row))
        } else {
            Seq::empty()
        }
    }

    /// The state after rendering: once drawn, the screen is up to date.
    pub open spec fn rendered(self) -> ViewState {
        if self.draws() {
            ViewState { redraw: false, ..self }
        } else {
            self
        }
    }

    /// The cursor's cell on the screen: its cell in the text, counted from
    /// the window's corner, and 0 on an axis on which it lies before the window.
    pub open spec fn caret_position(self) -> Position {
        self.cursor_position().saturating_sub(self.scroll_offset)
    }
}

/// Scrolling on one axis puts the cell inside the window, if the window has
/// an extent at all.
pub proof fn lemma_scrolled_offset_shows(at: usize, offset: usize, extent: usize)
    requires
        extent > 0,
    ensures
        scrolled_offset(at, offset, extent) <= at < scrolled_offset(at, offset, extent) + extent,
{
}

/// A window that shows the cell already stays where it is.
pub proof fn lemma_scrolled_offset_rests(at: usize, offset: usize, extent: usize)
    requires
        offset <= at < offset + extent,
    ensures
        scrolled_offset(at, offset, extent) == offset,
{
}

/// While the cursor is inside the window, scrolling changes nothing at all:
/// the window stays, and no redraw is asked for that was not due already.
pub proof fn lemma_scroll_rests_in_view(state: ViewState)
    requires
        state.cursor_in_view(),
    ensures
        state.scrolled_into_view() == state,
{
}

/// Scrolling never takes back a redraw that is due, and so neither does a
/// movement: only rendering does.
pub proof fn lemma_moved_keeps_redraw(state: ViewState, direction: Direction)
    requires
        state.redraw,
    ensures
        state.scrolled_into_view().redraw,
        state.moved(direction).redraw,
{
}

/// After a movement the cursor is inside the window, on a screen that has
/// both a width and a height. Nothing is asked of the state before.
pub proof fn lemma_moved_cursor_in_view(state: ViewState, direction: Direction)
    requires
        state.size.width > 0,
        state.size.height > 0,
    ensures
        state.moved(direction).cursor_in_view(),
{
}

/// After any run of movements, however long, the cursor is inside the
/// window, on a screen that has both a width and a height.
pub proof fn lemma_moved_all_cursor_in_view(state: ViewState, directions: Seq<Direction>)
    requires
        state.size.width > 0,
        state.size.height > 0,
        directions.len() > 0,
    ensures
        state.moved_all(directions).cursor_in_view(),
{
    lemma_moved_all_keeps_size(state, directions.drop_last());
    lemma_moved_cursor_in_view(state.moved_all(directions.drop_last()), directions.last());
}

/// Movements change neither the text nor the size of the screen.
pub proof fn lemma_moved_all_keeps_size(state: ViewState, directions: Seq<Direction>)
    ensures
        state.moved_all(directions).size == state.size,
        state.moved_all(directions).lines == state.lines,
    decreases directions.len(),
{
    if directions.len() > 0 {
        lemma_moved_all_keeps_size(state, directions.drop_last());
    }
}

/// Going to the beginning of the line twice is the same as going there
/// once: the cursor is at grapheme 0, and neither it nor the window moves
/// the second time.
pub proof fn lemma_home_twice(state: ViewState)
    ensures
        state.moved(Direction::Home).location.grapheme_index == 0,
        state.moved(Direction::Home).moved(Direction::Home).location.grapheme_index == 0,
        state.moved(Direction::Home).moved(Direction::Home).location == state.moved(
            Direction::Home,
        ).location,
{
}

/// Going to the end of the line twice is the same as going there once: the
/// second time leaves the cursor where the first one put it.
pub proof fn lemma_end_twice(state: ViewState)
    ensures
        state.moved(Direction::End).moved(Direction::End).location == state.moved(
            Direction::End,
        ).location,
{
}

/// After a movement the cursor stands on a line of the text or just below
/// the last one.
pub proof fn lemma_moved_cursor_on_line(state: ViewState, direction: Direction)
    requires
        state.countable(),
    ensures
        state.moved(direction).cursor_on_line(),
{
}

/// A cursor that stands on a grapheme of its line, or just after the last
/// one, does so after a movement too, unless the movement is by a page: that
/// one changes the line and leaves the grapheme index as it is.
pub proof fn lemma_moved_cursor_on_grapheme(state: ViewState, direction: Direction)
    requires
        state.countable(),
        state.cursor_on_line(),
        state.cursor_on_grapheme(),
        direction != Direction::PageUp,
        direction != Direction::PageDown,
    ensures
        state.moved(direction).cursor_on_grapheme(),
{
}

} // verus!
