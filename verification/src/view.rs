//! The view: the text, the cursor in it, and the window of it that the
//! screen shows.

pub mod state;

use crate::buffer::{buffer_lines, Buffer};
use crate::command::{Direction, EditorCommand};
use crate::line::saturated;
use crate::location::Location;
use crate::terminal::{Position, Size};
use crate::text::push_char;
use state::{welcome_message, ViewState, FILLER, NAME, VERSION};
use vstd::prelude::*;
use vstd::view::View as _;

verus! {

/// The text with a cursor in it and a window on it.
pub struct View {
    buffer: Buffer,
    redraw: bool,
    size: Size,
    text_location: Location,
    scroll_offset: Position,
}

impl vstd::view::View for View {
    type V = ViewState;

    closed spec fn view(&self) -> ViewState {
        ViewState {
            lines: self.buffer@,
            redraw: self.redraw,
            size: self.size,
            location: self.text_location,
            scroll_offset: self.scroll_offset,
        }
    }
}

impl View {
    /// A view of no text on a screen of the given size, with the cursor and
    /// the window at the origin, and the screen still to be drawn.
    pub fn new(size: Size) -> (view: View)
        ensures
            view@ == (ViewState {
                lines: Seq::empty(),
                redraw: true,
                size,
                location: Location { grapheme_index: 0, line_index: 0 },
                scroll_offset: Position { col: 0, row: 0 },
            }),
    {
        View {
            buffer: Buffer::default(),
            redraw: true,
            size,
            text_location: Location { grapheme_index: 0, line_index: 0 },
            scroll_offset: Position { col: 0, row: 0 },
        }
    }

    /// A view of the given text on a screen of the given size, with the
    /// cursor and the window at the origin, and the screen still to be drawn.
    pub fn with_buffer(buffer: Buffer, size: Size) -> (view: View)
        ensures
            view@ == (ViewState {
                lines: buffer@,
                redraw: true,
                size,
                location: Location { grapheme_index: 0, line_index: 0 },
                scroll_offset: Position { col: 0, row: 0 },
            }),
    {
        View {
            buffer,
            redraw: true,
            size,
            text_location: Location { grapheme_index: 0, line_index: 0 },
            scroll_offset: Position { col: 0, row: 0 },
        }
    }

    /// Where the cursor is in the text.
    pub fn text_location(&self) -> (location: Location)
        ensures
            location == self@.location,
    {
        self.text_location
    }

    /// The cell of the text shown in the top left corner of the screen.
    pub fn scroll_offset(&self) -> (offset: Position)
        ensures
            offset == self@.scroll_offset,
    {
        self.scroll_offset
    }

    /// The extent of the screen.
    pub fn size(&self) -> (size: Size)
        ensures
            size == self@.size,
    {
        self.size
    }

    /// Whether the screen has to be drawn again.
    pub fn needs_redraw(&self) -> (redraw: bool)
        ensures
            redraw == self@.redraw,
    {
        self.redraw
    }

    /// The text.
    pub fn buffer(&self) -> (buffer: &Buffer)
        ensures
            buffer@ == self@.lines,
    {
        &self.buffer
    }

    /// The text of a view is one that fits in memory.
    pub proof fn lemma_state_countable(&self)
        ensures
            self@.countable(),
    {
        assert(self.buffer@.len() == self.buffer.lines.len());
        assert forall|i: int| 0 <= i < self@.lines.len() implies (#[trigger] self@.lines[i]).len()
            <= usize::MAX by {
            self.buffer.lines@[i].lemma_grapheme_count_fits();
        }
    }

    /// Draws the screen, if it is due and has both a width and a height:
    /// hands back its rows, top to bottom, for the caller to print, and
    /// notes that the screen is up to date. Otherwise hands back no row and
    /// changes nothing.
    pub fn render(&mut self) -> (rows: Vec<String>)
        ensures
            final(self)@ == old(self)@.rendered(),
            rows.deep_view() == old(self)@.rows(),
    {
        let Size { height, width } = self.size;
        let mut rows: Vec<String> = Vec::new();
        if !self.redraw || height == 0 || width == 0 {
            return rows;
        }
        let top = self.scroll_offset.row;
        let left = self.scroll_offset.col;
        let right = left.saturating_add(width);
        let mut row: usize = 0;
        while row < height
            invariant
                row <= height,
                *self == *old(self),
                self@.draws(),
                height == self.size.height,
                width == self.size.width,
                top == self.scroll_offset.row,
                left == self.scroll_offset.col,
                right == saturated((left + width) as nat),
                rows@.len() == row,
                forall|r: int| 0 <= r < row ==> (#[trigger] rows@[r])@ == self@.row_text(r),
            decreases height - row,
        {
            let line_index = row.saturating_add(top);
            let text = if line_index < self.buffer.lines.len() {
                self.buffer.lines[line_index].get_visible_graphemes(left..right)
            } else if self.buffer.is_empty() && row == height / 3 {
                Self::generate_welcome_message(width)
            } else {
                let mut filler = String::new();
                push_char(&mut filler, FILLER);
                filler
            };
            rows.push(text);
            row += 1;
        }
        self.redraw = false;
        rows
    }

    /// The row that greets the user on a screen `width` columns wide.
    pub fn generate_welcome_message(width: usize) -> (message: String)
        ensures
            message@ == welcome_message(width),
    {
        let mut text = String::new();
        text.append("Welcome to ");
        text.append(NAME);
        text.append(" -- version ");
        text.append(VERSION);
        let padding = width.saturating_sub(text.as_str().unicode_len()) / 2;
        let mut message = String::new();
        push_char(&mut message, FILLER);
        let mut i: usize = 0;
        while i < padding
            invariant
                i <= padding,
                message@ == seq![FILLER] + Seq::new(i as nat, |i: int| ' '),
            decreases padding - i,
        {
            push_char(&mut message, ' ');
            i += 1;
        }
        message.append(text.as_str());
        message
    }

    /// Takes in what reading a file gave. A text replaces the buffer, and
    /// the screen has to be drawn again. A failure to read is passed over in
    /// silence: the view stays exactly as it was, and the call still
    /// succeeds.
    pub fn load(&mut self, read: Result<String, std::io::Error>) -> (outcome: Result<(), std::io::Error>)
        ensures
            outcome is Ok,
            match read {
                Ok(text) => final(self)@ == old(self)@.loaded(buffer_lines(text@)),
                Err(_) => *final(self) == *old(self),
            },
    {
        if let Ok(buffer) = Buffer::load(read) {
            self.buffer = buffer;
            self.redraw = true;
        }
        Ok(())
    }

    /// Takes the new size of the screen, which has to be drawn again.
    pub fn resize(&mut self, size: Size)
        ensures
            final(self)@ == old(self)@.resized(size),
    {
        self.size = size;
        self.redraw = true;
    }

    /// The cell of the laid-out text at which the cursor stands.
    pub fn text_location_to_position(&self) -> (position: Position)
        ensures
            position == self@.cursor_position(),
    {
        let row = self.text_location.line_index;
        let col = if row < self.buffer.lines.len() {
            self.buffer.lines[row].width_until(self.text_location.grapheme_index)
        } else {
            0
        };
        Position { col, row }
    }

    /// Moves the window, on each axis by itself, just far enough to show
    /// the cursor, and asks for the screen to be drawn again if the window
    /// moved; a redraw that was due already stays due. On a screen that has
    /// both a width and a height the cursor is inside the window afterwards.
    pub fn scroll_location_into_view(&mut self)
        ensures
            final(self)@ == old(self)@.scrolled_into_view(),
            old(self)@.size.width > 0 && old(self)@.size.height > 0
                ==> final(self)@.cursor_in_view(),
    {
        let Position { col, row } = self.text_location_to_position();
        let Size { width, height } = self.size;
        let before = self.scroll_offset;

        if row < before.row {
            self.scroll_offset.row = row;
        } else if row - before.row >= height {
            self.scroll_offset.row = (row - height).saturating_add(1);
        }
        if col < before.col {
            self.scroll_offset.col = col;
        } else if col - before.col >= width {
            self.scroll_offset.col = (col - width).saturating_add(1);
        }
        if self.scroll_offset.row != before.row || self.scroll_offset.col != before.col {
            self.redraw = true;
        }
    }

    /// Moves the cursor, then the window after it.
    pub fn move_text_location(&mut self, direction: &Direction)
        ensures
            final(self)@ == old(self)@.moved(*direction),
            final(self)@.location.line_index <= final(self)@.lines.len(),
            old(self)@.size.width > 0 && old(self)@.size.height > 0
                ==> final(self)@.cursor_in_view(),
    {
        let Location { mut grapheme_index, mut line_index } = self.text_location;
        let page = self.size.height;
        let height = self.buffer.height();
        match direction {
            Direction::Up => {
                line_index = line_index.saturating_sub(1);
                if line_index < height {
                    let last = self.buffer.lines[line_index].grapheme_count().saturating_sub(1);
                    if last < grapheme_index {
                        grapheme_index = last;
                    }
                }
            },
            Direction::Down => {
                line_index = line_index.saturating_add(1);
                if line_index >= height {
                    grapheme_index = 0;
                } else {
                    let last = self.buffer.lines[line_index].grapheme_count().saturating_sub(1);
                    if last < grapheme_index {
                        grapheme_index = last;
                    }
                }
            },
            Direction::Left => {
                if grapheme_index > 0 {
                    grapheme_index = grapheme_index - 1;
                } else if 0 < line_index && line_index <= height {
                    line_index = line_index - 1;
                    grapheme_index = self.buffer.lines[line_index].grapheme_count().saturating_sub(
                        1,
                    );
                }
            },
            Direction::Right => {
                if line_index < height {
                    if grapheme_index < self.buffer.lines[line_index].grapheme_count() {
                        grapheme_index = grapheme_index + 1;
                    } else {
                        line_index = line_index + 1;
                        grapheme_index = 0;
                    }
                } else {
                    grapheme_index = 0;
                }
            },
            Direction::PageUp => {
                line_index = line_index.saturating_sub(page);
            },
            Direction::PageDown => {
                line_index = line_index.saturating_add(page);
            },
            Direction::Home => {
                grapheme_index = 0;
            },
            Direction::End => {
                grapheme_index = if line_index < height {
                    self.buffer.lines[line_index].grapheme_count()
                } else {
                    0
                };
            },
        }
        if line_index > height {
            line_index = height;
        }
        self.text_location = Location { grapheme_index, line_index };
        self.scroll_location_into_view();
    }

    /// Carries out a command: a movement or a new screen size. Quitting is
    /// left to the caller, and changes nothing here.
    pub fn handle_command(&mut self, command: EditorCommand)
        ensures
            final(self)@ == old(self)@.applied(command),
            command is Move ==> final(self)@.location.line_index <= final(self)@.lines.len(),
            command is Move && old(self)@.size.width > 0 && old(self)@.size.height > 0
                ==> final(self)@.cursor_in_view(),
    {
        match command {
            EditorCommand::Quit => {},
            EditorCommand::Move(direction) => self.move_text_location(&direction),
            EditorCommand::Resize(size) => self.resize(size),
        }
    }

    /// Where the caret belongs on the screen.
    pub fn caret_position(&self) -> (position: Position)
        ensures
            position == self@.caret_position(),
    {
        self.text_location_to_position().saturating_sub(self.scroll_offset)
    }
}

} // verus!
