//! A terminal text viewer's core: lines made of grapheme clusters with their
//! screen widths, a buffer of such lines, and the view that moves a cursor
//! through the buffer and scrolls to keep it on screen.

pub mod buffer;
pub mod command;
pub mod editor;
pub mod line;
pub mod location;
pub mod terminal;
mod text;
pub mod unicode;
pub mod view;

pub use buffer::Buffer;
pub use command::{
    Direction, EditorCommand, Event, KeyCode, KeyEvent, KeyEventKind, KeyModifiers, UnsupportedEvent,
};
pub use editor::{Editor, EditorState, Frame};
pub use line::{Grapheme, GraphemeView, GraphemeWidth, Line};
pub use location::Location;
pub use terminal::{Position, Size};
pub use view::state::ViewState;
pub use view::View;
