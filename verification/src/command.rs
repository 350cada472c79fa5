//! What the user can ask of the viewer.

use crate::terminal::Size;
use vstd::prelude::*;

verus! {

/// A movement of the cursor.
#[derive(Clone, Copy, Debug, PartialEq, Eq, Structural)]
pub enum Direction {
    Up,
    Down,
    Left,
    Right,
    PageUp,
    PageDown,
    Home,
    End,
}

/// A request to the viewer.
#[derive(Clone, Copy, Debug, PartialEq, Eq, Structural)]
pub enum EditorCommand {
    Move(Direction),
    Resize(Size),
    Quit,
}

/// The key of a key event, as far as the viewer tells keys apart.
#[derive(Clone, Copy, Debug, PartialEq, Eq, Structural)]
pub enum KeyCode {
    Char(char),
    Up,
    Down,
    Left,
    Right,
    PageUp,
    PageDown,
    Home,
    End,
    /// Any other key.
    Other,
}

/// The modifier keys held down with a key.
#[derive(Clone, Copy, Debug, PartialEq, Eq, Structural)]
pub struct KeyModifiers {
    pub shift: bool,
    pub control: bool,
    pub alt: bool,
    pub super_key: bool,
    pub hyper: bool,
    pub meta: bool,
}

impl KeyModifiers {
    /// Whether Control is held down, and no other modifier.
    pub open spec fn spec_is_control_only(&self) -> bool {
        self.control && !self.shift && !self.alt && !self.super_key && !self.hyper && !self.meta
    }

    #[verifier::when_used_as_spec(spec_is_control_only)]
    pub fn is_control_only(&self) -> (only: bool)
        ensures
            only == self.spec_is_control_only(),
    {
        self.control && !self.shift && !self.alt && !self.super_key && !self.hyper && !self.meta
    }
}

/// What happened to the key.
#[derive(Clone, Copy, Debug, PartialEq, Eq, Structural)]
pub enum KeyEventKind {
    Press,
    Repeat,
    Release,
}

/// A key event.
#[derive(Clone, Copy, Debug, PartialEq, Eq, Structural)]
pub struct KeyEvent {
    pub code: KeyCode,
    pub modifiers: KeyModifiers,
    pub kind: KeyEventKind,
}

/// What the terminal reports.
#[derive(Clone, Copy, Debug, PartialEq, Eq, Structural)]
pub enum Event {
    Key(KeyEvent),
    /// The terminal now has this many columns and this many rows.
    Resize(u16, u16),
    /// Anything else: focus, mouse, pasted text.
    Other,
}

/// Why an event gave no command.
#[derive(Clone, Copy, Debug, PartialEq, Eq, Structural)]
pub enum UnsupportedEvent {
    /// A key that stands for no command.
    KeyCode(KeyCode),
    /// An event that is neither a key nor a new size.
    Event,
}

impl EditorCommand {
    /// The command that an event stands for: Control-Q quits, the arrow and
    /// paging keys move the cursor whatever modifiers are held, a new size
    /// of the terminal resizes the view. Nothing else is a command.
    pub open spec fn spec_try_from(event: Event) -> Result<EditorCommand, UnsupportedEvent> {
        match event {
            Event::Key(key) => match key.code {
                KeyCode::Char(c) => if c == 'q' && key.modifiers.is_control_only() {
                    Ok(EditorCommand::Quit)
                } else {
                    Err(UnsupportedEvent::KeyCode(key.code))
                },
                KeyCode::Up => Ok(EditorCommand::Move(Direction::Up)),
                KeyCode::Down => Ok(EditorCommand::Move(Direction::Down)),
                KeyCode::Left => Ok(EditorCommand::Move(Direction::Left)),
                KeyCode::Right => Ok(EditorCommand::Move(Direction::Right)),
                KeyCode::PageDown => Ok(EditorCommand::Move(Direction::PageDown)),
                KeyCode::PageUp => Ok(EditorCommand::Move(Direction::PageUp)),
                KeyCode::Home => Ok(EditorCommand::Move(Direction::Home)),
                KeyCode::End => Ok(EditorCommand::Move(Direction::End)),
                KeyCode::Other => Err(UnsupportedEvent::KeyCode(key.code)),
            },
            Event::Resize(width, height) => Ok(
                EditorCommand::Resize(Size { width: width as usize, height: height as usize }),
            ),
            Event::Other => Err(UnsupportedEvent::Event),
        }
    }

    /// The command that an event stands for, if it stands for one.
    #[verifier::when_used_as_spec(spec_try_from)]
    pub fn try_from(event: Event) -> (command: Result<EditorCommand, UnsupportedEvent>)
        ensures
            command == Self::spec_try_from(event),
    {
        match event {
            Event::Key(KeyEvent { code, modifiers, .. }) => match code {
                KeyCode::Char('q') if modifiers.is_control_only() => Ok(EditorCommand::Quit),
                KeyCode::Up => Ok(EditorCommand::Move(Direction::Up)),
                KeyCode::Down => Ok(EditorCommand::Move(Direction::Down)),
                KeyCode::Left => Ok(EditorCommand::Move(Direction::Left)),
                KeyCode::Right => Ok(EditorCommand::Move(Direction::Right)),
                KeyCode::PageDown => Ok(EditorCommand::Move(Direction::PageDown)),
                KeyCode::PageUp => Ok(EditorCommand::Move(Direction::PageUp)),
                KeyCode::Home => Ok(EditorCommand::Move(Direction::Home)),
                KeyCode::End => Ok(EditorCommand::Move(Direction::End)),
                _ => Err(UnsupportedEvent::KeyCode(code)),
            },
            Event::Resize(width, height) => {
                let width = width as usize;
                let height = height as usize;
                Ok(EditorCommand::Resize(Size { width, height }))
            },
            Event::Other => Err(UnsupportedEvent::Event),
        }
    }
}

} // verus!
