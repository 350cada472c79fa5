//! The viewer as a whole: it takes the terminal's events one by one, and
//! says after each what the screen is to show.

use crate::command::{EditorCommand, Event, KeyEventKind};
use crate::terminal::Position;
use crate::view::state::ViewState;
use crate::view::View;
use vstd::prelude::*;
use vstd::view::View as _;

verus! {

/// The viewer: its view, and whether the user has asked to leave.
pub struct Editor {
    should_quit: bool,
    view: View,
}

/// The viewer as a mathematical value.
pub struct EditorState {
    pub should_quit: bool,
    pub view: ViewState,
}

/// What one refresh puts on the screen.
pub struct Frame {
    /// The rows to print, top to bottom; none where the screen is up to date.
    pub rows: Vec<String>,
    /// The cell at which the caret is to stand.
    pub caret: Position,
}

impl vstd::view::View for Editor {
    type V = EditorState;

    closed spec fn view(&self) -> EditorState {
        EditorState { should_quit: self.should_quit, view: self.view@ }
    }
}

impl EditorState {
    /// Whether an event is looked at at all: a key only when it is pressed,
    /// a new size always, nothing else.
    pub open spec fn heeds(event: Event) -> bool {
        match event {
            Event::Key(key) => key.kind == KeyEventKind::Press,
            Event::Resize(_, _) => true,
            Event::Other => false,
        }
    }

    /// The state after an event. An event that is heeded and stands for a
    /// command has that command carried out: quitting is noted, any other
    /// goes to the view. Every other event changes nothing.
    pub open spec fn evaluated(self, event: Event) -> EditorState {
        if !Self::heeds(event) {
            self
        } else {
            match EditorCommand::spec_try_from(event) {
                Ok(EditorCommand::Quit) => EditorState { should_quit: true, ..self },
                Ok(command) => EditorState { view: self.view.applied(command), ..self },
                Err(_) => self,
            }
        }
    }
}

impl Editor {
    /// A viewer that shows the given view and has not been asked to leave.
    pub fn new(view: View) -> (editor: Editor)
        ensures
            editor@ == (EditorState { should_quit: false, view: view@ }),
    {
        Editor { should_quit: false, view }
    }

    /// Whether the user has asked to leave.
    pub fn should_quit(&self) -> (quit: bool)
        ensures
            quit == self@.should_quit,
    {
        self.should_quit
    }

    /// The view that the viewer shows.
    pub fn current_view(&self) -> (view: &View)
        ensures
            view@ == self@.view,
    {
        &self.view
    }

    /// Takes one event of the terminal and carries out the command it
    /// stands for, if it is heeded and stands for one.
    pub fn evaluate_event(&mut self, event: Event)
        ensures
            final(self)@ == old(self)@.evaluated(event),
    {
        let should_process = match &event {
            Event::Key(key) => key.kind == KeyEventKind::Press,
            Event::Resize(_, _) => true,
            _ => false,
        };
        if should_process {
            match EditorCommand::try_from(event) {
                Ok(command) => {
                    if matches!(command, EditorCommand::Quit) {
                        self.should_quit = true;
                    } else {
                        self.view.handle_command(command);
                    }
                },
                Err(_) => {},
            }
        }
    }

    /// Renders the view and says where the caret belongs: what the caller
    /// is to print, between hiding the caret and showing it again.
    pub fn refresh_screen(&mut self) -> (frame: Frame)
        ensures
            final(self)@ == (EditorState { view: old(self)@.view.rendered(), ..old(self)@ }),
            frame.rows.deep_view() == old(self)@.view.rows(),
            frame.caret == old(self)@.view.caret_position(),
    {
        let rows = self.view.render();
        let caret = self.view.caret_position();
        Frame { rows, caret }
    }
}

} // verus!
