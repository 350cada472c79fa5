use hecto::{
    Editor, Event, KeyCode, KeyEvent, KeyEventKind, KeyModifiers, Location, Position, Size, View,
};

const NONE: KeyModifiers = KeyModifiers {
    shift: false,
    control: false,
    alt: false,
    super_key: false,
    hyper: false,
    meta: false,
};

fn editor_of(text: &str, width: usize, height: usize) -> Editor {
    let mut view = View::new(Size { width, height });
    view.load(Ok(String::from(text))).unwrap();
    Editor::new(view)
}

fn press(code: KeyCode) -> Event {
    Event::Key(KeyEvent { code, modifiers: NONE, kind: KeyEventKind::Press })
}

fn control_q(kind: KeyEventKind) -> Event {
    let modifiers = KeyModifiers { control: true, ..NONE };
    Event::Key(KeyEvent { code: KeyCode::Char('q'), modifiers, kind })
}

#[test]
fn new_editor_does_not_quit() {
    let editor = editor_of("abc\n", 10, 4);
    assert!(!editor.should_quit());
    assert_eq!(editor.current_view().buffer().height(), 1);
}

#[test]
fn pressing_control_q_quits_and_leaves_the_view_alone() {
    let mut editor = editor_of("abc\ndef\n", 10, 4);
    editor.evaluate_event(press(KeyCode::Down));
    editor.evaluate_event(control_q(KeyEventKind::Press));
    assert!(editor.should_quit());
    assert_eq!(
        editor.current_view().text_location(),
        Location { grapheme_index: 0, line_index: 1 }
    );
}

#[test]
fn keys_that_are_not_pressed_are_not_heeded() {
    let mut editor = editor_of("abc\ndef\n", 10, 4);
    for kind in [KeyEventKind::Release, KeyEventKind::Repeat] {
        editor.evaluate_event(control_q(kind));
        editor.evaluate_event(Event::Key(KeyEvent { code: KeyCode::Down, modifiers: NONE, kind }));
    }
    assert!(!editor.should_quit());
    assert_eq!(
        editor.current_view().text_location(),
        Location { grapheme_index: 0, line_index: 0 }
    );
}

#[test]
fn pressed_movement_keys_move_the_cursor() {
    let mut editor = editor_of("abc\ndef\n", 10, 4);
    editor.evaluate_event(press(KeyCode::Down));
    editor.evaluate_event(press(KeyCode::End));
    assert_eq!(
        editor.current_view().text_location(),
        Location { grapheme_index: 3, line_index: 1 }
    );
    assert!(!editor.should_quit());
}

#[test]
fn unsupported_events_change_nothing() {
    let mut editor = editor_of("abc\ndef\n", 10, 4);
    editor.refresh_screen();
    editor.evaluate_event(press(KeyCode::Char('x')));
    editor.evaluate_event(press(KeyCode::Other));
    editor.evaluate_event(Event::Other);
    assert!(!editor.should_quit());
    assert!(!editor.current_view().needs_redraw());
    assert_eq!(
        editor.current_view().text_location(),
        Location { grapheme_index: 0, line_index: 0 }
    );
}

#[test]
fn a_new_size_reaches_the_view() {
    let mut editor = editor_of("abc\n", 10, 4);
    editor.refresh_screen();
    editor.evaluate_event(Event::Resize(3, 2));
    assert_eq!(editor.current_view().size(), Size { width: 3, height: 2 });
    assert!(editor.current_view().needs_redraw());
}

#[test]
fn refresh_gives_the_rows_and_the_caret() {
    let mut editor = editor_of("abc\ndef\n", 2, 3);
    editor.evaluate_event(press(KeyCode::End));
    let frame = editor.refresh_screen();
    assert_eq!(frame.rows, vec!["c", "f", "~"]);
    assert_eq!(frame.caret, Position { col: 1, row: 0 });
    let frame = editor.refresh_screen();
    assert!(frame.rows.is_empty());
    assert_eq!(frame.caret, Position { col: 1, row: 0 });
}
