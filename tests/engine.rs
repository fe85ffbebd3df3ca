use mini_editor::engine::{
    command, saved_notice, Command, Cursor, Editor, KeyCode, KeyEvent, KeyKind, Reaction, Redraw,
    Signal,
};

fn press(code: KeyCode) -> KeyEvent {
    KeyEvent { code, ctrl: false, kind: KeyKind::Press }
}

fn type_str(ed: &mut Editor, s: &str) {
    for c in s.chars() {
        let r = ed.handle_key(press(KeyCode::Char(c)));
        assert_eq!(r, Reaction { signal: Signal::Continue, redraws: vec![Redraw::Print(c)] });
    }
}

fn fresh() -> Editor {
    Editor::open("notes.txt".to_string(), None)
}

#[test]
fn type_hi_enter_yo_escape_saves() {
    let mut ed = fresh();
    type_str(&mut ed, "hi");
    let r = ed.handle_key(press(KeyCode::Enter));
    assert_eq!(r, Reaction { signal: Signal::Continue, redraws: vec![Redraw::NextLine] });
    type_str(&mut ed, "yo");
    let r = ed.handle_key(press(KeyCode::Esc));
    assert_eq!(r.signal, Signal::SaveAndExit);
    assert!(r.redraws.is_empty());
    assert_eq!(ed.contents(), "hi\nyo");
    assert_eq!(ed.filename(), "notes.txt");
}

#[test]
fn typing_appends_in_event_order() {
    let mut ed = fresh();
    type_str(&mut ed, "ab");
    ed.handle_key(press(KeyCode::Enter));
    ed.handle_key(press(KeyCode::Enter));
    type_str(&mut ed, "c d");
    assert_eq!(ed.contents(), "ab\n\nc d");
    assert_eq!(ed.chars(), &['a', 'b', '\n', '\n', 'c', ' ', 'd'][..]);
    assert_eq!(ed.cursor(), Cursor { column: 3, row: 3 });
}

#[test]
fn typing_appends_after_loaded_text() {
    let mut ed = Editor::open("f".to_string(), Some("x\ny".to_string()));
    type_str(&mut ed, "z");
    ed.handle_key(press(KeyCode::Enter));
    assert_eq!(ed.contents(), "x\nyz\n");
    assert_eq!(ed.cursor(), Cursor { column: 0, row: 3 });
}

#[test]
fn backspace_removes_last_char() {
    let mut ed = Editor::open("f".to_string(), Some("ab\ncd".to_string()));
    assert_eq!(ed.cursor(), Cursor { column: 2, row: 2 });
    let r = ed.handle_key(press(KeyCode::Backspace));
    assert_eq!(
        r,
        Reaction {
            signal: Signal::Continue,
            redraws: vec![Redraw::MoveLeft(1), Redraw::Print(' '), Redraw::MoveLeft(1)],
        }
    );
    assert_eq!(ed.contents(), "ab\nc");
    assert_eq!(ed.chars().len(), 4);
    assert_eq!(ed.cursor(), Cursor { column: 1, row: 2 });
}

#[test]
fn backspace_across_line_boundary() {
    let mut ed = Editor::open("f".to_string(), Some("ab\ncd".to_string()));
    ed.handle_key(press(KeyCode::Backspace));
    ed.handle_key(press(KeyCode::Backspace));
    assert_eq!(ed.contents(), "ab\n");
    assert_eq!(ed.cursor(), Cursor { column: 0, row: 2 });
    let r = ed.handle_key(press(KeyCode::Backspace));
    assert_eq!(ed.contents(), "ab");
    assert_eq!(ed.cursor(), Cursor { column: 2, row: 1 });
    assert_eq!(
        r.redraws,
        vec![Redraw::MoveUp(1), Redraw::MoveRight(2), Redraw::Print(' '), Redraw::MoveLeft(1)]
    );
    assert_eq!(r.signal, Signal::Continue);
}

#[test]
fn backspace_from_empty_tail_state() {
    let mut ed = Editor::open("f".to_string(), Some("ab\n".to_string()));
    assert_eq!(ed.cursor(), Cursor { column: 0, row: 2 });
    ed.handle_key(press(KeyCode::Backspace));
    assert_eq!(ed.contents(), "ab");
    assert_eq!(ed.cursor(), Cursor { column: 2, row: 1 });
}

#[test]
fn backspace_joins_onto_empty_line() {
    let mut ed = Editor::open("f".to_string(), Some("ab\n\n".to_string()));
    assert_eq!(ed.cursor(), Cursor { column: 0, row: 3 });
    let r = ed.handle_key(press(KeyCode::Backspace));
    assert_eq!(ed.contents(), "ab\n");
    assert_eq!(ed.cursor(), Cursor { column: 0, row: 2 });
    assert_eq!(
        r.redraws,
        vec![Redraw::MoveUp(1), Redraw::MoveRight(0), Redraw::Print(' '), Redraw::MoveLeft(1)]
    );
}

#[test]
fn backspace_on_empty_buffer_is_noop() {
    let mut ed = fresh();
    assert_eq!(ed.cursor(), Cursor { column: 0, row: 1 });
    let r = ed.handle_key(press(KeyCode::Backspace));
    assert_eq!(r, Reaction { signal: Signal::Continue, redraws: vec![] });
    assert_eq!(ed.contents(), "");
    assert_eq!(ed.cursor(), Cursor { column: 0, row: 1 });
}

#[test]
fn ctrl_s_saves_and_continues() {
    let mut ed = fresh();
    type_str(&mut ed, "a");
    let r = ed.handle_key(KeyEvent { code: KeyCode::Char('s'), ctrl: true, kind: KeyKind::Press });
    assert_eq!(
        r,
        Reaction { signal: Signal::Save, redraws: vec![Redraw::MoveToOrigin, Redraw::SavedNotice] }
    );
    assert_eq!(ed.contents(), "a");
    assert_eq!(ed.cursor(), Cursor { column: 1, row: 1 });
    assert_eq!(saved_notice(), "File Saved!");
}

#[test]
fn ctrl_with_other_char_inserts_it() {
    let mut ed = fresh();
    let r = ed.handle_key(KeyEvent { code: KeyCode::Char('x'), ctrl: true, kind: KeyKind::Press });
    assert_eq!(r.redraws, vec![Redraw::Print('x')]);
    assert_eq!(ed.contents(), "x");
}

#[test]
fn plain_s_inserts_it() {
    let mut ed = fresh();
    type_str(&mut ed, "s");
    assert_eq!(ed.contents(), "s");
}

#[test]
fn only_presses_act() {
    let mut ed = fresh();
    for kind in [KeyKind::Release, KeyKind::Repeat] {
        for code in [KeyCode::Char('a'), KeyCode::Enter, KeyCode::Backspace, KeyCode::Esc] {
            let r = ed.handle_key(KeyEvent { code, ctrl: false, kind });
            assert_eq!(r, Reaction { signal: Signal::Continue, redraws: vec![] });
        }
    }
    assert_eq!(ed.contents(), "");
    assert_eq!(ed.cursor(), Cursor { column: 0, row: 1 });
}

#[test]
fn other_keys_do_nothing() {
    let mut ed = Editor::open("f".to_string(), Some("q".to_string()));
    let r = ed.handle_key(press(KeyCode::Other));
    assert_eq!(r, Reaction { signal: Signal::Continue, redraws: vec![] });
    assert_eq!(ed.contents(), "q");
    assert_eq!(ed.cursor(), Cursor { column: 1, row: 1 });
}

#[test]
fn newline_char_acts_as_enter() {
    let mut ed = fresh();
    let r = ed.handle_key(press(KeyCode::Char('\n')));
    assert_eq!(r.redraws, vec![Redraw::NextLine]);
    assert_eq!(ed.cursor(), Cursor { column: 0, row: 2 });
}

#[test]
fn command_classifies_events() {
    assert_eq!(command(press(KeyCode::Char('a'))), Command::Insert('a'));
    assert_eq!(command(press(KeyCode::Enter)), Command::NewLine);
    assert_eq!(command(press(KeyCode::Backspace)), Command::Erase);
    assert_eq!(command(press(KeyCode::Esc)), Command::SaveAndExit);
    assert_eq!(command(press(KeyCode::Other)), Command::Ignore);
    assert_eq!(
        command(KeyEvent { code: KeyCode::Char('s'), ctrl: true, kind: KeyKind::Press }),
        Command::Save
    );
    assert_eq!(
        command(KeyEvent { code: KeyCode::Enter, ctrl: false, kind: KeyKind::Release }),
        Command::Ignore
    );
}

#[test]
fn open_missing_file_starts_empty() {
    let ed = Editor::open("missing.txt".to_string(), None);
    assert_eq!(ed.contents(), "");
    assert_eq!(ed.cursor(), Cursor { column: 0, row: 1 });
    assert_eq!(ed.filename(), "missing.txt");
}

#[test]
fn open_empty_file_starts_empty() {
    let ed = Editor::open("empty.txt".to_string(), Some(String::new()));
    assert_eq!(ed.contents(), "");
    assert_eq!(ed.cursor(), Cursor { column: 0, row: 1 });
}

#[test]
fn open_places_cursor_at_end() {
    let ed = Editor::open("f".to_string(), Some("one\ntwo\nthree".to_string()));
    assert_eq!(ed.cursor(), Cursor { column: 5, row: 3 });
    assert_eq!(ed.contents(), "one\ntwo\nthree");
}

#[test]
fn new_editor_is_empty() {
    let ed = Editor::new("g".to_string());
    assert_eq!(ed.contents(), "");
    assert_eq!(ed.cursor(), Cursor { column: 0, row: 1 });
    assert_eq!(ed.filename(), "g");
}

#[test]
fn initial_redraws_clear_then_print() {
    let ed = Editor::open("f".to_string(), Some("a\nb".to_string()));
    assert_eq!(
        ed.initial_redraws(),
        vec![
            Redraw::ClearAndHome,
            Redraw::Print('a'),
            Redraw::Print('\n'),
            Redraw::Print('b'),
        ]
    );
    assert_eq!(fresh().initial_redraws(), vec![Redraw::ClearAndHome]);
}
