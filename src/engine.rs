//! The editing engine: a text buffer with an append-position cursor, driven
//! by key events, answering each with redraw instructions and a control
//! signal.
use vstd::prelude::*;

use crate::lines::{
    last_line_len, lemma_bounds, lemma_ends_in_char, lemma_ends_in_separator, lemma_push_char,
    lemma_push_separator, line_count,
};

verus! {

/// The key of a key event.
#[derive(Clone, Copy, Debug, PartialEq, Eq, Structural)]
pub enum KeyCode {
    Char(char),
    Enter,
    Backspace,
    Esc,
    Other,
}

/// Whether a key event reports a press, a repeat or a release.
#[derive(Clone, Copy, Debug, PartialEq, Eq, Structural)]
pub enum KeyKind {
    Press,
    Repeat,
    Release,
}

/// A key event. `ctrl` holds when Control, and no other modifier, was down.
#[derive(Clone, Copy, Debug, PartialEq, Eq, Structural)]
pub struct KeyEvent {
    pub code: KeyCode,
    pub ctrl: bool,
    pub kind: KeyKind,
}

/// What a key event asks of the editor.
#[derive(Clone, Copy, Debug, PartialEq, Eq, Structural)]
pub enum Command {
    Insert(char),
    NewLine,
    Erase,
    Save,
    SaveAndExit,
    Ignore,
}

/// What the driver does after a key event.
#[derive(Clone, Copy, Debug, PartialEq, Eq, Structural)]
pub enum Signal {
    Continue,
    Save,
    SaveAndExit,
}

/// One update of the terminal display.
#[derive(Clone, Copy, Debug, PartialEq, Eq, Structural)]
pub enum Redraw {
    /// Print a character at the cursor.
    Print(char),
    /// Move the cursor left by the given number of columns.
    MoveLeft(usize),
    /// Move the cursor right by the given number of columns.
    MoveRight(usize),
    /// Move the cursor up by the given number of rows.
    MoveUp(usize),
    /// Move the cursor to the start of the next line.
    NextLine,
    /// Clear the screen and move the cursor to the origin.
    ClearAndHome,
    /// Move the cursor to the origin.
    MoveToOrigin,
    /// Print the notice that the file was saved.
    SavedNotice,
}

/// The logical cursor: `row` counts the lines up to and including the
/// cursor's line (from 1), `column` is the offset within that line (from 0).
#[derive(Clone, Copy, Debug, PartialEq, Eq, Structural)]
pub struct Cursor {
    pub column: usize,
    pub row: usize,
}

/// The answer to one key event.
#[derive(Debug, PartialEq, Eq)]
pub struct Reaction {
    pub signal: Signal,
    pub redraws: Vec<Redraw>,
}

/// The command of a key event: only presses act; Control with `s` saves.
pub open spec fn command_of(e: KeyEvent) -> Command {
    if e.kind != KeyKind::Press {
        Command::Ignore
    } else {
        match e.code {
            KeyCode::Char(c) => if e.ctrl && c == 's' {
                Command::Save
            } else if c == '\n' {
                Command::NewLine
            } else {
                Command::Insert(c)
            },
            KeyCode::Enter => Command::NewLine,
            KeyCode::Backspace => Command::Erase,
            KeyCode::Esc => Command::SaveAndExit,
            KeyCode::Other => Command::Ignore,
        }
    }
}

/// The text after `cmd`: characters and separators are appended, an erase
/// removes the last character (a separator included) if there is one.
pub open spec fn text_after(text: Seq<char>, cmd: Command) -> Seq<char> {
    match cmd {
        Command::Insert(c) => text.push(c),
        Command::NewLine => text.push('\n'),
        Command::Erase => if text.len() > 0 {
            text.drop_last()
        } else {
            text
        },
        _ => text,
    }
}

/// The cursor after `cmd`, from the cursor before and the text after.
pub open spec fn cursor_after(cur: Cursor, text: Seq<char>, cmd: Command) -> Cursor {
    match cmd {
        Command::Insert(_) => Cursor { column: (cur.column + 1) as usize, row: cur.row },
        Command::NewLine => Cursor { column: 0, row: (cur.row + 1) as usize },
        Command::Erase => if cur.column > 0 {
            Cursor { column: (cur.column - 1) as usize, row: cur.row }
        } else if cur.row > 1 {
            Cursor { column: last_line_len(text) as usize, row: (cur.row - 1) as usize }
        } else {
            cur
        },
        _ => cur,
    }
}

/// The redraw instructions for `cmd`, from the cursors before and after.
pub open spec fn redraws_for(cur: Cursor, next: Cursor, cmd: Command) -> Seq<Redraw> {
    match cmd {
        Command::Insert(c) => seq![Redraw::Print(c)],
        Command::NewLine => seq![Redraw::NextLine],
        Command::Erase => if cur.column > 0 {
            seq![Redraw::MoveLeft(1), Redraw::Print(' '), Redraw::MoveLeft(1)]
        } else if cur.row > 1 {
            seq![
                Redraw::MoveUp(1),
                Redraw::MoveRight(next.column),
                Redraw::Print(' '),
                Redraw::MoveLeft(1),
            ]
        } else {
            seq![]
        },
        Command::Save => seq![Redraw::MoveToOrigin, Redraw::SavedNotice],
        _ => seq![],
    }
}

/// The control signal for `cmd`.
pub open spec fn signal_for(cmd: Command) -> Signal {
    match cmd {
        Command::Save => Signal::Save,
        Command::SaveAndExit => Signal::SaveAndExit,
        _ => Signal::Continue,
    }
}

/// The cursor that stands at the end of `text`.
pub open spec fn end_cursor(text: Seq<char>) -> Cursor {
    Cursor { column: last_line_len(text) as usize, row: line_count(text) as usize }
}

/// The redraw instructions that show `text` on a fresh screen: clear it,
/// then print each character in order.
pub open spec fn startup_redraws(text: Seq<char>) -> Seq<Redraw>
    decreases text.len(),
{
    if text.len() == 0 {
        seq![Redraw::ClearAndHome]
    } else {
        startup_redraws(text.drop_last()).push(Redraw::Print(text.last()))
    }
}

/// Classifies a key event.
pub fn command(e: KeyEvent) -> (r: Command)
    ensures
        r == command_of(e),
{
    if e.kind != KeyKind::Press {
        return Command::Ignore;
    }
    match e.code {
        KeyCode::Char(c) => {
            if e.ctrl && c == 's' {
                Command::Save
            } else if c == '\n' {
                Command::NewLine
            } else {
                Command::Insert(c)
            }
        },
        KeyCode::Enter => Command::NewLine,
        KeyCode::Backspace => Command::Erase,
        KeyCode::Esc => Command::SaveAndExit,
        KeyCode::Other => Command::Ignore,
    }
}

/// The length of the last line of `buf`.
fn last_line_length(buf: &Vec<char>) -> (r: usize)
    ensures
        r == last_line_len(buf@),
{
    let mut i: usize = buf.len();
    assert(buf@.take(i as int) =~= buf@);
    while i > 0 && buf[i - 1] != '\n'
        invariant
            i <= buf.len(),
            last_line_len(buf@) == last_line_len(buf@.take(i as int)) + (buf.len() - i),
        decreases i,
    {
        assert(buf@.take(i as int).drop_last() =~= buf@.take(i - 1));
        i = i - 1;
    }
    if i == 0 {
        assert(buf@.take(0) =~= Seq::<char>::empty());
    }
    buf.len() - i
}

/// Relies on `String::from_iter` over `&char`: the string holds the
/// characters in order.
#[verifier::external_body]
fn chars_to_string(v: &Vec<char>) -> (r: String)
    ensures
        r@ == v@,
{
    String::from_iter(v.iter())
}

/// The text of the notice that the file was saved.
pub fn saved_notice() -> (r: &'static str)
    ensures
        r@ == "File Saved!"@,
{
    "File Saved!"
}

/// Whether `e` types a character or a line separator: a press of Enter, or of
/// a character key that is not Control with `s`.
pub open spec fn is_typing(e: KeyEvent) -> bool {
    &&& e.kind == KeyKind::Press
    &&& match e.code {
        KeyCode::Char(c) => !(e.ctrl && c == 's'),
        KeyCode::Enter => true,
        _ => false,
    }
}

/// What `events` type: each character key gives its character, each Enter a
/// separator.
pub open spec fn typed(events: Seq<KeyEvent>) -> Seq<char>
    decreases events.len(),
{
    if events.len() == 0 {
        seq![]
    } else {
        typed(events.drop_last()).push(
            match events.last().code {
                KeyCode::Char(c) => c,
                _ => '\n',
            },
        )
    }
}

/// The text after handling `events` in order, starting from `text`.
pub open spec fn text_after_events(text: Seq<char>, events: Seq<KeyEvent>) -> Seq<char>
    decreases events.len(),
{
    if events.len() == 0 {
        text
    } else {
        text_after(text_after_events(text, events.drop_last()), command_of(events.last()))
    }
}

/// Typing appends: after character and Enter events the text is the text
/// before followed by the characters typed, with a separator for each Enter,
/// in event order. From an empty buffer it is exactly what was typed.
pub proof fn lemma_typing_appends(start: Seq<char>, events: Seq<KeyEvent>)
    requires
        forall|i: int| 0 <= i < events.len() ==> is_typing(#[trigger] events[i]),
    ensures
        text_after_events(start, events) == start + typed(events),
        text_after_events(seq![], events) == typed(events),
    decreases events.len(),
{
    if events.len() > 0 {
        let rest = events.drop_last();
        assert forall|i: int| 0 <= i < rest.len() implies is_typing(#[trigger] rest[i]) by {
            assert(rest[i] == events[i]);
        }
        lemma_typing_appends(start, rest);
        assert(is_typing(events[events.len() - 1]));
        assert(text_after_events(start, events) =~= start + typed(events));
        assert(text_after_events(seq![], events) =~= typed(events));
    }
}

/// Backspace on a text whose last character is not a separator removes
/// exactly that character, shortens the text by one and moves the cursor
/// one column left on the same row.
pub proof fn lemma_backspace_removes_last_char(text: Seq<char>, cur: Cursor, event: KeyEvent)
    requires
        cur.column == last_line_len(text),
        cur.row == line_count(text),
        text.len() > 0,
        text.last() != '\n',
        event.kind == KeyKind::Press,
        event.code == KeyCode::Backspace,
    ensures
        text_after(text, command_of(event)) == text.drop_last(),
        text_after(text, command_of(event)).len() == text.len() - 1,
        cursor_after(cur, text_after(text, command_of(event)), command_of(event)) == (Cursor {
            column: (cur.column - 1) as usize,
            row: cur.row,
        }),
{
}

/// The editing engine: a buffer, the cursor at its end, and the name of the
/// file that it is saved to.
pub struct Editor {
    buffer: Vec<char>,
    cursor: Cursor,
    filename: String,
}

impl Editor {
    /// The text of the buffer.
    pub closed spec fn spec_text(&self) -> Seq<char> {
        self.buffer@
    }

    /// The cursor.
    pub closed spec fn spec_cursor(&self) -> Cursor {
        self.cursor
    }

    /// The name of the file that the buffer is saved to.
    pub closed spec fn spec_filename(&self) -> Seq<char> {
        self.filename@
    }

    /// The cursor stands at the end of the text.
    pub open spec fn wf(&self) -> bool {
        &&& self.spec_cursor().row == line_count(self.spec_text())
        &&& self.spec_cursor().column == last_line_len(self.spec_text())
    }

    /// An editor on `filename` with an empty buffer.
    pub fn new(filename: String) -> (r: Editor)
        ensures
            r.wf(),
            r.spec_text() == Seq::<char>::empty(),
            r.spec_cursor() == (Cursor { column: 0, row: 1 }),
            r.spec_filename() == filename@,
    {
        Editor { buffer: Vec::new(), cursor: Cursor { column: 0, row: 1 }, filename }
    }

    /// An editor on `filename` holding what was loaded from it, or an empty
    /// buffer where loading failed (`None`); the cursor stands at the end.
    pub fn open(filename: String, loaded: Option<String>) -> (r: Editor)
        requires
            loaded matches Some(s) ==> s@.len() + 2 <= usize::MAX,
        ensures
            r.wf(),
            r.spec_filename() == filename@,
            r.spec_text() == match loaded {
                Some(s) => s@,
                None => Seq::<char>::empty(),
            },
            r.spec_cursor() == end_cursor(r.spec_text()),
    {
        let mut editor = Editor::new(filename);
        match loaded {
            Some(s) => {
                let ghost content = s@;
                for c in it: s.chars()
                    invariant
                        editor.wf(),
                        editor.spec_filename() == filename@,
                        it.seq() == content,
                        content.len() + 2 <= usize::MAX,
                        editor.spec_text() == content.take(it.index() as int),
                {
                    assert(content.take(it.index() + 1) =~= content.take(it.index() as int).push(c));
                    editor.append(c);
                }
                assert(content.take(content.len() as int) =~= content);
            },
            None => {},
        }
        editor
    }

    /// The redraw instructions that show the buffer on a fresh screen.
    pub fn initial_redraws(&self) -> (r: Vec<Redraw>)
        ensures
            r@ == startup_redraws(self.spec_text()),
    {
        let mut r: Vec<Redraw> = Vec::new();
        r.push(Redraw::ClearAndHome);
        let mut i: usize = 0;
        assert(self.buffer@.take(0) =~= Seq::<char>::empty());
        assert(r@ =~= startup_redraws(self.buffer@.take(0)));
        while i < self.buffer.len()
            invariant
                i <= self.buffer.len(),
                r@ == startup_redraws(self.buffer@.take(i as int)),
            decreases self.buffer.len() - i,
        {
            assert(self.buffer@.take(i + 1).drop_last() =~= self.buffer@.take(i as int));
            r.push(Redraw::Print(self.buffer[i]));
            i = i + 1;
        }
        assert(self.buffer@.take(i as int) =~= self.buffer@);
        r
    }

    /// The text of the buffer, as saved.
    pub fn contents(&self) -> (r: String)
        ensures
            r@ == self.spec_text(),
    {
        chars_to_string(&self.buffer)
    }

    /// The characters of the buffer.
    pub fn chars(&self) -> (r: &[char])
        ensures
            r@ == self.spec_text(),
    {
        self.buffer.as_slice()
    }

    /// The cursor.
    pub fn cursor(&self) -> (r: Cursor)
        ensures
            r == self.spec_cursor(),
    {
        self.cursor
    }

    /// The name of the file that the buffer is saved to.
    pub fn filename(&self) -> (r: &str)
        ensures
            r@ == self.spec_filename(),
    {
        self.filename.as_str()
    }

    /// Appends a character or a separator, moving the cursor along.
    fn append(&mut self, c: char)
        requires
            old(self).wf(),
            old(self).spec_text().len() + 2 <= usize::MAX,
        ensures
            final(self).wf(),
            final(self).spec_filename() == old(self).spec_filename(),
            final(self).spec_text() == old(self).spec_text().push(c),
            c != '\n' ==> final(self).spec_cursor() == (Cursor {
                column: (old(self).spec_cursor().column + 1) as usize,
                row: old(self).spec_cursor().row,
            }),
            c == '\n' ==> final(self).spec_cursor() == (Cursor {
                column: 0,
                row: (old(self).spec_cursor().row + 1) as usize,
            }),
    {
        proof {
            lemma_bounds(self.buffer@);
        }
        let ghost before = self.buffer@;
        self.buffer.push(c);
        if c == '\n' {
            proof {
                lemma_push_separator(before);
            }
            self.cursor = Cursor { column: 0, row: self.cursor.row + 1 };
        } else {
            proof {
                lemma_push_char(before, c);
            }
            self.cursor = Cursor { column: self.cursor.column + 1, row: self.cursor.row };
        }
    }
    /// Removes the last character, a separator included, and moves the
    /// cursor back; on an empty buffer it does nothing.
    fn erase(&mut self) -> (r: Vec<Redraw>)
        requires
            old(self).wf(),
        ensures
            final(self).wf(),
            final(self).spec_filename() == old(self).spec_filename(),
            final(self).spec_text() == text_after(old(self).spec_text(), Command::Erase),
            final(self).spec_cursor() == cursor_after(
                old(self).spec_cursor(),
                final(self).spec_text(),
                Command::Erase,
            ),
            r@ == redraws_for(old(self).spec_cursor(), final(self).spec_cursor(), Command::Erase),
    {
        let ghost before = self.buffer@;
        if self.cursor.column > 0 {
            proof {
                lemma_ends_in_char(before);
            }
            self.buffer.pop();
            self.cursor = Cursor { column: self.cursor.column - 1, row: self.cursor.row };
            let mut r: Vec<Redraw> = Vec::new();
            r.push(Redraw::MoveLeft(1));
            r.push(Redraw::Print(' '));
            r.push(Redraw::MoveLeft(1));
            assert(r@ =~= seq![Redraw::MoveLeft(1), Redraw::Print(' '), Redraw::MoveLeft(1)]);
            r
        } else if self.cursor.row > 1 {
            proof {
                lemma_ends_in_separator(before);
            }
            self.buffer.pop();
            let column = last_line_length(&self.buffer);
            self.cursor = Cursor { column, row: self.cursor.row - 1 };
            let mut r: Vec<Redraw> = Vec::new();
            r.push(Redraw::MoveUp(1));
            r.push(Redraw::MoveRight(column));
            r.push(Redraw::Print(' '));
            r.push(Redraw::MoveLeft(1));
            assert(r@ =~= seq![
                Redraw::MoveUp(1),
                Redraw::MoveRight(column),
                Redraw::Print(' '),
                Redraw::MoveLeft(1),
            ]);
            r
        } else {
            assert(before.len() == 0) by {
                if before.len() > 0 {
                    if before.last() == '\n' {
                        lemma_bounds(before.drop_last());
                    }
                }
            }
            Vec::new()
        }
    }

    /// Acts on one key event. Only presses act: a character is appended, Enter
    /// appends a separator, Backspace removes the last character (a separator
    /// included; nothing on an empty buffer), Escape asks to save and exit,
    /// Control with `s` asks to save and continue; other keys do nothing.
    pub fn handle_key(&mut self, event: KeyEvent) -> (r: Reaction)
        requires
            old(self).wf(),
            old(self).spec_text().len() + 2 <= usize::MAX,
        ensures
            final(self).wf(),
            final(self).spec_filename() == old(self).spec_filename(),
            final(self).spec_text() == text_after(old(self).spec_text(), command_of(event)),
            final(self).spec_cursor() == cursor_after(
                old(self).spec_cursor(),
                final(self).spec_text(),
                command_of(event),
            ),
            r.redraws@ == redraws_for(
                old(self).spec_cursor(),
                final(self).spec_cursor(),
                command_of(event),
            ),
            r.signal == signal_for(command_of(event)),
    {
        match command(event) {
            Command::Insert(c) => {
                self.append(c);
                let mut redraws: Vec<Redraw> = Vec::new();
                redraws.push(Redraw::Print(c));
                assert(redraws@ =~= seq![Redraw::Print(c)]);
                Reaction { signal: Signal::Continue, redraws }
            },
            Command::NewLine => {
                self.append('\n');
                let mut redraws: Vec<Redraw> = Vec::new();
                redraws.push(Redraw::NextLine);
                assert(redraws@ =~= seq![Redraw::NextLine]);
                Reaction { signal: Signal::Continue, redraws }
            },
            Command::Erase => {
                let redraws = self.erase();
                Reaction { signal: Signal::Continue, redraws }
            },
            Command::Save => {
                let mut redraws: Vec<Redraw> = Vec::new();
                redraws.push(Redraw::MoveToOrigin);
                redraws.push(Redraw::SavedNotice);
                assert(redraws@ =~= seq![Redraw::MoveToOrigin, Redraw::SavedNotice]);
                Reaction { signal: Signal::Save, redraws }
            },
            Command::SaveAndExit => {
                let redraws: Vec<Redraw> = Vec::new();
                assert(redraws@ =~= seq![]);
                Reaction { signal: Signal::SaveAndExit, redraws }
            },
            Command::Ignore => {
                let redraws: Vec<Redraw> = Vec::new();
                assert(redraws@ =~= seq![]);
                Reaction { signal: Signal::Continue, redraws }
            },
        }
    }
}

} // verus!
