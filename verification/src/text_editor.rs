//! A small buffer of text lines that is edited at the end of one line.

use vstd::prelude::*;
use crate::common::UsizePoint;
use crate::event_group::{KeyCode, KeyEvent};

verus! {

/// `String::push` appends the character to the end of the string.
pub assume_specification[ String::push ](s: &mut String, c: char)
    ensures
        final(s)@ == old(s)@.push(c),
;

/// `String::pop` removes the last character and returns it, or returns
/// nothing and leaves the string as it is where the string is empty.
pub assume_specification[ String::pop ](s: &mut String) -> (r: Option<char>)
    ensures
        old(s)@.len() == 0 ==> r.is_none() && final(s)@ == old(s)@,
        old(s)@.len() > 0 ==> r == Some(old(s)@.last()) && final(s)@ == old(s)@.drop_last(),
;

/// The characters of each line of `lines`.
pub open spec fn lines_view(lines: Seq<String>) -> Seq<Seq<char>> {
    Seq::new(lines.len(), |i: int| lines[i]@)
}

/// What a text editor holds: the row that is being edited and the lines.
pub struct TextEditorView {
    pub row: int,
    pub lines: Seq<Seq<char>>,
}

impl TextEditorView {
    /// Whether the row that is being edited is one of the lines.
    pub open spec fn wf(self) -> bool {
        0 <= self.row < self.lines.len()
    }

    /// An editor that holds one empty line.
    pub open spec fn blank() -> TextEditorView {
        TextEditorView { row: 0, lines: seq![Seq::<char>::empty()] }
    }

    /// An editor over `lines` that edits the last of them; without any
    /// line, one that holds one empty line.
    pub open spec fn over(lines: Seq<Seq<char>>) -> TextEditorView {
        if lines.len() > 0 {
            TextEditorView { row: lines.len() - 1, lines }
        } else {
            Self::blank()
        }
    }

    /// The editor after a character was typed: it is put at the end of the
    /// row that is being edited.
    pub open spec fn typed(self, c: char) -> TextEditorView {
        TextEditorView { row: self.row, lines: self.lines.update(self.row, self.lines[self.row].push(c)) }
    }

    /// The editor after Backspace: the last character of the row goes; an
    /// empty row goes itself and the row above is edited, but the first row
    /// stays.
    pub open spec fn erased(self) -> TextEditorView {
        if self.lines[self.row].len() > 0 {
            TextEditorView {
                row: self.row,
                lines: self.lines.update(self.row, self.lines[self.row].drop_last()),
            }
        } else if self.row > 0 {
            TextEditorView { row: self.row - 1, lines: self.lines.remove(self.row) }
        } else {
            self
        }
    }

    /// The editor after a line break: an empty row comes in below the row
    /// that is being edited, and is edited from then on.
    pub open spec fn broken(self) -> TextEditorView {
        TextEditorView {
            row: self.row + 1,
            lines: self.lines.insert(self.row + 1, Seq::<char>::empty()),
        }
    }

    /// The editor after a key event. Enter without Alt ends an edit and is
    /// not the editor's to handle: like any other key it changes nothing.
    pub open spec fn edited(self, event: KeyEvent) -> TextEditorView {
        match event.code {
            KeyCode::Char(c) => self.typed(c),
            KeyCode::Backspace => self.erased(),
            KeyCode::Enter => if event.modifiers.alt {
                self.broken()
            } else {
                self
            },
            _ => self,
        }
    }
}

/// A buffer of lines. It always holds at least one line, and one of its
/// lines is the row that is being edited.
pub struct TextEditor {
    cursor: UsizePoint,
    lines: Vec<String>,
}

impl View for TextEditor {
    type V = TextEditorView;

    closed spec fn view(&self) -> TextEditorView {
        TextEditorView { row: self.cursor.1 as int, lines: lines_view(self.lines@) }
    }
}

impl TextEditor {
    /// Whether the row that is being edited is one of the lines. Every
    /// editor that this module hands out is so.
    pub open spec fn wf(&self) -> bool {
        self@.wf()
    }

    /// One empty line.
    pub fn new() -> (r: Self)
        ensures
            r.wf(),
            r@ == TextEditorView::blank(),
    {
        let mut lines: Vec<String> = Vec::new();
        lines.push(String::new());
        let r = Self { cursor: (0, 0), lines };
        assert(r@.lines =~= seq![Seq::<char>::empty()]);
        r
    }

    /// An editor over `lines`, which edits the last of them. Without any
    /// line it starts with one empty line.
    pub fn new_with_lines(lines: Vec<String>) -> (r: Self)
        ensures
            r.wf(),
            r@ == TextEditorView::over(lines_view(lines@)),
    {
        if lines.len() == 0 {
            Self::new()
        } else {
            Self { cursor: (0, lines.len() - 1), lines }
        }
    }

    /// The lines, for showing them.
    pub fn lines(&self) -> (r: &Vec<String>)
        ensures
            lines_view(r@) == self@.lines,
    {
        &self.lines
    }

    /// Gives up the editor for its lines.
    pub fn into_lines(self) -> (r: Vec<String>)
        ensures
            lines_view(r@) == self@.lines,
            self.wf() ==> r@.len() > 0,
    {
        self.lines
    }

    /// The row that is being edited.
    pub fn cursor_row(&self) -> (r: usize)
        ensures
            r == self@.row,
    {
        self.cursor.1
    }

    /// Applies one key event to the buffer.
    pub fn edit(&mut self, event: &KeyEvent)
        requires
            old(self).wf(),
        ensures
            final(self).wf(),
            final(self)@ == old(self)@.edited(*event),
    {
        let row: usize = self.cursor.1;
        match event.code {
            KeyCode::Char(c) => {
                self.lines[row].push(c);
                assert(self@.lines =~= old(self)@.typed(c).lines);
            },
            KeyCode::Backspace => {
                let popped: Option<char> = self.lines[row].pop();
                if popped.is_none() {
                    if row > 0 {
                        self.lines.remove(row);
                        self.cursor.1 = row - 1;
                    }
                }
                assert(self@.lines =~= old(self)@.erased().lines);
            },
            KeyCode::Enter => {
                if event.modifiers.alt {
                    let count: usize = self.lines.len();
                    assert(row < count);
                    self.cursor.1 = row + 1;
                    self.lines.insert(row + 1, String::new());
                    assert(self@.lines =~= old(self)@.broken().lines);
                }
            },
            _ => {},
        }
    }
}

} // verus!
