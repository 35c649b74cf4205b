//! The editor and its operations on the text.
use vstd::prelude::*;

use crate::document::{lines_of, split_lines};
use crate::format::{decimal_text, trim_start};
use crate::keys::Mode;
use crate::state::{blank, quoted, EditorState, FilePathView, Origin};
use crate::text::{
    byte_len, from_chars, lemma_boundary_in_range, lemma_boundary_is_column,
    lemma_byte_len_at_least_len, lemma_byte_len_push, split_at_column, text_len, texts, to_chars,
};

verus! {

/// The path of a file.
#[derive(Debug)]
pub struct FilePath {
    /// The path as it is shown and typed.
    pub text: String,
    pub origin: Origin,
}

impl View for FilePath {
    type V = FilePathView;

    open spec fn view(&self) -> FilePathView {
        FilePathView { text: self.text@, origin: self.origin }
    }
}

impl FilePath {
    /// The same path once more.
    pub fn copy(&self) -> (copy: FilePath)
        ensures
            copy@ == self@,
    {
        FilePath { text: self.text.clone(), origin: self.origin }
    }
}

/// The path in an optional path.
pub open spec fn optional_path(path: Option<FilePath>) -> Option<FilePathView> {
    match path {
        Some(known) => Some(known@),
        None => None,
    }
}

/// A modal text editor: a text, a cursor in it, and what is under way.
pub struct Editor {
    pub path: Option<FilePath>,
    pub lines: Vec<String>,
    /// The index of the line that the cursor is in.
    pub cursor_line: usize,
    /// The number of bytes before the cursor in its line.
    pub cursor_col: usize,
    /// The index of the first line on the screen.
    pub scroll_top: usize,
    /// The line and column at which a selection began.
    pub visual_anchor: Option<(usize, usize)>,
    pub mode: Mode,
    /// What has been typed on the command line.
    pub command: String,
    /// The operator that waits for its second key.
    pub pending: Option<char>,
    pub clipboard: Vec<String>,
    pub status: String,
    /// Whether there are unsaved changes.
    pub dirty: bool,
    pub should_quit: bool,
}

impl View for Editor {
    type V = EditorState;

    open spec fn view(&self) -> EditorState {
        EditorState {
            path: optional_path(self.path),
            lines: texts(self.lines@),
            cursor_line: self.cursor_line as int,
            cursor_col: self.cursor_col as int,
            scroll_top: self.scroll_top as int,
            visual_anchor: match self.visual_anchor {
                Some(anchor) => Some((anchor.0 as int, anchor.1 as int)),
                None => None,
            },
            mode: self.mode,
            command: self.command@,
            pending: self.pending,
            clipboard: texts(self.clipboard@),
            status: self.status@,
            dirty: self.dirty,
            should_quit: self.should_quit,
        }
    }
}

/// A text that holds nothing but one empty line.
fn blank_lines() -> (lines: Vec<String>)
    ensures
        texts(lines@) == blank(),
        lines.len() == 1,
{
    let mut lines: Vec<String> = Vec::new();
    lines.push(String::new());
    lines
}

/// Copies the lines with indices from `from` up to, not including, `to`.
fn copy_lines(lines: &Vec<String>, from: usize, to: usize) -> (copy: Vec<String>)
    requires
        from <= to <= lines.len(),
    ensures
        texts(copy@) == texts(lines@).subrange(from as int, to as int),
{
    let mut copy: Vec<String> = Vec::new();
    let mut i: usize = from;
    while i < to
        invariant
            from <= i <= to <= lines.len(),
            texts(copy@) == texts(lines@).subrange(from as int, i as int),
        decreases to - i,
    {
        let ghost done = texts(copy@);
        copy.push(lines[i].clone());
        assert(texts(copy@) == done.push(lines@[i as int]@));
        i += 1;
        assert(texts(copy@) == texts(lines@).subrange(from as int, i as int));
    }
    copy
}

/// A text between double quotes, and more text after it.
pub(crate) fn quoted_text(text: &String, rest: &str) -> (res: String)
    ensures
        res@ == quoted(text@) + rest@,
{
    let mut res = "\"".to_owned();
    res.append(text.as_str());
    res.append("\"");
    res.append(rest);
    res
}

impl Editor {
    /// An editor with the given text and path.
    fn with_text(path: Option<FilePath>, lines: Vec<String>) -> (editor: Self)
        ensures
            editor@ == EditorState::opened(optional_path(path), texts(lines@)),
    {
        Editor {
            path,
            lines,
            cursor_line: 0,
            cursor_col: 0,
            scroll_top: 0,
            visual_anchor: None,
            mode: Mode::Normal,
            command: String::new(),
            pending: None,
            clipboard: Vec::new(),
            status: "JamesevIM Rust - NORMAL mode".to_owned(),
            dirty: false,
            should_quit: false,
        }
    }

    /// Opens a file, or an empty text if there is no path or no file under it. The contents
    /// are those of the file, if it exists.
    pub fn open(path: Option<FilePath>, contents: Option<String>) -> (editor: Self)
        ensures
            editor@ == EditorState::opened(
                optional_path(path),
                if path is Some && contents is Some {
                    lines_of(contents->0@)
                } else {
                    blank()
                },
            ),
            editor@.inv(),
    {
        let lines = match (&path, &contents) {
            (Some(_), Some(text)) => split_lines(text),
            _ => blank_lines(),
        };
        assert(texts(lines@).len() > 0);
        Self::with_text(path, lines)
    }

    /// The line under the cursor.
    pub fn current_line(&self) -> (line: &str)
        requires
            self@.has_line(),
        ensures
            line@ == self@.line(),
    {
        self.lines[self.cursor_line].as_str()
    }

    /// The length in bytes of the line under the cursor.
    pub(crate) fn current_len(&self) -> (len: usize)
        requires
            self@.has_line(),
        ensures
            len == byte_len(self@.line()),
    {
        text_len(&self.lines[self.cursor_line])
    }

    /// Another text takes the place of this one.
    fn replace_text(&mut self, path: Option<FilePath>, lines: Vec<String>)
        ensures
            final(self)@ == old(self)@.replaced(optional_path(path), texts(lines@)),
    {
        self.path = path;
        self.lines = lines;
        self.cursor_line = 0;
        self.cursor_col = 0;
        self.scroll_top = 0;
        self.visual_anchor = None;
    }

    /// Starts over with an empty text that has no path.
    pub(crate) fn clear_text(&mut self)
        ensures
            final(self)@ == old(self)@.replaced(None, blank()),
    {
        self.replace_text(None, blank_lines());
    }

    /// Shows the contents of the file under the given path in place of the text.
    pub fn load_path(&mut self, path: FilePath, contents: &String)
        ensures
            final(self)@ == old(self)@.loaded(path@, contents@),
    {
        self.replace_text(Some(path), split_lines(contents));
        self.dirty = false;
    }

    /// Moves the cursor back into the text.
    pub fn clamp_cursor(&mut self)
        requires
            old(self).lines.len() > 0,
        ensures
            final(self)@ == old(self)@.clamped(),
    {
        if self.cursor_line >= self.lines.len() {
            self.cursor_line = self.lines.len() - 1;
        }
        let len: usize = self.current_len();
        proof {
            lemma_byte_len_at_least_len(self@.line());
        }
        let last: usize = if (self.mode == Mode::Normal || self.mode == Mode::Visual)
            && !self.current_line().is_empty() {
            len - 1
        } else {
            len
        };
        if self.cursor_col > last {
            self.cursor_col = last;
        }
    }

    /// Scrolls so that the cursor's line is one of the `content_height` lines on the screen.
    pub fn ensure_visible(&mut self, content_height: usize)
        ensures
            final(self)@ == old(self)@.scrolled(content_height as int),
    {
        if content_height == 0 {
            return;
        }
        if self.cursor_line < self.scroll_top {
            self.scroll_top = self.cursor_line;
        } else if self.cursor_line - self.scroll_top >= content_height {
            self.scroll_top = self.cursor_line - (content_height - 1);
        }
    }

    /// Types a character at the cursor.
    pub fn insert_char(&mut self, character: char)
        requires
            old(self)@.at_boundary(),
        ensures
            final(self)@ == old(self)@.char_inserted(character),
    {
        let ghost line = self@.line();
        let ghost k = self@.cursor_index();
        let (mut head, tail) = split_at_column(&self.lines[self.cursor_line], self.cursor_col);
        proof {
            lemma_boundary_is_column(line, self.cursor_col as int);
            lemma_byte_len_push(line.take(k), character);
        }
        head.push(character);
        let column: usize = text_len(&head);
        head.append(tail.as_str());
        assert(head@ == line.insert(k, character));
        let row: usize = self.cursor_line;
        self.lines.set(row, head);
        self.cursor_col = column;
        self.dirty = true;
    }

    /// Breaks the line at the cursor.
    pub fn insert_newline(&mut self)
        requires
            old(self)@.at_boundary(),
        ensures
            final(self)@ == old(self)@.newline_inserted(),
    {
        let (head, tail) = split_at_column(&self.lines[self.cursor_line], self.cursor_col);
        let row: usize = self.cursor_line;
        assert(row < self.lines.len());
        self.lines.set(row, head);
        self.lines.insert(row + 1, tail);
        self.cursor_line = row + 1;
        self.cursor_col = 0;
        self.dirty = true;
    }

    /// Removes the character before the cursor, or the line break before its line.
    pub fn backspace(&mut self)
        requires
            old(self)@.has_line(),
            old(self).cursor_col > 0 ==> old(self)@.at_boundary(),
        ensures
            final(self)@ == old(self)@.backspaced(),
    {
        let row: usize = self.cursor_line;
        if self.cursor_col > 0 {
            let ghost line = self@.line();
            let ghost k = self@.cursor_index();
            let (head, tail) = split_at_column(&self.lines[row], self.cursor_col);
            proof {
                lemma_boundary_is_column(line, self.cursor_col as int);
                lemma_boundary_in_range(line, self.cursor_col as int);
            }
            let chars = to_chars(&head);
            let mut shorter = from_chars(&chars, 0, chars.len() - 1);
            assert(shorter@ == line.take(k - 1));
            let column: usize = text_len(&shorter);
            shorter.append(tail.as_str());
            assert(shorter@ == line.remove(k - 1));
            self.lines.set(row, shorter);
            self.cursor_col = column;
        } else if row > 0 {
            let current = self.lines.remove(row);
            let mut above = self.lines[row - 1].clone();
            let column: usize = text_len(&above);
            above.append(current.as_str());
            self.lines.set(row - 1, above);
            self.cursor_line = row - 1;
            self.cursor_col = column;
        } else {
            return;
        }
        self.dirty = true;
    }

    /// Removes the character under the cursor.
    pub fn delete_char(&mut self)
        requires
            old(self)@.has_line(),
            old(self)@.line().len() > 0 ==> old(self)@.on_char(),
        ensures
            final(self)@ == old(self)@.char_deleted(),
    {
        if self.current_line().is_empty() {
            return;
        }
        let row: usize = self.cursor_line;
        let ghost line = self@.line();
        let ghost k = self@.cursor_index();
        let (mut head, tail) = split_at_column(&self.lines[row], self.cursor_col);
        proof {
            lemma_boundary_is_column(line, self.cursor_col as int);
            lemma_boundary_in_range(line, self.cursor_col as int);
        }
        let chars = to_chars(&tail);
        let rest = from_chars(&chars, 1, chars.len());
        head.append(rest.as_str());
        assert(head@ == line.remove(k));
        self.lines.set(row, head);
        self.dirty = true;
    }

    /// Removes the line under the cursor.
    pub fn delete_line(&mut self)
        requires
            old(self)@.has_line(),
        ensures
            final(self)@ == old(self)@.line_deleted(),
    {
        let row: usize = self.cursor_line;
        let _removed = self.lines.remove(row);
        assert(texts(self.lines@) == texts(old(self).lines@).remove(row as int));
        if self.lines.is_empty() {
            self.lines = blank_lines();
        }
        if row >= self.lines.len() {
            self.cursor_line = self.lines.len() - 1;
        }
        self.cursor_col = 0;
        self.dirty = true;
    }

    /// Keeps the line under the cursor in the clipboard.
    pub(crate) fn copy_line(&mut self)
        requires
            old(self)@.has_line(),
        ensures
            final(self)@ == old(self)@.line_copied(),
    {
        let row: usize = self.cursor_line;
        let mut clipboard: Vec<String> = Vec::new();
        clipboard.push(self.lines[row].clone());
        self.clipboard = clipboard;
    }

    /// Keeps the line under the cursor in the clipboard, and says so.
    pub fn yank_line(&mut self)
        requires
            old(self)@.has_line(),
        ensures
            final(self)@ == old(self)@.line_yanked(),
    {
        self.copy_line();
        self.status = "1 line yanked".to_owned();
    }

    /// Inserts the lines of the clipboard before or after the cursor's line.
    pub fn put_lines(&mut self, before: bool)
        requires
            old(self).clipboard.len() > 0 ==> old(self)@.put_index(before) <= old(
                self,
            ).lines.len(),
        ensures
            final(self)@ == old(self)@.lines_put(before),
    {
        if self.clipboard.is_empty() {
            self.status = "Nothing to put".to_owned();
            return;
        }
        let index: usize = if before {
            self.cursor_line
        } else {
            self.cursor_line + 1
        };
        let count: usize = self.clipboard.len();
        let mut put = copy_lines(&self.clipboard, 0, count);
        let mut rest = self.lines.split_off(index);
        let ghost first = self.lines@;
        let ghost second = put@;
        let ghost third = rest@;
        self.lines.append(&mut put);
        self.lines.append(&mut rest);
        assert(self.lines@ == first + second + third);
        assert(texts(self.lines@) == texts(first) + texts(second) + texts(third));
        assert(texts(first) == texts(old(self).lines@).take(index as int));
        assert(texts(third) == texts(old(self).lines@).skip(index as int));
        assert(texts(second) == texts(old(self).clipboard@));
        self.cursor_line = index;
        self.cursor_col = 0;
        self.dirty = true;
        let mut status = decimal_text(count as u128);
        status.append(" line");
        status.append(if count == 1 { "" } else { "s" });
        status.append(" put");
        self.status = status;
    }

    /// Makes one line of the line under the cursor and the next one.
    pub fn join_line(&mut self)
        ensures
            final(self)@ == old(self)@.lines_joined(),
    {
        if self.cursor_line >= self.lines.len() || self.lines.len() - self.cursor_line <= 1 {
            self.status = "E294: cannot join last line".to_owned();
            return;
        }
        let row: usize = self.cursor_line;
        let ghost before = self@;
        let next = self.lines.remove(row + 1);
        let mut line = self.lines[row].clone();
        if !line.as_str().is_empty() {
            line.push(' ');
        }
        line.append(trim_start(&next).as_str());
        assert(line@ == EditorState::joined_line(before.line(), before.lines[row + 1]));
        let len: usize = text_len(&line);
        self.lines.set(row, line);
        let last: usize = if len > 0 {
            len - 1
        } else {
            0
        };
        if self.cursor_col > last {
            self.cursor_col = last;
        }
        self.dirty = true;
    }

    /// The first and the last line of the selection.
    pub fn visual_bounds(&self) -> (bounds: Option<(usize, usize)>)
        ensures
            bounds is Some <==> self@.selection() is Some,
            bounds matches Some(found) ==> self@.selection() == Some(
                (found.0 as int, found.1 as int),
            ),
    {
        match self.visual_anchor {
            Some((anchor, _)) => {
                let current: usize = self.cursor_line;
                if anchor <= current {
                    Some((anchor, current))
                } else {
                    Some((current, anchor))
                }
            },
            None => None,
        }
    }

    /// Moves the selected lines to the clipboard.
    pub fn delete_visual_lines(&mut self)
        requires
            old(self)@.selection_in_text(),
        ensures
            final(self)@ == old(self)@.selection_deleted(),
    {
        let (first, last) = match self.visual_bounds() {
            Some(bounds) => bounds,
            None => {
                return;
            },
        };
        assert(last < self.lines.len());
        let mut selected = self.lines.split_off(first);
        let mut rest = selected.split_off(last - first + 1);
        assert(texts(selected@) == texts(old(self).lines@).subrange(first as int, last + 1));
        self.lines.append(&mut rest);
        assert(texts(self.lines@) == texts(old(self).lines@).take(first as int) + texts(
            old(self).lines@,
        ).skip(last + 1));
        self.clipboard = selected;
        if self.lines.is_empty() {
            self.lines = blank_lines();
        }
        self.cursor_line = if first < self.lines.len() {
            first
        } else {
            self.lines.len() - 1
        };
        self.cursor_col = 0;
        self.visual_anchor = None;
        self.mode = Mode::Normal;
        self.dirty = true;
    }

    /// Keeps the selected lines in the clipboard, and says so.
    pub fn yank_visual_lines(&mut self)
        requires
            old(self)@.selection_in_text(),
        ensures
            final(self)@ == old(self)@.selection_yanked(),
    {
        let (first, last) = match self.visual_bounds() {
            Some(bounds) => bounds,
            None => {
                return;
            },
        };
        assert(last < self.lines.len());
        self.clipboard = copy_lines(&self.lines, first, last + 1);
        let mut status = decimal_text((last - first + 1) as u128);
        status.append(" lines yanked");
        self.status = status;
        self.visual_anchor = None;
        self.mode = Mode::Normal;
    }
}

} // verus!
