//! The mathematical model of the editor: its state, and what each operation makes of it.
use vstd::math::{max, min};
use vstd::prelude::*;

use crate::command::{command_of, CommandView};
use crate::document::{contents_of, lines_of};
use crate::format::{decimal, trimmed_start};
use crate::keys::{KeyCode, KeyPress, Mode};
use crate::text::{byte_len, char_width, chars_before, column_of, on_boundary};

verus! {

/// Where the path of a file came from.
#[derive(Clone, Copy, Debug, PartialEq, Eq, Structural)]
pub enum Origin {
    /// The program was started with it. Its text is the form in which it is shown.
    Launch,
    /// It was typed on the command line.
    Typed,
}

/// The path of a file as the model sees it.
pub struct FilePathView {
    pub text: Seq<char>,
    pub origin: Origin,
}

/// Why a save could not even be tried.
#[derive(Clone, Copy, Debug, PartialEq, Eq, Structural)]
pub enum SaveError {
    /// No path is known under which to save.
    NoFileName,
}

/// What the surroundings of the editor have to do to complete a command.
pub enum EffectView {
    Done,
    Write { path: FilePathView, contents: Seq<char>, quit: bool },
    Read { path: FilePathView },
    ShowDirectory,
}

/// The outcome of a key or a command.
pub type Outcome = Result<EffectView, SaveError>;

/// The state of the editor.
#[verifier::ext_equal]
pub struct EditorState {
    pub path: Option<FilePathView>,
    pub lines: Seq<Seq<char>>,
    pub cursor_line: int,
    pub cursor_col: int,
    pub scroll_top: int,
    pub visual_anchor: Option<(int, int)>,
    pub mode: Mode,
    pub command: Seq<char>,
    pub pending: Option<char>,
    pub clipboard: Seq<Seq<char>>,
    pub status: Seq<char>,
    pub dirty: bool,
    pub should_quit: bool,
}

/// The text of a path, or what stands in its place.
pub open spec fn shown_path(path: Option<FilePathView>) -> Seq<char> {
    match path {
        Some(known) => known.text,
        None => "[No Name]"@,
    }
}

/// The mark of unsaved changes.
pub open spec fn dirty_mark(dirty: bool) -> Seq<char> {
    if dirty {
        " [+]"@
    } else {
        ""@
    }
}

/// A text between double quotes.
pub open spec fn quoted(text: Seq<char>) -> Seq<char> {
    "\""@ + text + "\""@
}

/// A text that holds nothing but one empty line.
pub open spec fn blank() -> Seq<Seq<char>> {
    seq![Seq::empty()]
}

/// The given lines, or one empty line if there are none.
pub open spec fn at_least_one(lines: Seq<Seq<char>>) -> Seq<Seq<char>> {
    if lines.len() == 0 {
        blank()
    } else {
        lines
    }
}

impl EditorState {
    /// The line under the cursor.
    pub open spec fn line(self) -> Seq<char> {
        self.lines[self.cursor_line]
    }

    /// The number of characters before the cursor in its line.
    pub open spec fn cursor_index(self) -> int {
        chars_before(self.line(), self.cursor_col)
    }

    /// Whether the cursor is in a line of the text.
    pub open spec fn has_line(self) -> bool {
        0 <= self.cursor_line < self.lines.len()
    }

    /// Whether the cursor stands between two characters of a line.
    pub open spec fn at_boundary(self) -> bool {
        self.has_line() && on_boundary(self.line(), self.cursor_col)
    }

    /// Whether a character stands under the cursor.
    pub open spec fn on_char(self) -> bool {
        self.at_boundary() && self.cursor_col < byte_len(self.line())
    }

    /// The state in which a text is open.
    pub open spec fn opened(path: Option<FilePathView>, lines: Seq<Seq<char>>) -> EditorState {
        EditorState {
            path,
            lines,
            cursor_line: 0,
            cursor_col: 0,
            scroll_top: 0,
            visual_anchor: None,
            mode: Mode::Normal,
            command: Seq::empty(),
            pending: None,
            clipboard: Seq::empty(),
            status: "JamesevIM Rust - NORMAL mode"@,
            dirty: false,
            should_quit: false,
        }
    }

    /// Another text takes the place of this one.
    pub open spec fn replaced(self, path: Option<FilePathView>, lines: Seq<Seq<char>>) -> EditorState {
        EditorState {
            path,
            lines,
            cursor_line: 0,
            cursor_col: 0,
            scroll_top: 0,
            visual_anchor: None,
            ..self
        }
    }

    /// A file with the given contents is open.
    pub open spec fn loaded(self, path: FilePathView, contents: Seq<char>) -> EditorState {
        EditorState { dirty: false, ..self.replaced(Some(path), lines_of(contents)) }
    }

    pub open spec fn with_status(self, status: Seq<char>) -> EditorState {
        EditorState { status, ..self }
    }

    pub open spec fn with_mode(self, mode: Mode) -> EditorState {
        EditorState { mode, ..self }
    }

    pub open spec fn with_column(self, cursor_col: int) -> EditorState {
        EditorState { cursor_col, ..self }
    }

    /// The last column at which the cursor may stand in a line.
    pub open spec fn last_column(mode: Mode, line: Seq<char>) -> int {
        if (mode is Normal || mode is Visual) && line.len() > 0 {
            byte_len(line) - 1
        } else {
            byte_len(line) as int
        }
    }

    /// The cursor is moved back into the text.
    pub open spec fn clamped(self) -> EditorState {
        let row = min(self.cursor_line, self.lines.len() - 1);
        EditorState {
            cursor_line: row,
            cursor_col: min(self.cursor_col, Self::last_column(self.mode, self.lines[row])),
            ..self
        }
    }

    /// The window is moved as little as makes the cursor's line one of its `height` lines.
    pub open spec fn scrolled(self, height: int) -> EditorState {
        let scroll_top = if height == 0 {
            self.scroll_top
        } else if self.cursor_line < self.scroll_top {
            self.cursor_line
        } else if self.cursor_line >= self.scroll_top + height {
            self.cursor_line + 1 - height
        } else {
            self.scroll_top
        };
        EditorState { scroll_top, ..self }
    }

    /// A character is typed at the cursor.
    pub open spec fn char_inserted(self, c: char) -> EditorState {
        EditorState {
            lines: self.lines.update(
                self.cursor_line,
                self.line().insert(self.cursor_index(), c),
            ),
            cursor_col: self.cursor_col + char_width(c),
            dirty: true,
            ..self
        }
    }

    /// The line is broken at the cursor.
    pub open spec fn newline_inserted(self) -> EditorState {
        EditorState {
            lines: self.lines.update(
                self.cursor_line,
                self.line().take(self.cursor_index()),
            ).insert(self.cursor_line + 1, self.line().skip(self.cursor_index())),
            cursor_line: self.cursor_line + 1,
            cursor_col: 0,
            dirty: true,
            ..self
        }
    }

    /// The character before the cursor is removed, or the line break before its line.
    pub open spec fn backspaced(self) -> EditorState {
        if self.cursor_col > 0 {
            let previous = self.cursor_index() - 1;
            EditorState {
                lines: self.lines.update(self.cursor_line, self.line().remove(previous)),
                cursor_col: column_of(self.line(), previous) as int,
                dirty: true,
                ..self
            }
        } else if self.cursor_line > 0 {
            let above = self.lines[self.cursor_line - 1];
            EditorState {
                lines: self.lines.remove(self.cursor_line).update(
                    self.cursor_line - 1,
                    above + self.line(),
                ),
                cursor_line: self.cursor_line - 1,
                cursor_col: byte_len(above) as int,
                dirty: true,
                ..self
            }
        } else {
            self
        }
    }

    /// The character under the cursor is removed.
    pub open spec fn char_deleted(self) -> EditorState {
        if self.line().len() == 0 {
            self
        } else {
            EditorState {
                lines: self.lines.update(
                    self.cursor_line,
                    self.line().remove(self.cursor_index()),
                ),
                dirty: true,
                ..self
            }
        }
    }

    /// The line under the cursor is removed.
    pub open spec fn line_deleted(self) -> EditorState {
        let rest = at_least_one(self.lines.remove(self.cursor_line));
        EditorState {
            lines: rest,
            cursor_line: min(self.cursor_line, rest.len() - 1),
            cursor_col: 0,
            dirty: true,
            ..self
        }
    }

    /// The line under the cursor is kept in the clipboard.
    pub open spec fn line_copied(self) -> EditorState {
        EditorState { clipboard: seq![self.line()], ..self }
    }

    /// The line under the cursor is kept in the clipboard, and the user is told.
    pub open spec fn line_yanked(self) -> EditorState {
        self.line_copied().with_status("1 line yanked"@)
    }

    /// The line before which a put inserts.
    pub open spec fn put_index(self, before: bool) -> int {
        if before {
            self.cursor_line
        } else {
            self.cursor_line + 1
        }
    }

    /// The lines of the clipboard are inserted before or after the cursor's line.
    pub open spec fn lines_put(self, before: bool) -> EditorState {
        let count = self.clipboard.len();
        let index = self.put_index(before);
        if count == 0 {
            self.with_status("Nothing to put"@)
        } else {
            EditorState {
                lines: self.lines.take(index) + self.clipboard + self.lines.skip(index),
                cursor_line: index,
                cursor_col: 0,
                dirty: true,
                status: decimal(count) + " line"@ + (if count == 1 {
                    ""@
                } else {
                    "s"@
                }) + " put"@,
                ..self
            }
        }
    }

    /// The line that comes of joining two: one space stands between them unless the first is
    /// empty, and the second loses the white space at its start.
    pub open spec fn joined_line(first: Seq<char>, second: Seq<char>) -> Seq<char> {
        if first.len() == 0 {
            trimmed_start(second)
        } else {
            first.push(' ') + trimmed_start(second)
        }
    }

    /// The line under the cursor and the next one become one.
    pub open spec fn lines_joined(self) -> EditorState {
        if self.cursor_line + 1 >= self.lines.len() {
            self.with_status("E294: cannot join last line"@)
        } else {
            let line = Self::joined_line(self.line(), self.lines[self.cursor_line + 1]);
            EditorState {
                lines: self.lines.remove(self.cursor_line + 1).update(self.cursor_line, line),
                cursor_col: min(self.cursor_col, max(byte_len(line) - 1, 0)),
                dirty: true,
                ..self
            }
        }
    }

    /// The first and the last line of the selection.
    pub open spec fn selection(self) -> Option<(int, int)> {
        match self.visual_anchor {
            Some(anchor) => Some(
                (min(anchor.0, self.cursor_line), max(anchor.0, self.cursor_line)),
            ),
            None => None,
        }
    }

    /// Whether the selected lines, if any, are lines of the text.
    pub open spec fn selection_in_text(self) -> bool {
        self.selection() matches Some(bounds) ==> 0 <= bounds.0 <= bounds.1 < self.lines.len()
    }

    /// The selected lines are kept in the clipboard, and the selection ends.
    pub open spec fn selection_copied(self) -> EditorState {
        match self.selection() {
            Some(bounds) => EditorState {
                clipboard: self.lines.subrange(bounds.0, bounds.1 + 1),
                visual_anchor: None,
                mode: Mode::Normal,
                ..self
            },
            None => self,
        }
    }

    /// The selected lines move to the clipboard.
    pub open spec fn selection_deleted(self) -> EditorState {
        match self.selection() {
            Some(bounds) => {
                let rest = at_least_one(
                    self.lines.take(bounds.0) + self.lines.skip(bounds.1 + 1),
                );
                EditorState {
                    lines: rest,
                    cursor_line: min(bounds.0, rest.len() - 1),
                    cursor_col: 0,
                    dirty: true,
                    ..self.selection_copied()
                }
            },
            None => self,
        }
    }

    /// The selected lines are kept in the clipboard, and the user is told.
    pub open spec fn selection_yanked(self) -> EditorState {
        match self.selection() {
            Some(bounds) => self.selection_copied().with_status(
                decimal((bounds.1 - bounds.0 + 1) as nat) + " lines yanked"@,
            ),
            None => self,
        }
    }

    /// The path under which a save with the given request writes.
    pub open spec fn save_path(self, requested: Option<FilePathView>) -> Option<FilePathView> {
        if requested is Some {
            requested
        } else {
            self.path
        }
    }

    /// A save is asked for, under a new path if one is given.
    pub open spec fn save_requested(self, requested: Option<FilePathView>) -> EditorState {
        EditorState { path: self.save_path(requested), ..self }
    }

    /// The text has been written to a file.
    pub open spec fn saved(self, path: FilePathView) -> EditorState {
        EditorState { dirty: false, status: quoted(path.text) + " written"@, ..self }
    }

    /// The text has been written to a file, as a command asked for.
    pub open spec fn write_completed(self, path: FilePathView, quit: bool) -> EditorState {
        EditorState {
            should_quit: self.should_quit || quit,
            mode: Mode::Normal,
            ..self.saved(path)
        }
    }

    /// The contents of a file have been read, as a command asked for.
    pub open spec fn read_completed(self, path: FilePathView, contents: Seq<char>) -> EditorState {
        self.loaded(path, contents).with_status(quoted(path.text) + " loaded"@).with_mode(
            Mode::Normal,
        )
    }

    /// The working directory has been found out, as a command asked for.
    pub open spec fn directory_shown(self, directory: Seq<char>) -> EditorState {
        self.with_status(directory).with_mode(Mode::Normal)
    }

    /// What a command asks the surroundings to write.
    pub open spec fn write_outcome(self, requested: Option<FilePathView>, quit: bool) -> Outcome {
        match self.save_path(requested) {
            Some(path) => Ok(EffectView::Write { path, contents: contents_of(self.lines), quit }),
            None => Err(SaveError::NoFileName),
        }
    }

    /// Leave if nothing is unsaved, and else warn.
    pub open spec fn quit_unless_dirty(self, warning: Seq<char>) -> EditorState {
        if self.dirty {
            self.with_status(warning)
        } else {
            EditorState { should_quit: true, ..self }
        }
    }

    /// What a command makes of the state by itself. The command line has been emptied.
    pub open spec fn command_applied(self, command: CommandView) -> EditorState {
        match command {
            CommandView::Quit => self.quit_unless_dirty(
                "No write since last change (use :wq or :q!)"@,
            ),
            CommandView::QuitAll => self.quit_unless_dirty(
                "No write since last change (use :wqa or :qa!)"@,
            ),
            CommandView::ForceQuit => EditorState { should_quit: true, ..self },
            CommandView::Write(path) => self.save_requested(typed_path(path)),
            CommandView::WriteQuit(path) => self.save_requested(typed_path(path)),
            CommandView::New => if self.dirty {
                self.with_status("No write since last change (use :w or :enew!)"@)
            } else {
                self.replaced(None, blank()).with_status("[No Name]"@)
            },
            CommandView::Edit(path) => if path.len() == 0 {
                self.with_status("Usage: :edit <path>"@)
            } else if self.dirty {
                self.with_status("No write since last change (use :w or :edit!)"@)
            } else {
                self
            },
            CommandView::WorkingDirectory => self,
            CommandView::File => self.with_status(
                quoted(shown_path(self.path)) + " "@ + decimal(self.lines.len()) + " lines"@
                    + dirty_mark(self.dirty),
            ),
            CommandView::Version => self.with_status(
                "JamesevIM Rust 0.1.0 (Vim-compatible migration)"@,
            ),
            CommandView::ShowNumbers => self.with_status("line numbers are enabled"@),
            CommandView::HideNumbers => self.with_status(
                "line numbers cannot be hidden in this build"@,
            ),
            CommandView::Delete => self.line_copied().line_deleted(),
            CommandView::Yank => self.line_yanked(),
            CommandView::PutAfter => self.lines_put(false),
            CommandView::PutBefore => self.lines_put(true),
            CommandView::Join => self.lines_joined(),
            CommandView::Help => self.with_status(
                "Core: :e :w :wq :q :qa | Edit: :d :y :p :P :j"@,
            ),
            CommandView::Unknown(text) => self.with_status("Not an editor command: "@ + text),
        }
    }

    /// What a command asks of the surroundings.
    pub open spec fn command_outcome(self, command: CommandView) -> Outcome {
        match command {
            CommandView::Write(path) => self.write_outcome(typed_path(path), false),
            CommandView::WriteQuit(path) => self.write_outcome(typed_path(path), true),
            CommandView::Edit(path) => if path.len() > 0 && !self.dirty {
                Ok(EffectView::Read { path: FilePathView { text: path, origin: Origin::Typed } })
            } else {
                Ok(EffectView::Done)
            },
            CommandView::WorkingDirectory => Ok(EffectView::ShowDirectory),
            _ => Ok(EffectView::Done),
        }
    }

    /// The state after the command line has been carried out as far as the editor can. The
    /// command mode lasts until nothing is left to do for the surroundings.
    pub open spec fn command_executed(self) -> EditorState {
        let command = command_of(self.command);
        let after = EditorState { command: Seq::empty(), ..self }.command_applied(command);
        if self.command_outcome(command) == Outcome::Ok(EffectView::Done) {
            after.with_mode(Mode::Normal)
        } else {
            after
        }
    }

    /// The cursor moves one column to the left.
    pub open spec fn moved_left(self) -> EditorState {
        self.with_column(max(self.cursor_col - 1, 0))
    }

    /// The cursor moves one column to the right, up to the given one.
    pub open spec fn moved_right(self, limit: int) -> EditorState {
        self.with_column(min(self.cursor_col + 1, limit))
    }

    /// The cursor moves to the line above.
    pub open spec fn moved_up(self) -> EditorState {
        EditorState { cursor_line: max(self.cursor_line - 1, 0), ..self }
    }

    /// The cursor moves to the line below.
    pub open spec fn moved_down(self) -> EditorState {
        EditorState { cursor_line: min(self.cursor_line + 1, self.lines.len() - 1), ..self }
    }

    /// The cursor moves on the characters of the text, as the keys `h`, `j`, `k`, `l` and the
    /// arrow keys say.
    pub open spec fn moved_by(self, code: KeyCode) -> EditorState {
        match code {
            KeyCode::Left | KeyCode::Char('h') => self.moved_left(),
            KeyCode::Right | KeyCode::Char('l') => self.moved_right(
                max(byte_len(self.line()) - 1, 0),
            ),
            KeyCode::Up | KeyCode::Char('k') => self.moved_up(),
            KeyCode::Down | KeyCode::Char('j') => self.moved_down(),
            _ => self,
        }
    }

    /// What a key makes of the state in insert mode.
    pub open spec fn insert_key_handled(self, key: KeyPress) -> EditorState {
        let after = match key.code {
            KeyCode::Esc => self.with_mode(Mode::Normal).clamped().with_status("NORMAL mode"@),
            KeyCode::Enter => self.newline_inserted(),
            KeyCode::Backspace => self.backspaced(),
            KeyCode::Left => self.moved_left(),
            KeyCode::Right => self.moved_right(byte_len(self.line()) as int),
            KeyCode::Up => self.moved_up(),
            KeyCode::Down => self.moved_down(),
            KeyCode::Char(c) => if key.control {
                self
            } else {
                self.char_inserted(c)
            },
            KeyCode::Other => self,
        };
        after.clamped()
    }

    /// What a key makes of the state in command mode.
    pub open spec fn command_key_handled(self, key: KeyPress) -> EditorState {
        match key.code {
            KeyCode::Esc => EditorState { command: Seq::empty(), mode: Mode::Normal, ..self },
            KeyCode::Enter => self.command_executed(),
            KeyCode::Backspace => {
                let command = if self.command.len() == 0 {
                    self.command
                } else {
                    self.command.drop_last()
                };
                EditorState {
                    command,
                    mode: if command.len() == 0 {
                        Mode::Normal
                    } else {
                        self.mode
                    },
                    ..self
                }
            },
            KeyCode::Char(c) => EditorState { command: self.command.push(c), ..self },
            _ => self,
        }
    }

    /// What a key asks of the surroundings in command mode.
    pub open spec fn command_key_outcome(self, key: KeyPress) -> Outcome {
        if key.code is Enter {
            self.command_outcome(command_of(self.command))
        } else {
            Ok(EffectView::Done)
        }
    }

    /// What the second key of an operator makes of the state.
    pub open spec fn operator_completed(self, operator: char, code: KeyCode) -> EditorState {
        if operator == 'd' && code == KeyCode::Char('d') {
            self.line_copied().line_deleted()
        } else if operator == 'y' && code == KeyCode::Char('y') {
            self.line_yanked()
        } else {
            self.with_status("operator "@ + seq![operator] + " canceled"@)
        }
    }

    /// What a key that starts or does something makes of the state in normal mode.
    pub open spec fn normal_key_applied(self, code: KeyCode) -> EditorState {
        match code {
            KeyCode::Char(':') => EditorState {
                mode: Mode::Command,
                command: Seq::empty(),
                ..self
            },
            KeyCode::Char('v') => EditorState {
                mode: Mode::Visual,
                visual_anchor: Some((self.cursor_line, self.cursor_col)),
                status: "VISUAL mode"@,
                ..self
            },
            KeyCode::Char('i') => self.with_mode(Mode::Insert),
            KeyCode::Char('a') => self.moved_right(byte_len(self.line()) as int).with_mode(
                Mode::Insert,
            ),
            KeyCode::Char('o') => self.with_column(
                byte_len(self.line()) as int,
            ).newline_inserted().with_mode(Mode::Insert),
            KeyCode::Char('x') => self.char_deleted(),
            KeyCode::Char('d') => EditorState { pending: Some('d'), ..self },
            KeyCode::Char('y') => EditorState { pending: Some('y'), ..self },
            KeyCode::Char('p') => self.lines_put(false),
            KeyCode::Char('P') => self.lines_put(true),
            KeyCode::Char('J') => self.lines_joined(),
            _ => self.moved_by(code),
        }
    }

    /// What a key makes of the state in normal mode.
    pub open spec fn normal_key_handled(self, key: KeyPress) -> EditorState {
        let ready = EditorState { pending: None, ..self };
        let after = match self.pending {
            Some(operator) => ready.operator_completed(operator, key.code),
            None => ready.normal_key_applied(key.code),
        };
        after.clamped()
    }

    /// What a key makes of the state in visual mode.
    pub open spec fn visual_key_handled(self, key: KeyPress) -> EditorState {
        let after = match key.code {
            KeyCode::Esc | KeyCode::Char('v') => EditorState {
                mode: Mode::Normal,
                visual_anchor: None,
                status: "NORMAL mode"@,
                ..self
            },
            KeyCode::Char('d') => self.selection_deleted(),
            KeyCode::Char('y') => self.selection_yanked(),
            _ => self.moved_by(key.code),
        };
        after.clamped()
    }

    /// What a key makes of the state.
    pub open spec fn key_handled(self, key: KeyPress) -> EditorState {
        match self.mode {
            Mode::Insert => self.insert_key_handled(key),
            Mode::Command => self.command_key_handled(key),
            Mode::Normal => self.normal_key_handled(key),
            Mode::Visual => self.visual_key_handled(key),
        }
    }

    /// What a key asks of the surroundings.
    pub open spec fn key_outcome(self, key: KeyPress) -> Outcome {
        if self.mode is Command {
            self.command_key_outcome(key)
        } else {
            Ok(EffectView::Done)
        }
    }

    /// Whether a key can be handled in insert mode: what it does to the characters beside the
    /// cursor has to find the cursor between two characters.
    pub open spec fn accepts_insert_key(self, key: KeyPress) -> bool {
        match key.code {
            KeyCode::Enter => self.at_boundary(),
            KeyCode::Backspace => self.cursor_col > 0 ==> self.at_boundary(),
            KeyCode::Char(c) => !key.control ==> self.at_boundary(),
            _ => true,
        }
    }

    /// Whether a key can be handled in normal mode: a character can only be deleted if one
    /// stands under the cursor.
    pub open spec fn accepts_normal_key(self, key: KeyPress) -> bool {
        self.pending is None && key.code == KeyCode::Char('x') && self.line().len() > 0
            ==> self.on_char()
    }

    /// Whether a key can be handled in visual mode: only lines of the text can be deleted or
    /// yanked.
    pub open spec fn accepts_visual_key(self, key: KeyPress) -> bool {
        key.code == KeyCode::Char('d') || key.code == KeyCode::Char('y')
            ==> self.selection_in_text()
    }

    /// Whether a key can be handled.
    pub open spec fn accepts(self, key: KeyPress) -> bool {
        &&& self.has_line()
        &&& match self.mode {
            Mode::Insert => self.accepts_insert_key(key),
            Mode::Normal => self.accepts_normal_key(key),
            Mode::Visual => self.accepts_visual_key(key),
            Mode::Command => true,
        }
    }

    /// What holds between any two keys.
    pub open spec fn inv(self) -> bool {
        &&& self.has_line()
        &&& 0 <= self.cursor_col <= byte_len(self.line())
        &&& !(self.mode is Insert) && self.line().len() > 0 ==> self.cursor_col < byte_len(
            self.line(),
        )
        &&& 0 <= self.scroll_top
        &&& self.visual_anchor is Some <==> self.mode is Visual
        &&& self.visual_anchor matches Some(anchor) ==> 0 <= anchor.0 < self.lines.len()
        &&& self.pending is Some ==> self.mode is Normal
    }
}

/// The path that a command names.
pub open spec fn typed_path(path: Option<Seq<char>>) -> Option<FilePathView> {
    match path {
        Some(text) => Some(FilePathView { text, origin: Origin::Typed }),
        None => None,
    }
}

} // verus!
