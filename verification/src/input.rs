//! What the editor does with keys and commands.
use vstd::prelude::*;

use crate::command::{command_of, optional_text, parse_command, Command};
use crate::consistency::law_keys_keep_invariant;
use crate::document::{contents_of, file_contents};
use crate::editor::{optional_path, quoted_text, Editor, FilePath};
use crate::format::decimal_text;
use crate::keys::{KeyCode, KeyPress, Mode};
use crate::state::{dirty_mark, shown_path, typed_path, EffectView, Origin, Outcome, SaveError};
use crate::text::{from_chars, is_boundary, lemma_ends_are_boundaries, to_chars};

verus! {

/// What the caller has to do to complete a command.
#[derive(Debug)]
pub enum Effect {
    /// Nothing.
    Done,
    /// Write the contents to the file, and then call `write_done`.
    Write { path: FilePath, contents: String, quit: bool },
    /// Read the file, and then call `read_done`.
    Read { path: FilePath },
    /// Find out the working directory, and then call `directory_done`.
    ShowDirectory,
}

impl View for Effect {
    type V = EffectView;

    open spec fn view(&self) -> EffectView {
        match *self {
            Effect::Done => EffectView::Done,
            Effect::Write { path, contents, quit } => EffectView::Write {
                path: path@,
                contents: contents@,
                quit,
            },
            Effect::Read { path } => EffectView::Read { path: path@ },
            Effect::ShowDirectory => EffectView::ShowDirectory,
        }
    }
}

/// The outcome in a result.
pub open spec fn outcome(result: Result<Effect, SaveError>) -> Outcome {
    match result {
        Ok(effect) => Ok(effect@),
        Err(error) => Err(error),
    }
}

impl Editor {
    /// Prepares a save, under a new path if one is given: the path to write to and the
    /// contents to write.
    pub fn save(&mut self, requested_path: Option<FilePath>) -> (res: Result<
        (FilePath, String),
        SaveError,
    >)
        ensures
            final(self)@ == old(self)@.save_requested(optional_path(requested_path)),
            match res {
                Ok(file) => {
                    &&& Some(file.0@) == old(self)@.save_path(optional_path(requested_path))
                    &&& file.1@ == contents_of(old(self)@.lines)
                },
                Err(error) => {
                    &&& error is NoFileName
                    &&& old(self)@.save_path(optional_path(requested_path)) is None
                },
            },
    {
        if requested_path.is_some() {
            self.path = requested_path;
        }
        let path = match &self.path {
            Some(path) => path.copy(),
            None => {
                return Err(SaveError::NoFileName);
            },
        };
        let contents = file_contents(&self.lines);
        Ok((path, contents))
    }

    /// Notes that the text has been written to a file.
    pub fn save_done(&mut self, path: &FilePath)
        ensures
            final(self)@ == old(self)@.saved(path@),
    {
        self.dirty = false;
        self.status = quoted_text(&path.text, " written");
    }

    /// Completes a command that asked for `Effect::Write`.
    pub fn write_done(&mut self, path: &FilePath, quit: bool)
        ensures
            final(self)@ == old(self)@.write_completed(path@, quit),
    {
        self.save_done(path);
        if quit {
            self.should_quit = true;
        }
        self.mode = Mode::Normal;
    }

    /// Completes a command that asked for `Effect::Read`.
    pub fn read_done(&mut self, path: FilePath, contents: &String)
        ensures
            final(self)@ == old(self)@.read_completed(path@, contents@),
    {
        let status = quoted_text(&path.text, " loaded");
        self.load_path(path, contents);
        self.status = status;
        self.mode = Mode::Normal;
    }

    /// Completes a command that asked for `Effect::ShowDirectory`.
    pub fn directory_done(&mut self, directory: String)
        ensures
            final(self)@ == old(self)@.directory_shown(directory@),
    {
        self.status = directory;
        self.mode = Mode::Normal;
    }

    /// Asks for a save on behalf of a command.
    fn write_command(&mut self, path: Option<String>, quit: bool) -> (res: Result<
        Effect,
        SaveError,
    >)
        ensures
            final(self)@ == old(self)@.save_requested(typed_path(optional_text(path))),
            outcome(res) == old(self)@.write_outcome(typed_path(optional_text(path)), quit),
    {
        let requested = match path {
            Some(text) => Some(FilePath { text, origin: Origin::Typed }),
            None => None,
        };
        match self.save(requested) {
            Ok((path, contents)) => Ok(Effect::Write { path, contents, quit }),
            Err(error) => Err(error),
        }
    }

    /// Leaves if nothing is unsaved, and else warns.
    fn quit_or_warn(&mut self, warning: &str)
        ensures
            final(self)@ == old(self)@.quit_unless_dirty(warning@),
    {
        if self.dirty {
            self.status = warning.to_owned();
        } else {
            self.should_quit = true;
        }
    }

    /// The path as it is shown.
    pub(crate) fn path_text(&self) -> (res: String)
        ensures
            res@ == shown_path(self@.path),
    {
        match &self.path {
            Some(path) => path.text.clone(),
            None => "[No Name]".to_owned(),
        }
    }

    /// The mark of unsaved changes.
    pub(crate) fn mark(&self) -> (res: &'static str)
        ensures
            res@ == dirty_mark(self.dirty),
    {
        if self.dirty {
            " [+]"
        } else {
            ""
        }
    }

    /// Says which file is open, how long it is, and whether it has unsaved changes.
    fn show_file(&mut self)
        ensures
            final(self)@ == old(self)@.command_applied(crate::command::CommandView::File),
    {
        let mut status = quoted_text(&self.path_text(), " ");
        status.append(decimal_text(self.lines.len() as u128).as_str());
        status.append(" lines");
        status.append(self.mark());
        self.status = status;
    }

    /// Carries out what a command asks for, as far as the editor can.
    fn apply_command(&mut self, command: Command) -> (res: Result<Effect, SaveError>)
        requires
            old(self)@.has_line(),
        ensures
            final(self)@ == old(self)@.command_applied(command@),
            outcome(res) == old(self)@.command_outcome(command@),
    {
        match command {
            Command::Quit => self.quit_or_warn("No write since last change (use :wq or :q!)"),
            Command::QuitAll => self.quit_or_warn("No write since last change (use :wqa or :qa!)"),
            Command::ForceQuit => {
                self.should_quit = true;
            },
            Command::Write(path) => {
                return self.write_command(path, false);
            },
            Command::WriteQuit(path) => {
                return self.write_command(path, true);
            },
            Command::New => {
                if self.dirty {
                    self.status = "No write since last change (use :w or :enew!)".to_owned();
                } else {
                    self.clear_text();
                    self.status = "[No Name]".to_owned();
                }
            },
            Command::Edit(path) => {
                if path.as_str().is_empty() {
                    self.status = "Usage: :edit <path>".to_owned();
                } else if self.dirty {
                    self.status = "No write since last change (use :w or :edit!)".to_owned();
                } else {
                    let path = FilePath { text: path, origin: Origin::Typed };
                    return Ok(Effect::Read { path });
                }
            },
            Command::WorkingDirectory => {
                return Ok(Effect::ShowDirectory);
            },
            Command::File => self.show_file(),
            Command::Version => {
                self.status = "JamesevIM Rust 0.1.0 (Vim-compatible migration)".to_owned();
            },
            Command::ShowNumbers => {
                self.status = "line numbers are enabled".to_owned();
            },
            Command::HideNumbers => {
                self.status = "line numbers cannot be hidden in this build".to_owned();
            },
            Command::Delete => {
                self.copy_line();
                self.delete_line();
            },
            Command::Yank => self.yank_line(),
            Command::PutAfter => self.put_lines(false),
            Command::PutBefore => self.put_lines(true),
            Command::Join => self.join_line(),
            Command::Help => {
                self.status = "Core: :e :w :wq :q :qa | Edit: :d :y :p :P :j".to_owned();
            },
            Command::Unknown(text) => {
                let mut status = "Not an editor command: ".to_owned();
                status.append(text.as_str());
                self.status = status;
            },
        }
        Ok(Effect::Done)
    }

    /// Carries out the command line, as far as the editor can. The outcome says what is left
    /// for the caller to do.
    pub fn execute_command(&mut self) -> (res: Result<Effect, SaveError>)
        requires
            old(self)@.has_line(),
        ensures
            final(self)@ == old(self)@.command_executed(),
            outcome(res) == old(self)@.command_outcome(command_of(old(self)@.command)),
    {
        let command = parse_command(&self.command);
        self.command = String::new();
        let res = self.apply_command(command);
        match &res {
            Ok(Effect::Done) => {
                self.mode = Mode::Normal;
            },
            _ => {},
        }
        res
    }

    /// Moves the cursor one column to the left.
    fn move_left(&mut self)
        ensures
            final(self)@ == old(self)@.moved_left(),
    {
        if self.cursor_col > 0 {
            self.cursor_col = self.cursor_col - 1;
        }
    }

    /// Moves the cursor one column to the right, up to the given one.
    fn move_right(&mut self, limit: usize)
        ensures
            final(self)@ == old(self)@.moved_right(limit as int),
    {
        self.cursor_col = if self.cursor_col < limit {
            self.cursor_col + 1
        } else {
            limit
        };
    }

    /// Moves the cursor to the line above.
    fn move_up(&mut self)
        ensures
            final(self)@ == old(self)@.moved_up(),
    {
        if self.cursor_line > 0 {
            self.cursor_line = self.cursor_line - 1;
        }
    }

    /// Moves the cursor to the line below.
    fn move_down(&mut self)
        requires
            old(self).lines.len() > 0,
        ensures
            final(self)@ == old(self)@.moved_down(),
    {
        let last: usize = self.lines.len() - 1;
        self.cursor_line = if self.cursor_line < last {
            self.cursor_line + 1
        } else {
            last
        };
    }

    /// Moves the cursor as the keys `h`, `j`, `k`, `l` and the arrow keys say.
    fn move_by(&mut self, code: KeyCode)
        requires
            old(self)@.has_line(),
        ensures
            final(self)@ == old(self)@.moved_by(code),
    {
        match code {
            KeyCode::Left | KeyCode::Char('h') => self.move_left(),
            KeyCode::Right | KeyCode::Char('l') => {
                let len: usize = self.current_len();
                self.move_right(
                    if len > 0 {
                        len - 1
                    } else {
                        0
                    },
                );
            },
            KeyCode::Up | KeyCode::Char('k') => self.move_up(),
            KeyCode::Down | KeyCode::Char('j') => self.move_down(),
            _ => {},
        }
    }

    /// Handles a key in insert mode.
    pub fn handle_insert_key(&mut self, key: KeyPress)
        requires
            old(self)@.has_line(),
            old(self)@.accepts_insert_key(key),
        ensures
            final(self)@ == old(self)@.insert_key_handled(key),
    {
        match key.code {
            KeyCode::Esc => {
                self.mode = Mode::Normal;
                self.clamp_cursor();
                self.status = "NORMAL mode".to_owned();
            },
            KeyCode::Enter => self.insert_newline(),
            KeyCode::Backspace => self.backspace(),
            KeyCode::Left => self.move_left(),
            KeyCode::Right => {
                let len: usize = self.current_len();
                self.move_right(len);
            },
            KeyCode::Up => self.move_up(),
            KeyCode::Down => self.move_down(),
            KeyCode::Char(character) => {
                if !key.control {
                    self.insert_char(character);
                }
            },
            KeyCode::Other => {},
        }
        self.clamp_cursor();
    }

    /// Handles a key in command mode.
    pub fn handle_command_key(&mut self, key: KeyPress) -> (res: Result<Effect, SaveError>)
        requires
            old(self)@.has_line(),
        ensures
            final(self)@ == old(self)@.command_key_handled(key),
            outcome(res) == old(self)@.command_key_outcome(key),
    {
        match key.code {
            KeyCode::Esc => {
                self.command = String::new();
                self.mode = Mode::Normal;
            },
            KeyCode::Enter => {
                return self.execute_command();
            },
            KeyCode::Backspace => {
                let chars = to_chars(&self.command);
                let len: usize = chars.len();
                if len > 0 {
                    self.command = from_chars(&chars, 0, len - 1);
                    assert(self.command@ == old(self).command@.drop_last());
                }
                if self.command.as_str().is_empty() {
                    self.mode = Mode::Normal;
                }
            },
            KeyCode::Char(character) => self.command.push(character),
            _ => {},
        }
        Ok(Effect::Done)
    }

    /// Handles the second key of an operator.
    fn complete_operator(&mut self, operator: char, code: KeyCode)
        requires
            old(self)@.has_line(),
        ensures
            final(self)@ == old(self)@.operator_completed(operator, code),
    {
        if operator == 'd' && code == KeyCode::Char('d') {
            self.copy_line();
            self.delete_line();
        } else if operator == 'y' && code == KeyCode::Char('y') {
            self.yank_line();
        } else {
            let mut status = "operator ".to_owned();
            status.push(operator);
            status.append(" canceled");
            assert(status@ == "operator "@ + seq![operator] + " canceled"@);
            self.status = status;
        }
    }

    /// Handles a key in normal mode that is not the second key of an operator.
    fn apply_normal_key(&mut self, code: KeyCode)
        requires
            old(self)@.has_line(),
            code == KeyCode::Char('x') && old(self)@.line().len() > 0 ==> old(self)@.on_char(),
        ensures
            final(self)@ == old(self)@.normal_key_applied(code),
    {
        match code {
            KeyCode::Char(':') => {
                self.mode = Mode::Command;
                self.command = String::new();
            },
            KeyCode::Char('v') => {
                self.mode = Mode::Visual;
                self.visual_anchor = Some((self.cursor_line, self.cursor_col));
                self.status = "VISUAL mode".to_owned();
            },
            KeyCode::Char('i') => {
                self.mode = Mode::Insert;
            },
            KeyCode::Char('a') => {
                let len: usize = self.current_len();
                self.move_right(len);
                self.mode = Mode::Insert;
            },
            KeyCode::Char('o') => {
                proof {
                    lemma_ends_are_boundaries(self@.line());
                }
                self.cursor_col = self.current_len();
                self.insert_newline();
                self.mode = Mode::Insert;
            },
            KeyCode::Char('x') => self.delete_char(),
            KeyCode::Char('d') => {
                self.pending = Some('d');
            },
            KeyCode::Char('y') => {
                self.pending = Some('y');
            },
            KeyCode::Char('p') => self.put_lines(false),
            KeyCode::Char('P') => self.put_lines(true),
            KeyCode::Char('J') => self.join_line(),
            _ => self.move_by(code),
        }
    }

    /// Handles a key in normal mode.
    pub fn handle_normal_key(&mut self, key: KeyPress)
        requires
            old(self)@.has_line(),
            old(self)@.accepts_normal_key(key),
        ensures
            final(self)@ == old(self)@.normal_key_handled(key),
    {
        let pending = self.pending;
        self.pending = None;
        match pending {
            Some(operator) => self.complete_operator(operator, key.code),
            None => self.apply_normal_key(key.code),
        }
        self.clamp_cursor();
    }

    /// Handles a key in visual mode.
    pub fn handle_visual_key(&mut self, key: KeyPress)
        requires
            old(self)@.has_line(),
            old(self)@.accepts_visual_key(key),
        ensures
            final(self)@ == old(self)@.visual_key_handled(key),
    {
        match key.code {
            KeyCode::Esc | KeyCode::Char('v') => {
                self.mode = Mode::Normal;
                self.visual_anchor = None;
                self.status = "NORMAL mode".to_owned();
            },
            KeyCode::Char('d') => self.delete_visual_lines(),
            KeyCode::Char('y') => self.yank_visual_lines(),
            _ => self.move_by(key.code),
        }
        self.clamp_cursor();
    }

    /// Whether a key can be handled.
    pub fn accepts(&self, key: KeyPress) -> (res: bool)
        ensures
            res == self@.accepts(key),
    {
        if self.cursor_line >= self.lines.len() {
            return false;
        }
        let at_boundary = is_boundary(&self.lines[self.cursor_line], self.cursor_col);
        match self.mode {
            Mode::Insert => match key.code {
                KeyCode::Enter => at_boundary,
                KeyCode::Backspace => self.cursor_col == 0 || at_boundary,
                KeyCode::Char(_) => key.control || at_boundary,
                _ => true,
            },
            Mode::Normal => {
                let deletes = self.pending.is_none() && key.code == KeyCode::Char('x');
                !deletes || self.current_line().is_empty() || (at_boundary && self.cursor_col
                    < self.current_len())
            },
            Mode::Visual => {
                let takes_lines = key.code == KeyCode::Char('d') || key.code == KeyCode::Char('y');
                !takes_lines || match self.visual_bounds() {
                    Some((_, last)) => last < self.lines.len(),
                    None => true,
                }
            },
            Mode::Command => true,
        }
    }

    /// Handles a key. The outcome says what is left for the caller to do.
    pub fn handle_key(&mut self, key: KeyPress) -> (res: Result<Effect, SaveError>)
        requires
            old(self)@.accepts(key),
        ensures
            final(self)@ == old(self)@.key_handled(key),
            outcome(res) == old(self)@.key_outcome(key),
            old(self)@.inv() ==> final(self)@.inv(),
    {
        proof {
            if self@.inv() {
                law_keys_keep_invariant(self@, key);
            }
        }
        match self.mode {
            Mode::Insert => self.handle_insert_key(key),
            Mode::Command => {
                return self.handle_command_key(key);
            },
            Mode::Normal => self.handle_normal_key(key),
            Mode::Visual => self.handle_visual_key(key),
        }
        Ok(Effect::Done)
    }
}

} // verus!
