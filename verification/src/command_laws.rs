//! What each command line does, with its text written out.
use vstd::prelude::*;

use crate::document::{contents_of, lines_of};
use crate::edit_laws::{
    clipboard_came_in, clipboard_holds_line, law_join_makes_one_line, law_put_inserts_the_clipboard,
    law_put_tells_the_count, line_gone, lines_became_one, press,
};
use crate::format::{decimal, is_blank, is_white_space, law_trimming_finds_text};
use crate::keys::{KeyCode, Mode};
use crate::state::{EditorState, EffectView, FilePathView, Origin, Outcome, SaveError};

verus! {

/// The lengths and the first characters of the names and prefixes of commands, which tell any
/// two of them apart.
proof fn lemma_names()
    ensures
        "q"@.len() == 1,
        "q"@[0] == 'q',
        "qa"@.len() == 2,
        "qa"@[0] == 'q',
        "qa"@[1] == 'a',
        "qall"@.len() == 4,
        "qall"@[0] == 'q',
        "qall"@[1] == 'a',
        "qall"@[2] == 'l',
        "qall"@[3] == 'l',
        "q!"@.len() == 2,
        "q!"@[0] == 'q',
        "q!"@[1] == '!',
        "qa!"@.len() == 3,
        "qa!"@[0] == 'q',
        "qa!"@[1] == 'a',
        "qa!"@[2] == '!',
        "qall!"@.len() == 5,
        "qall!"@[0] == 'q',
        "qall!"@[1] == 'a',
        "qall!"@[2] == 'l',
        "qall!"@[3] == 'l',
        "qall!"@[4] == '!',
        "w"@.len() == 1,
        "w"@[0] == 'w',
        "wq"@.len() == 2,
        "wq"@[0] == 'w',
        "wq"@[1] == 'q',
        "x"@.len() == 1,
        "x"@[0] == 'x',
        "wqa"@.len() == 3,
        "wqa"@[0] == 'w',
        "wqa"@[1] == 'q',
        "wqa"@[2] == 'a',
        "wq!"@.len() == 3,
        "wq!"@[0] == 'w',
        "wq!"@[1] == 'q',
        "wq!"@[2] == '!',
        "x!"@.len() == 2,
        "x!"@[0] == 'x',
        "x!"@[1] == '!',
        "wqa!"@.len() == 4,
        "wqa!"@[0] == 'w',
        "wqa!"@[1] == 'q',
        "wqa!"@[2] == 'a',
        "wqa!"@[3] == '!',
        "enew"@.len() == 4,
        "enew"@[0] == 'e',
        "enew"@[1] == 'n',
        "enew"@[2] == 'e',
        "enew"@[3] == 'w',
        "pwd"@.len() == 3,
        "pwd"@[0] == 'p',
        "pwd"@[1] == 'w',
        "pwd"@[2] == 'd',
        "file"@.len() == 4,
        "file"@[0] == 'f',
        "file"@[1] == 'i',
        "file"@[2] == 'l',
        "file"@[3] == 'e',
        "version"@.len() == 7,
        "version"@[0] == 'v',
        "version"@[1] == 'e',
        "version"@[2] == 'r',
        "version"@[3] == 's',
        "version"@[4] == 'i',
        "set number"@.len() == 10,
        "set number"@[0] == 's',
        "set number"@[1] == 'e',
        "set number"@[2] == 't',
        "set number"@[3] == ' ',
        "set number"@[4] == 'n',
        "set nu"@.len() == 6,
        "set nu"@[0] == 's',
        "set nu"@[1] == 'e',
        "set nu"@[2] == 't',
        "set nu"@[3] == ' ',
        "set nu"@[4] == 'n',
        "set nonumber"@.len() == 12,
        "set nonumber"@[0] == 's',
        "set nonumber"@[1] == 'e',
        "set nonumber"@[2] == 't',
        "set nonumber"@[3] == ' ',
        "set nonumber"@[4] == 'n',
        "set nonu"@.len() == 8,
        "set nonu"@[0] == 's',
        "set nonu"@[1] == 'e',
        "set nonu"@[2] == 't',
        "set nonu"@[3] == ' ',
        "set nonu"@[4] == 'n',
        "d"@.len() == 1,
        "d"@[0] == 'd',
        "delete"@.len() == 6,
        "delete"@[0] == 'd',
        "delete"@[1] == 'e',
        "delete"@[2] == 'l',
        "delete"@[3] == 'e',
        "delete"@[4] == 't',
        "y"@.len() == 1,
        "y"@[0] == 'y',
        "yank"@.len() == 4,
        "yank"@[0] == 'y',
        "yank"@[1] == 'a',
        "yank"@[2] == 'n',
        "yank"@[3] == 'k',
        "p"@.len() == 1,
        "p"@[0] == 'p',
        "put"@.len() == 3,
        "put"@[0] == 'p',
        "put"@[1] == 'u',
        "put"@[2] == 't',
        "P"@.len() == 1,
        "P"@[0] == 'P',
        "Put"@.len() == 3,
        "Put"@[0] == 'P',
        "Put"@[1] == 'u',
        "Put"@[2] == 't',
        "j"@.len() == 1,
        "j"@[0] == 'j',
        "join"@.len() == 4,
        "join"@[0] == 'j',
        "join"@[1] == 'o',
        "join"@[2] == 'i',
        "join"@[3] == 'n',
        "help"@.len() == 4,
        "help"@[0] == 'h',
        "help"@[1] == 'e',
        "help"@[2] == 'l',
        "help"@[3] == 'p',
        "e "@.len() == 2,
        "e "@[0] == 'e',
        "e "@[1] == ' ',
        "edit "@.len() == 5,
        "edit "@[0] == 'e',
        "edit "@[1] == 'd',
        "edit "@[2] == 'i',
        "edit "@[3] == 't',
        "edit "@[4] == ' ',
        "w "@.len() == 2,
        "w "@[0] == 'w',
        "w "@[1] == ' ',
        "wq "@.len() == 3,
        "wq "@[0] == 'w',
        "wq "@[1] == 'q',
        "wq "@[2] == ' ',
        "x "@.len() == 2,
        "x "@[0] == 'x',
        "x "@[1] == ' ',
{
    reveal_strlit("q");
    reveal_strlit("qa");
    reveal_strlit("qall");
    reveal_strlit("q!");
    reveal_strlit("qa!");
    reveal_strlit("qall!");
    reveal_strlit("w");
    reveal_strlit("wq");
    reveal_strlit("x");
    reveal_strlit("wqa");
    reveal_strlit("wq!");
    reveal_strlit("x!");
    reveal_strlit("wqa!");
    reveal_strlit("enew");
    reveal_strlit("pwd");
    reveal_strlit("file");
    reveal_strlit("version");
    reveal_strlit("set number");
    reveal_strlit("set nu");
    reveal_strlit("set nonumber");
    reveal_strlit("set nonu");
    reveal_strlit("d");
    reveal_strlit("delete");
    reveal_strlit("y");
    reveal_strlit("yank");
    reveal_strlit("p");
    reveal_strlit("put");
    reveal_strlit("P");
    reveal_strlit("Put");
    reveal_strlit("j");
    reveal_strlit("join");
    reveal_strlit("help");
    reveal_strlit("e ");
    reveal_strlit("edit ");
    reveal_strlit("w ");
    reveal_strlit("wq ");
    reveal_strlit("x ");
}

/// The state after the enter key.
pub open spec fn entered(state: EditorState, control: bool) -> EditorState {
    state.key_handled(press(KeyCode::Enter, control))
}

/// What the enter key asks of the surroundings.
pub open spec fn asked(state: EditorState, control: bool) -> Outcome {
    state.key_outcome(press(KeyCode::Enter, control))
}

/// The state in which the command line has been left.
pub open spec fn back_to_normal(state: EditorState) -> EditorState {
    EditorState { mode: Mode::Normal, command: Seq::empty(), ..state }
}

/// Nothing is asked of the surroundings.
pub open spec fn nothing() -> Outcome {
    Ok(EffectView::Done)
}

/// The commands `q`, `qa` and `qall` leave, or warn of unsaved changes and do nothing else.
pub proof fn law_quit_commands(state: EditorState, control: bool)
    requires
        state.mode is Command,
        state.command == "q"@ || state.command == "qa"@ || state.command == "qall"@,
    ensures
        asked(state, control) == nothing(),
        !state.dirty ==> entered(state, control) == (EditorState {
            should_quit: true,
            ..back_to_normal(state)
        }),
        state.dirty ==> entered(state, control) == (EditorState {
            status: if state.command == "q"@ {
                "No write since last change (use :wq or :q!)"@
            } else {
                "No write since last change (use :wqa or :qa!)"@
            },
            ..back_to_normal(state)
        }),
{
    lemma_names();
}

/// The commands `q!`, `qa!` and `qall!` leave whether or not there are unsaved changes.
pub proof fn law_forced_quit_commands(state: EditorState, control: bool)
    requires
        state.mode is Command,
        state.command == "q!"@ || state.command == "qa!"@ || state.command == "qall!"@,
    ensures
        asked(state, control) == nothing(),
        entered(state, control) == (EditorState { should_quit: true, ..back_to_normal(state) }),
{
    lemma_names();
}

/// The save commands without a path ask for the whole text to be written under the path that
/// the editor knows, and fail if it knows none. The text and the path stay as they are.
pub proof fn law_save_commands(state: EditorState, quit: bool, control: bool)
    requires
        state.mode is Command,
        if quit {
            ||| state.command == "wq"@ || state.command == "x"@ || state.command == "wqa"@
            ||| state.command == "wq!"@ || state.command == "x!"@ || state.command == "wqa!"@
        } else {
            state.command == "w"@
        },
    ensures
        entered(state, control) == (EditorState { command: Seq::empty(), ..state }),
        state.path is None ==> asked(state, control) == Outcome::Err(SaveError::NoFileName),
        state.path matches Some(path) ==> asked(state, control) == Outcome::Ok(
            EffectView::Write { path, contents: contents_of(state.lines), quit },
        ),
{
    lemma_names();
}

/// Whether white space may stand around a text without being taken for a part of it.
pub open spec fn has_solid_ends(text: Seq<char>) -> bool {
    text.len() > 0 ==> !is_white_space(text[0]) && !is_white_space(text.last())
}

proof fn lemma_argument(prefix: Seq<char>, before: Seq<char>, path: Seq<char>, after: Seq<char>)
    requires
        is_blank(before),
        is_blank(after),
        has_solid_ends(path),
    ensures
        crate::command::argument(prefix + before + path + after, prefix) == path,
        prefix.is_prefix_of(prefix + before + path + after),
        (prefix + before + path + after).len() >= prefix.len(),
        forall|i: int|
            0 <= i < prefix.len() ==> (prefix + before + path + after)[i] == #[trigger] prefix[i],
{
    let text = prefix + before + path + after;
    assert(text.skip(prefix.len() as int) == before + path + after);
    assert(text.subrange(0, prefix.len() as int) == prefix);
    law_trimming_finds_text(before, path, after);
}

/// The save commands with a path ask for the whole text to be written under that path, which
/// the editor then knows, whatever path it knew before. White space around the path is not a
/// part of it.
pub proof fn law_save_commands_with_a_path(
    state: EditorState,
    prefix: Seq<char>,
    before: Seq<char>,
    path: Seq<char>,
    after: Seq<char>,
    control: bool,
)
    requires
        state.mode is Command,
        prefix == "w "@ || prefix == "wq "@ || prefix == "x "@,
        state.command == prefix + before + path + after,
        is_blank(before),
        is_blank(after),
        has_solid_ends(path),
    ensures
        ({
            let named = FilePathView { text: path, origin: Origin::Typed };
            &&& asked(state, control) == Outcome::Ok(
                EffectView::Write {
                    path: named,
                    contents: contents_of(state.lines),
                    quit: prefix != "w "@,
                },
            )
            &&& entered(state, control) == (EditorState {
                path: Some(named),
                command: Seq::empty(),
                ..state
            })
        }),
{
    lemma_names();
    lemma_argument(prefix, before, path, after);
    let text = state.command;
    assert(text[0] == prefix[0]);
    assert(text[1] == prefix[1]);
    assert("w "@.is_prefix_of(text) ==> text[1] == "w "@[1]) by {
        assert("w "@.is_prefix_of(text) ==> "w "@[1] == text.subrange(0, 2)[1]);
    }
    assert("e "@.is_prefix_of(text) ==> text[0] == "e "@[0]) by {
        assert("e "@.is_prefix_of(text) ==> "e "@[0] == text.subrange(0, 2)[0]);
    }
    assert("edit "@.is_prefix_of(text) ==> text[0] == "edit "@[0]) by {
        assert("edit "@.is_prefix_of(text) ==> "edit "@[0] == text.subrange(0, 5)[0]);
    }
    assert("wq "@.is_prefix_of(text) ==> text[0] == "wq "@[0]) by {
        assert("wq "@.is_prefix_of(text) ==> "wq "@[0] == text.subrange(0, 3)[0]);
    }
    if prefix == "wq "@ {
        assert(text[2] == prefix[2]);
    }
}

/// The commands `e` and `edit` with a path ask for that file to be read, unless there are
/// unsaved changes or the path is empty. Nothing else changes but for what they say then.
pub proof fn law_edit_commands(
    state: EditorState,
    prefix: Seq<char>,
    before: Seq<char>,
    path: Seq<char>,
    after: Seq<char>,
    control: bool,
)
    requires
        state.mode is Command,
        prefix == "e "@ || prefix == "edit "@,
        state.command == prefix + before + path + after,
        is_blank(before),
        is_blank(after),
        has_solid_ends(path),
    ensures
        path.len() > 0 && !state.dirty ==> {
            &&& asked(state, control) == Outcome::Ok(
                EffectView::Read { path: FilePathView { text: path, origin: Origin::Typed } },
            )
            &&& entered(state, control) == (EditorState { command: Seq::empty(), ..state })
        },
        path.len() > 0 && state.dirty ==> {
            &&& asked(state, control) == nothing()
            &&& entered(state, control) == (EditorState {
                status: "No write since last change (use :w or :edit!)"@,
                ..back_to_normal(state)
            })
        },
        path.len() == 0 ==> {
            &&& asked(state, control) == nothing()
            &&& entered(state, control) == (EditorState {
                status: "Usage: :edit <path>"@,
                ..back_to_normal(state)
            })
        },
{
    lemma_names();
    lemma_argument(prefix, before, path, after);
    let text = state.command;
    assert(text[0] == prefix[0]);
    assert(text[1] == prefix[1]);
    assert("e "@.is_prefix_of(text) ==> text[1] == "e "@[1]) by {
        assert("e "@.is_prefix_of(text) ==> "e "@[1] == text.subrange(0, 2)[1]);
    }
}

/// The command `enew` starts over with one empty line and without a path, unless there are
/// unsaved changes. Clipboard, mark of changes and all the rest are kept.
pub proof fn law_new_command(state: EditorState, control: bool)
    requires
        state.mode is Command,
        state.command == "enew"@,
    ensures
        asked(state, control) == nothing(),
        state.dirty ==> entered(state, control) == (EditorState {
            status: "No write since last change (use :w or :enew!)"@,
            ..back_to_normal(state)
        }),
        !state.dirty ==> entered(state, control) == (EditorState {
            path: None,
            lines: seq![Seq::<char>::empty()],
            cursor_line: 0,
            cursor_col: 0,
            scroll_top: 0,
            visual_anchor: None,
            status: "[No Name]"@,
            ..back_to_normal(state)
        }),
{
    lemma_names();
}

/// The command `pwd` asks for the working directory, and changes nothing.
pub proof fn law_directory_command(state: EditorState, control: bool)
    requires
        state.mode is Command,
        state.command == "pwd"@,
    ensures
        asked(state, control) == Outcome::Ok(EffectView::ShowDirectory),
        entered(state, control) == (EditorState { command: Seq::empty(), ..state }),
{
    lemma_names();
}

/// The command `file` tells the path, or that there is none, the number of lines, and whether
/// there are unsaved changes, and changes nothing else.
pub proof fn law_file_command(state: EditorState, control: bool)
    requires
        state.mode is Command,
        state.command == "file"@,
    ensures
        ({
            let after = entered(state, control);
            let name = match state.path {
                Some(path) => path.text,
                None => "[No Name]"@,
            };
            let told = seq!['"'] + name + seq!['"', ' '] + decimal(state.lines.len()) + " lines"@;
            &&& asked(state, control) == nothing()
            &&& after == (EditorState { status: after.status, ..back_to_normal(state) })
            &&& after.status == if state.dirty {
                told + " [+]"@
            } else {
                told
            }
        }),
{
    lemma_names();
    reveal_strlit("\"");
    reveal_strlit(" ");
    reveal_strlit("");
    let after = entered(state, control);
    let name = match state.path {
        Some(path) => path.text,
        None => "[No Name]"@,
    };
    let told = seq!['"'] + name + seq!['"', ' '] + decimal(state.lines.len()) + " lines"@;
    if state.dirty {
        assert(after.status == told + " [+]"@);
    } else {
        assert(after.status == told);
    }
}

/// The commands that only tell something say what they say, and change nothing else.
pub proof fn law_telling_commands(state: EditorState, control: bool)
    requires
        state.mode is Command,
    ensures
        ({
            let after = entered(state, control);
            let told = |status: Seq<char>|
                asked(state, control) == nothing() && after == (EditorState {
                    status,
                    ..back_to_normal(state)
                });
            &&& state.command == "version"@ ==> told(
                "JamesevIM Rust 0.1.0 (Vim-compatible migration)"@,
            )
            &&& state.command == "set number"@ || state.command == "set nu"@ ==> told(
                "line numbers are enabled"@,
            )
            &&& state.command == "set nonumber"@ || state.command == "set nonu"@ ==> told(
                "line numbers cannot be hidden in this build"@,
            )
            &&& state.command == "help"@ ==> told(
                "Core: :e :w :wq :q :qa | Edit: :d :y :p :P :j"@,
            )
        }),
{
    lemma_names();
}

/// The commands `d` and `delete` take the cursor's line away and keep it in the clipboard; `y`
/// and `yank` keep it in the clipboard and change no line.
pub proof fn law_line_commands(state: EditorState, control: bool)
    requires
        state.mode is Command,
        0 <= state.cursor_line < state.lines.len(),
    ensures
        state.command == "d"@ || state.command == "delete"@ ==> {
            &&& asked(state, control) == nothing()
            &&& line_gone(back_to_normal(state), entered(state, control))
            &&& clipboard_holds_line(state, entered(state, control))
            &&& entered(state, control).pending == state.pending
        },
        state.command == "y"@ || state.command == "yank"@ ==> {
            &&& asked(state, control) == nothing()
            &&& clipboard_holds_line(state, entered(state, control))
            &&& entered(state, control) == (EditorState {
                clipboard: entered(state, control).clipboard,
                status: "1 line yanked"@,
                ..back_to_normal(state)
            })
        },
{
    lemma_names();
}

/// The commands `p` and `put` insert the lines of the clipboard after the cursor's line, and
/// `P` and `Put` before it. They tell how many, and do nothing if there are none.
pub proof fn law_put_commands(state: EditorState, before: bool, control: bool)
    requires
        state.mode is Command,
        0 <= state.cursor_line < state.lines.len(),
        if before {
            state.command == "P"@ || state.command == "Put"@
        } else {
            state.command == "p"@ || state.command == "put"@
        },
    ensures
        asked(state, control) == nothing(),
        state.clipboard.len() == 0 ==> entered(state, control) == (EditorState {
            status: "Nothing to put"@,
            ..back_to_normal(state)
        }),
        state.clipboard.len() > 0 ==> clipboard_came_in(
            back_to_normal(state),
            entered(state, control),
            if before {
                state.cursor_line
            } else {
                state.cursor_line + 1
            },
        ),
        state.clipboard.len() == 1 ==> entered(state, control).status == "1 line put"@,
        state.clipboard.len() > 1 ==> entered(state, control).status == decimal(state.clipboard.len())
            + " lines put"@,
{
    lemma_names();
    let ready = EditorState { command: Seq::empty(), ..state };
    law_put_tells_the_count(ready, before);
    if state.clipboard.len() > 0 {
        law_put_inserts_the_clipboard(ready, false);
    }
}

/// The commands `j` and `join` make one line of the cursor's line and the next one, and refuse
/// to do so with the last line.
pub proof fn law_join_commands(state: EditorState, space: Seq<char>, text: Seq<char>, control: bool)
    requires
        state.mode is Command,
        state.command == "j"@ || state.command == "join"@,
        0 <= state.cursor_line < state.lines.len(),
        0 <= state.cursor_col,
        state.cursor_line + 1 < state.lines.len() ==> state.lines[state.cursor_line + 1] == space
            + text,
        is_blank(space),
        text.len() > 0 ==> !is_white_space(text[0]),
    ensures
        asked(state, control) == nothing(),
        state.cursor_line + 1 < state.lines.len() ==> lines_became_one(
            back_to_normal(state),
            entered(state, control),
            text,
        ),
        state.cursor_line + 1 == state.lines.len() ==> entered(state, control) == (EditorState {
            status: "E294: cannot join last line"@,
            ..back_to_normal(state)
        }),
{
    lemma_names();
    if state.cursor_line + 1 < state.lines.len() {
        let ready = EditorState { command: Seq::empty(), ..state };
        law_join_makes_one_line(ready, space, text, false);
    }
}

/// Whether a text is the name of a command.
pub open spec fn is_name(text: Seq<char>) -> bool {
    ||| text == "q"@ || text == "qa"@ || text == "qall"@ || text == "q!"@
    ||| text == "qa!"@ || text == "qall!"@ || text == "w"@ || text == "wq"@
    ||| text == "x"@ || text == "wqa"@ || text == "wq!"@ || text == "x!"@
    ||| text == "wqa!"@ || text == "enew"@ || text == "pwd"@ || text == "file"@
    ||| text == "version"@ || text == "set number"@ || text == "set nu"@ || text == "set nonumber"@
    ||| text == "set nonu"@ || text == "d"@ || text == "delete"@ || text == "y"@
    ||| text == "yank"@ || text == "p"@ || text == "put"@ || text == "P"@
    ||| text == "Put"@ || text == "j"@ || text == "join"@ || text == "help"@
}

/// Whether a text starts with the name of a command that takes a path, and a space.
pub open spec fn has_name(text: Seq<char>) -> bool {
    exists|prefix: Seq<char>, rest: Seq<char>|
        text == #[trigger] (prefix + rest) && (prefix == "e "@ || prefix == "edit "@ || prefix
            == "w "@ || prefix == "wq "@ || prefix == "x "@)
}

/// Any other command line does nothing but tell that it is none.
pub proof fn law_other_command_lines(state: EditorState, control: bool)
    requires
        state.mode is Command,
        !is_name(state.command),
        !has_name(state.command),
    ensures
        asked(state, control) == nothing(),
        entered(state, control) == (EditorState {
            status: "Not an editor command: "@ + state.command,
            ..back_to_normal(state)
        }),
{
    let text = state.command;
    assert forall|prefix: Seq<char>| #[trigger] prefix.is_prefix_of(text) implies text == prefix
        + text.skip(prefix.len() as int) by {
        assert(text == text.take(prefix.len() as int) + text.skip(prefix.len() as int));
    }
}

/// Once the text has been written, nothing is unsaved, the path is told, and the editor leaves
/// if that was asked for. Nothing else changes.
pub proof fn law_completed_writes(state: EditorState, path: FilePathView, quit: bool)
    ensures
        ({
            let told = seq!['"'] + path.text + seq!['"'] + " written"@;
            &&& state.saved(path) == (EditorState { dirty: false, status: told, ..state })
            &&& state.write_completed(path, quit) == (EditorState {
                dirty: false,
                status: told,
                mode: Mode::Normal,
                should_quit: quit || state.should_quit,
                ..state
            })
        }),
{
    reveal_strlit("\"");
}

/// Once a file has been read, its lines are the text, its path is the path, nothing is unsaved,
/// and the cursor and the window are at the start. Clipboard and all the rest are kept.
pub proof fn law_completed_reads(state: EditorState, path: FilePathView, contents: Seq<char>)
    ensures
        ({
            let told = seq!['"'] + path.text + seq!['"'] + " loaded"@;
            let shown = EditorState {
                path: Some(path),
                lines: lines_of(contents),
                cursor_line: 0,
                cursor_col: 0,
                scroll_top: 0,
                visual_anchor: None,
                dirty: false,
                ..state
            };
            &&& state.loaded(path, contents) == shown
            &&& state.read_completed(path, contents) == (EditorState {
                status: told,
                mode: Mode::Normal,
                ..shown
            })
        }),
{
    reveal_strlit("\"");
}

/// Once the working directory is known, it is told, and nothing else changes.
pub proof fn law_completed_directories(state: EditorState, directory: Seq<char>)
    ensures
        state.directory_shown(directory) == (EditorState {
            status: directory,
            mode: Mode::Normal,
            ..state
        }),
{
}

/// A save without a path goes to the path that the editor knows, and one with a path to that
/// path, which the editor then knows.
pub proof fn law_saves_go_to_the_requested_path(
    state: EditorState,
    requested: Option<FilePathView>,
)
    ensures
        ({
            let path = match requested {
                Some(named) => Some(named),
                None => state.path,
            };
            &&& state.save_path(requested) == path
            &&& state.save_requested(requested) == (EditorState { path, ..state })
        }),
{
}

/// An editor that has just been opened shows the start of its text in normal mode, with
/// nothing kept, waiting or unsaved.
pub proof fn law_opened_editors(path: Option<FilePathView>, lines: Seq<Seq<char>>)
    ensures
        ({
            let state = EditorState::opened(path, lines);
            &&& state.path == path
            &&& state.lines == lines
            &&& state.cursor_line == 0 && state.cursor_col == 0 && state.scroll_top == 0
            &&& state.mode is Normal
            &&& state.visual_anchor is None && state.pending is None
            &&& state.command.len() == 0 && state.clipboard.len() == 0
            &&& state.status == "JamesevIM Rust - NORMAL mode"@
            &&& !state.dirty && !state.should_quit
            &&& crate::state::blank().len() == 1 && crate::state::blank()[0].len() == 0
        }),
{
}

} // verus!
