//! What stands where on the screen, and what the executable types show of themselves in the
//! model.
use vstd::prelude::*;

use crate::command::{optional_text, Command, CommandView};
use crate::edit_laws::{between, bytes};
use crate::editor::{optional_path, Editor, FilePath};
use crate::format::{decimal, law_alignment_adds_spaces};
use crate::input::{outcome, Effect};
use crate::keys::Mode;
use crate::screen::{above, Frame};
use crate::state::{EditorState, EffectView, Outcome, SaveError};
use crate::text::law_lengths_are_encoded_lengths;

verus! {

/// How far one number is above another.
pub proof fn law_above_is_the_distance(a: int, b: int)
    ensures
        a >= b ==> above(a, b) == a - b,
        a <= b ==> above(a, b) == 0,
{
}

/// The screen shows the lines from the top of the window on, as many as there are and as fit
/// above the status line and the ruler.
pub proof fn law_rows_fill_the_screen(state: EditorState, width: int, height: int)
    requires
        0 <= state.scroll_top,
        0 <= width,
        0 <= height,
    ensures
        ({
            let count = state.frame(width, height).rows.len();
            &&& count <= height || count == 0
            &&& height <= 2 || state.scroll_top >= state.lines.len() ==> count == 0
            &&& height > 2 && state.scroll_top < state.lines.len() ==> {
                ||| count == height - 2 && state.scroll_top + count <= state.lines.len()
                ||| count < height - 2 && state.scroll_top + count == state.lines.len()
            }
        }),
{
}

/// A row starts with a mark that tells the cursor's line, then comes the line's number, counted
/// from one and at the right end of four columns unless it is longer, then a space, and then
/// as many characters of the line as the rest of the width holds.
pub proof fn law_rows_show_marks_numbers_and_text(
    state: EditorState,
    width: int,
    height: int,
    i: int,
)
    requires
        0 <= state.scroll_top,
        0 <= width,
        0 <= height,
        0 <= i < state.frame(width, height).rows.len(),
    ensures
        ({
            let index = state.scroll_top + i;
            let line = state.lines[index];
            let text = state.frame(width, height).rows[i].text;
            let number = decimal((index + 1) as nat);
            let field = if number.len() > 4 {
                number.len() as int
            } else {
                4
            };
            let shown = text.skip(field + 2);
            &&& text.len() >= field + 2
            &&& text[0] == if index == state.cursor_line {
                '>'
            } else {
                ' '
            }
            &&& text.subrange(1 + field - number.len(), 1 + field) == number
            &&& forall|j: int| 1 <= j < 1 + field - number.len() ==> #[trigger] text[j] == ' '
            &&& text[1 + field] == ' '
            &&& shown == line.take(shown.len() as int)
            &&& shown.len() <= line.len()
            &&& shown.len() == line.len() || shown.len() == width - 7 || (width < 7 && shown.len()
                == 0)
            &&& width >= 7 ==> shown.len() <= width - 7
            &&& width < 7 ==> shown.len() == 0
        }),
{
    reveal_strlit(">");
    reveal_strlit(" ");
    let index = state.scroll_top + i;
    let line = state.lines[index];
    let text = state.frame(width, height).rows[i].text;
    let number = decimal((index + 1) as nat);
    let field = if number.len() > 4 {
        number.len() as int
    } else {
        4
    };
    let padded = crate::format::right_aligned(number, 4);
    law_alignment_adds_spaces(number, 4);
    assert(padded.len() == field);
    let room = if width > 7 {
        width - 7
    } else {
        0
    };
    let fits = if line.len() < room {
        line.len() as int
    } else {
        room
    };
    assert(text.len() == field + 2 + fits);
    assert forall|j: int| 0 <= j < field implies text[1 + j] == #[trigger] padded[j] by {}
    assert forall|j: int| 1 <= j < 1 + field - number.len() implies #[trigger] text[j] == ' ' by {
        assert(text[1 + (j - 1)] == padded[j - 1]);
    }
    assert(text.subrange(1 + field - number.len(), 1 + field) == number) by {
        assert forall|j: int| 0 <= j < number.len() implies text.subrange(
            1 + field - number.len(),
            1 + field,
        )[j] == #[trigger] number[j] by {
            assert(padded.skip(field - number.len())[j] == number[j]);
            assert(text[1 + (field - number.len() + j)] == padded[field - number.len() + j]);
        }
    }
    assert(text.skip(field + 2) == line.take(fits));
}

/// The rows in reverse video are those of the lines from where the selection began to the
/// cursor, and there are none without a selection.
pub proof fn law_selected_rows_are_reversed(state: EditorState, width: int, height: int, i: int)
    requires
        0 <= i < state.frame(width, height).rows.len(),
    ensures
        state.frame(width, height).rows[i].reversed <==> (state.visual_anchor matches Some(anchor)
            && between(anchor.0, state.cursor_line, state.scroll_top + i)),
{
}

/// The status line shows the command line while one is typed, and else the mode, the mark of
/// unsaved changes and the status; spaces fill it up to the width of the screen.
pub proof fn law_status_line_tells_mode_and_status(state: EditorState, width: int, height: int)
    requires
        0 <= width,
    ensures
        ({
            let shown = state.frame(width, height).status;
            let mode = match state.mode {
                Mode::Normal => "NORMAL"@,
                Mode::Insert => "INSERT"@,
                Mode::Command => ""@,
                Mode::Visual => "VISUAL"@,
            };
            let told = if state.mode is Command {
                seq![':'] + state.command
            } else if state.dirty {
                mode + " [+] | "@ + state.status
            } else {
                mode + " | "@ + state.status
            };
            &&& shown.len() >= told.len()
            &&& shown.len() == told.len() || shown.len() == width
            &&& shown.len() >= width
            &&& shown.take(told.len() as int) == told
            &&& forall|j: int| told.len() <= j < shown.len() ==> #[trigger] shown[j] == ' '
        }),
{
    reveal_strlit(":");
    reveal_strlit("");
    reveal_strlit(" [+]");
    reveal_strlit(" | ");
    reveal_strlit(" [+] | ");
    let mode = match state.mode {
        Mode::Normal => "NORMAL"@,
        Mode::Insert => "INSERT"@,
        Mode::Command => ""@,
        Mode::Visual => "VISUAL"@,
    };
    let told = if state.mode is Command {
        seq![':'] + state.command
    } else if state.dirty {
        mode + " [+] | "@ + state.status
    } else {
        mode + " | "@ + state.status
    };
    if state.mode is Command {
        assert(state.status_text() == told);
    } else if state.dirty {
        assert(" [+]"@ + " | "@ == " [+] | "@);
        assert(state.status_text() == mode + (" [+]"@ + " | "@) + state.status);
    } else {
        assert(state.status_text() == told);
    }
    law_alignment_adds_spaces(told, width as nat);
}

/// The ruler tells the cursor's line and column, counted from one, and the path of the file or
/// that it has none.
pub proof fn law_ruler_tells_place_and_path(state: EditorState, width: int, height: int)
    ensures
        state.frame(width, height).ruler == decimal((state.cursor_line + 1) as nat) + seq![':']
            + decimal((state.cursor_col + 1) as nat) + seq![' ', ' '] + match state.path {
            Some(path) => path.text,
            None => "[No Name]"@,
        },
{
    reveal_strlit(":");
    reveal_strlit("  ");
    assert(":"@ == seq![':']);
    assert("  "@ == seq![' ', ' ']);
}

/// The status line is the last line but one of the screen, and the ruler the last one.
pub proof fn law_status_and_ruler_are_at_the_bottom(state: EditorState, width: int, height: int)
    requires
        0 <= height,
    ensures
        ({
            let frame = state.frame(width, height);
            &&& height >= 1 ==> frame.ruler_row == height - 1
            &&& height >= 2 ==> frame.status_row == height - 2
            &&& height < 1 ==> frame.ruler_row == 0
            &&& height < 2 ==> frame.status_row == 0
        }),
{
}

/// The terminal's cursor follows the cursor: six columns to the right of the cursor's column,
/// as far as the screen reaches, in the row of the cursor's line. While a command line is
/// typed it stands behind it on the status line.
pub proof fn law_terminal_cursor_follows(state: EditorState, width: int, height: int)
    requires
        0 <= width,
        0 <= state.cursor_col,
    ensures
        ({
            let frame = state.frame(width, height);
            let edge = if width > 0 {
                width - 1
            } else {
                0
            };
            &&& !(state.mode is Command) && state.cursor_col + 6 < width ==> frame.cursor_x
                == state.cursor_col + 6
            &&& !(state.mode is Command) && state.cursor_col + 6 >= width ==> frame.cursor_x
                == edge
            &&& state.mode is Command && bytes(state.command) + 1 < width ==> frame.cursor_x
                == bytes(state.command) + 1
            &&& state.mode is Command && bytes(state.command) + 1 >= width ==> frame.cursor_x
                == edge
            &&& state.mode is Command ==> frame.cursor_y == frame.status_row
            &&& !(state.mode is Command) && state.cursor_line < state.scroll_top
                ==> frame.cursor_y == 0
            &&& !(state.mode is Command) && 0 <= state.cursor_line - state.scroll_top
                <= u16::MAX ==> frame.cursor_y == state.cursor_line - state.scroll_top
            &&& !(state.mode is Command) && state.cursor_line - state.scroll_top > u16::MAX
                ==> frame.cursor_y == (state.cursor_line - state.scroll_top) % 65536
        }),
{
    law_lengths_are_encoded_lengths(state.command, Seq::empty());
}

/// Two cursors in the same line, both short of the edge, are as far apart on the screen as in
/// the line.
pub proof fn law_terminal_cursor_moves_with_the_column(
    state: EditorState,
    other: int,
    width: int,
    height: int,
)
    requires
        !(state.mode is Command),
        0 <= state.cursor_col,
        state.cursor_col + 6 < width,
        0 <= other,
        other + 6 < width,
    ensures
        (EditorState { cursor_col: other, ..state }).frame(width, height).cursor_x - state.frame(
            width,
            height,
        ).cursor_x == other - state.cursor_col,
{
}

/// The model of an editor shows its fields.
pub proof fn law_editors_show_their_fields(editor: Editor)
    ensures
        editor@.lines.len() == editor.lines@.len(),
        forall|i: int|
            0 <= i < editor.lines@.len() ==> #[trigger] editor@.lines[i] == editor.lines@[i]@,
        editor@.clipboard.len() == editor.clipboard@.len(),
        forall|i: int|
            0 <= i < editor.clipboard@.len() ==> #[trigger] editor@.clipboard[i]
                == editor.clipboard@[i]@,
        editor@.cursor_line == editor.cursor_line,
        editor@.cursor_col == editor.cursor_col,
        editor@.scroll_top == editor.scroll_top,
        editor@.mode == editor.mode,
        editor@.command == editor.command@,
        editor@.pending == editor.pending,
        editor@.status == editor.status@,
        editor@.dirty == editor.dirty,
        editor@.should_quit == editor.should_quit,
        editor.path is None <==> editor@.path is None,
        editor.path matches Some(path) ==> editor@.path->0.text == path.text@
            && editor@.path->0.origin == path.origin,
        editor.visual_anchor is None <==> editor@.visual_anchor is None,
        editor.visual_anchor matches Some((line, column)) ==> editor@.visual_anchor == Some(
            (line as int, column as int),
        ),
{
}

/// The model of a path, and of an optional path or text, shows its text and origin.
pub proof fn law_paths_show_their_text(
    path: FilePath,
    maybe: Option<FilePath>,
    text: Option<String>,
)
    ensures
        path@.text == path.text@,
        path@.origin == path.origin,
        maybe is None <==> optional_path(maybe) is None,
        maybe matches Some(known) ==> optional_path(maybe) == Some(known@),
        text is None <==> optional_text(text) is None,
        text matches Some(known) ==> optional_text(text) == Some(known@),
{
}

/// The model of an effect, and of a result, shows which it is and what it holds.
pub proof fn law_effects_show_their_contents(effect: Effect, result: Result<Effect, SaveError>)
    ensures
        effect is Done <==> effect@ is Done,
        effect is ShowDirectory <==> effect@ is ShowDirectory,
        effect is Read <==> effect@ is Read,
        effect is Write <==> effect@ is Write,
        effect matches Effect::Read { path } ==> effect@ == (EffectView::Read { path: path@ }),
        effect matches Effect::Write { path, contents, quit } ==> effect@ == (EffectView::Write {
            path: path@,
            contents: contents@,
            quit,
        }),
        result matches Ok(inner) ==> outcome(result) == Outcome::Ok(inner@),
        result matches Err(error) ==> outcome(result) == Outcome::Err(error),
{
}

/// The model of a command shows which it is and what it holds.
pub proof fn law_commands_show_their_arguments(command: Command)
    ensures
        command is Quit <==> command@ is Quit,
        command is QuitAll <==> command@ is QuitAll,
        command is ForceQuit <==> command@ is ForceQuit,
        command is New <==> command@ is New,
        command is WorkingDirectory <==> command@ is WorkingDirectory,
        command is File <==> command@ is File,
        command is Version <==> command@ is Version,
        command is ShowNumbers <==> command@ is ShowNumbers,
        command is HideNumbers <==> command@ is HideNumbers,
        command is Delete <==> command@ is Delete,
        command is Yank <==> command@ is Yank,
        command is PutAfter <==> command@ is PutAfter,
        command is PutBefore <==> command@ is PutBefore,
        command is Join <==> command@ is Join,
        command is Help <==> command@ is Help,
        command matches Command::Edit(path) ==> command@ == CommandView::Edit(path@),
        command matches Command::Unknown(text) ==> command@ == CommandView::Unknown(text@),
        command matches Command::Write(Some(path)) ==> command@ == CommandView::Write(Some(path@)),
        command matches Command::Write(None) ==> command@ == CommandView::Write(None),
        command matches Command::WriteQuit(Some(path)) ==> command@ == CommandView::WriteQuit(
            Some(path@),
        ),
        command matches Command::WriteQuit(None) ==> command@ == CommandView::WriteQuit(None),
{
}

/// The model of a frame shows its fields.
pub proof fn law_frames_show_their_fields(frame: Frame)
    ensures
        frame@.rows.len() == frame.rows@.len(),
        forall|i: int|
            0 <= i < frame.rows@.len() ==> (#[trigger] frame@.rows[i]).text
                == frame.rows@[i].text@ && frame@.rows[i].reversed == frame.rows@[i].reversed,
        frame@.status == frame.status@,
        frame@.status_row == frame.status_row,
        frame@.ruler == frame.ruler@,
        frame@.ruler_row == frame.ruler_row,
        frame@.cursor_x == frame.cursor_x,
        frame@.cursor_y == frame.cursor_y,
{
}

} // verus!
