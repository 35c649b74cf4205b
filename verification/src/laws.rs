//! What holds of several operations of the editor together.
use vstd::prelude::*;

use crate::command::{command_of, CommandView};
use crate::document::contents_of;
use crate::keys::{KeyCode, KeyPress, Mode};
use crate::state::{EditorState, EffectView};
use crate::text::{
    byte_len, lemma_boundary_in_range, lemma_boundary_is_column, lemma_byte_len_concat,
    lemma_byte_len_push, lemma_column_is_boundary,
};

verus! {

/// Typing leaves the cursor between two characters, so that one can go on typing.
pub proof fn law_typing_stays_on_boundaries(state: EditorState, c: char)
    requires
        state.at_boundary(),
    ensures
        state.char_inserted(c).at_boundary(),
        state.newline_inserted().at_boundary(),
        state.backspaced().at_boundary(),
{
    let line = state.line();
    let k = state.cursor_index();
    lemma_boundary_is_column(line, state.cursor_col);
    lemma_boundary_in_range(line, state.cursor_col);
    let longer = line.insert(k, c);
    assert(longer.take(k + 1) == line.take(k).push(c));
    lemma_byte_len_push(line.take(k), c);
    lemma_column_is_boundary(longer, k + 1);
    if state.cursor_col > 0 {
        let shorter = line.remove(k - 1);
        assert(shorter.take(k - 1) == line.take(k - 1));
        lemma_column_is_boundary(shorter, k - 1);
    } else if state.cursor_line > 0 {
        let previous = state.lines[state.cursor_line - 1];
        let both = previous + line;
        assert(both.take(previous.len() as int) == previous);
        lemma_column_is_boundary(both, previous.len() as int);
    }
}

/// The backspace key takes back the character that has just been typed.
pub proof fn law_backspace_undoes_typing(state: EditorState, c: char)
    requires
        state.at_boundary(),
    ensures
        state.char_inserted(c).backspaced() == (EditorState { dirty: true, ..state }),
{
    let line = state.line();
    let k = state.cursor_index();
    lemma_boundary_is_column(line, state.cursor_col);
    lemma_boundary_in_range(line, state.cursor_col);
    let longer = line.insert(k, c);
    assert(longer.take(k + 1) == line.take(k).push(c));
    lemma_byte_len_push(line.take(k), c);
    lemma_column_is_boundary(longer, k + 1);
    assert(longer.take(k) == line.take(k));
    assert(longer.remove(k) == line);
    assert(state.char_inserted(c).backspaced().lines == state.lines);
}

/// The backspace key takes back the line break that has just been typed.
pub proof fn law_backspace_undoes_newline(state: EditorState)
    requires
        state.at_boundary(),
    ensures
        state.newline_inserted().backspaced() == (EditorState { dirty: true, ..state }),
{
    let line = state.line();
    let k = state.cursor_index();
    lemma_boundary_is_column(line, state.cursor_col);
    assert(line.take(k) + line.skip(k) == line);
    let broken = state.newline_inserted();
    assert(broken.lines[broken.cursor_line - 1] == line.take(k));
    assert(broken.line() == line.skip(k));
    assert(broken.backspaced().lines == state.lines);
}

/// The state after the characters of a text have been typed one after the other.
pub open spec fn typed(state: EditorState, text: Seq<char>) -> EditorState
    decreases text.len(),
{
    if text.len() == 0 {
        state
    } else {
        typed(state, text.drop_last()).key_handled(
            KeyPress { code: KeyCode::Char(text.last()), control: false },
        )
    }
}

/// The state after the backspace key has been pressed a number of times.
pub open spec fn erased(state: EditorState, count: nat) -> EditorState
    decreases count,
{
    if count == 0 {
        state
    } else {
        erased(
            state.key_handled(KeyPress { code: KeyCode::Backspace, control: false }),
            (count - 1) as nat,
        )
    }
}

/// The state in which a text stands before the cursor that was not there before.
pub open spec fn with_text_before_cursor(state: EditorState, text: Seq<char>) -> EditorState {
    EditorState {
        lines: state.lines.update(
            state.cursor_line,
            state.line().take(state.cursor_index()) + text + state.line().skip(
                state.cursor_index(),
            ),
        ),
        cursor_col: state.cursor_col + byte_len(text),
        dirty: state.dirty || text.len() > 0,
        ..state
    }
}

/// A text that stands before the cursor ends at a boundary.
proof fn lemma_text_before_cursor(state: EditorState, text: Seq<char>)
    requires
        state.at_boundary(),
    ensures
        ({
            let after = with_text_before_cursor(state, text);
            &&& after.at_boundary()
            &&& after.cursor_index() == state.cursor_index() + text.len()
            &&& after.cursor_col <= byte_len(after.line())
        }),
{
    let line = state.line();
    let k = state.cursor_index();
    lemma_boundary_is_column(line, state.cursor_col);
    let longer = line.take(k) + text + line.skip(k);
    assert(longer.take(k + text.len()) == line.take(k) + text);
    lemma_byte_len_concat(line.take(k), text);
    lemma_column_is_boundary(longer, k + text.len());
}

/// One more character typed makes the text before the cursor longer by it.
proof fn lemma_one_more_typed(state: EditorState, text: Seq<char>, c: char)
    requires
        state.at_boundary(),
    ensures
        with_text_before_cursor(state, text).char_inserted(c) == with_text_before_cursor(
            state,
            text.push(c),
        ),
{
    let k = state.cursor_index();
    let before = with_text_before_cursor(state, text);
    let after = with_text_before_cursor(state, text.push(c));
    lemma_boundary_is_column(state.line(), state.cursor_col);
    lemma_text_before_cursor(state, text);
    lemma_byte_len_push(text, c);
    assert(before.line().insert(k + text.len(), c) == after.line());
    assert(before.char_inserted(c).lines == after.lines);
}

/// The cursor behind a text that was typed is where it may be.
proof fn lemma_typed_needs_no_clamping(state: EditorState, text: Seq<char>)
    requires
        state.mode is Insert,
        state.at_boundary(),
    ensures
        with_text_before_cursor(state, text).clamped() == with_text_before_cursor(state, text),
{
    lemma_text_before_cursor(state, text);
}

/// Typing a text in insert mode puts it where the cursor is, whatever its characters are, and
/// every one of the keys is accepted.
pub proof fn law_typed_text_appears(state: EditorState, text: Seq<char>)
    requires
        state.mode is Insert,
        state.at_boundary(),
    ensures
        typed(state, text) == with_text_before_cursor(state, text),
        forall|key: KeyPress| #[trigger] typed(state, text).accepts(key),
    decreases text.len(),
{
    let line = state.line();
    let k = state.cursor_index();
    lemma_boundary_is_column(line, state.cursor_col);
    lemma_text_before_cursor(state, text);
    if text.len() == 0 {
        assert(line.take(k) + text + line.skip(k) == line);
        assert(with_text_before_cursor(state, text).lines == state.lines);
    } else {
        let shorter = text.drop_last();
        law_typed_text_appears(state, shorter);
        lemma_one_more_typed(state, shorter, text.last());
        assert(shorter.push(text.last()) == text);
        lemma_typed_needs_no_clamping(state, text);
    }
}

/// The backspace key takes back the last character of a text before the cursor.
proof fn lemma_one_erased(state: EditorState, text: Seq<char>)
    requires
        state.mode is Insert,
        state.at_boundary(),
        text.len() > 0,
    ensures
        with_text_before_cursor(state, text).key_handled(
            KeyPress { code: KeyCode::Backspace, control: false },
        ) == with_text_before_cursor(EditorState { dirty: true, ..state }, text.drop_last()),
{
    let shorter = text.drop_last();
    let marked = EditorState { dirty: true, ..state };
    assert(shorter.push(text.last()) == text);
    lemma_one_more_typed(state, shorter, text.last());
    lemma_text_before_cursor(state, shorter);
    law_backspace_undoes_typing(with_text_before_cursor(state, shorter), text.last());
    lemma_typed_needs_no_clamping(marked, shorter);
    assert(with_text_before_cursor(state, text).backspaced() == with_text_before_cursor(
        marked,
        shorter,
    ));
}

/// The backspace key, pressed once for each character of a text that has been typed, takes
/// the text back.
pub proof fn law_typed_text_can_be_erased(state: EditorState, text: Seq<char>)
    requires
        state.mode is Insert,
        state.at_boundary(),
    ensures
        erased(typed(state, text), text.len()) == (EditorState {
            dirty: state.dirty || text.len() > 0,
            ..state
        }),
    decreases text.len(),
{
    law_typed_text_appears(state, text);
    if text.len() > 0 {
        let marked = EditorState { dirty: true, ..state };
        lemma_one_erased(state, text);
        law_typed_text_appears(marked, text.drop_last());
        law_typed_text_can_be_erased(marked, text.drop_last());
    }
}

/// Typing a character again where it was deleted restores the text.
pub proof fn law_typing_restores_deleted_char(state: EditorState)
    requires
        state.on_char(),
    ensures
        state.char_deleted().at_boundary(),
        state.char_deleted().char_inserted(state.line()[state.cursor_index()]).lines
            == state.lines,
{
    let line = state.line();
    let k = state.cursor_index();
    lemma_boundary_is_column(line, state.cursor_col);
    lemma_boundary_in_range(line, state.cursor_col);
    let shorter = line.remove(k);
    assert(shorter.take(k) == line.take(k));
    lemma_column_is_boundary(shorter, k);
    assert(shorter.insert(k, line[k]) == line);
    assert(state.char_deleted().char_inserted(line[k]).lines == state.lines);
}

/// Putting a yanked line doubles it.
pub proof fn law_put_doubles_yanked_line(state: EditorState)
    requires
        state.has_line(),
    ensures
        state.line_yanked().lines_put(false).lines == state.lines.insert(
            state.cursor_line + 1,
            state.line(),
        ),
        state.line_yanked().lines_put(false).line() == state.line(),
        state.line_yanked().lines_put(true).lines == state.lines.insert(
            state.cursor_line,
            state.line(),
        ),
{
}

/// Putting a deleted line where it was restores the text, unless it was the only line. It was
/// before the cursor's line, or after it if it was the last line.
pub proof fn law_put_restores_deleted_line(state: EditorState)
    requires
        state.has_line(),
        state.lines.len() > 1,
    ensures
        ({
            let before = state.cursor_line + 1 < state.lines.len();
            let restored = state.line_copied().line_deleted().lines_put(before);
            restored.lines == state.lines && restored.cursor_line == state.cursor_line
        }),
{
    let before = state.cursor_line + 1 < state.lines.len();
    assert(state.line_copied().line_deleted().lines_put(before).lines == state.lines);
}

/// Putting the deleted lines of a selection where they were restores the text, unless they
/// were all its lines. They were before the cursor's line, or after it if they were the last
/// lines.
pub proof fn law_put_restores_deleted_selection(state: EditorState)
    requires
        state.selection_in_text(),
        state.selection() matches Some(bounds) && bounds.1 - bounds.0 + 1 < state.lines.len(),
    ensures
        ({
            let bounds = state.selection()->0;
            let before = bounds.1 + 1 < state.lines.len();
            let restored = state.selection_deleted().lines_put(before);
            restored.lines == state.lines && restored.cursor_line == bounds.0
        }),
{
    let bounds = state.selection()->0;
    let before = bounds.1 + 1 < state.lines.len();
    assert(state.selection_deleted().lines_put(before).lines == state.lines);
}

/// Yanking a selection leaves the text as it is, and deleting one keeps in the clipboard
/// what it takes out of the text.
pub proof fn law_clipboard_keeps_selection(state: EditorState)
    requires
        state.selection_in_text(),
    ensures
        state.selection_yanked().lines == state.lines,
        state.selection_deleted().clipboard == state.selection_yanked().clipboard,
        state.selection() matches Some(bounds) ==> state.lines == state.lines.take(bounds.0)
            + state.selection_deleted().clipboard + state.lines.skip(bounds.1 + 1),
{
}

/// The backspace key takes back the character that has just been typed on the command line,
/// and leaves the command line when nothing is left on it.
pub proof fn law_backspace_undoes_command_typing(state: EditorState, c: char, control: bool)
    requires
        state.mode is Command,
    ensures
        state.key_handled(KeyPress { code: KeyCode::Char(c), control }).key_handled(
            KeyPress { code: KeyCode::Backspace, control },
        ) == (if state.command.len() == 0 {
            state.with_mode(Mode::Normal)
        } else {
            state
        }),
{
    assert(state.command.push(c).drop_last() == state.command);
}

/// Only the commands that edit change the text.
pub proof fn law_only_editing_commands_change_text(state: EditorState, command: CommandView)
    ensures
        state.command_applied(command).lines == state.lines || command is New || command is Delete
            || command is PutAfter || command is PutBefore || command is Join,
{
}

/// Whether a key carries out a command line with the given meaning.
pub open spec fn executes(state: EditorState, key: KeyPress, command: CommandView) -> bool {
    state.mode is Command && key.code is Enter && command_of(state.command) == command
}

/// A key that changes the text marks it as unsaved. Only starting over with an empty text
/// does not, and that is refused while there are unsaved changes.
pub proof fn law_changes_are_marked(state: EditorState, key: KeyPress)
    requires
        state.inv(),
        state.accepts(key),
    ensures
        state.key_handled(key).lines == state.lines || state.key_handled(key).dirty || (executes(
            state,
            key,
            CommandView::New,
        ) && !state.dirty),
{
}

/// No key forgets that there are unsaved changes, nor asks to read another file over them.
pub proof fn law_unsaved_changes_survive_keys(state: EditorState, key: KeyPress)
    requires
        state.dirty,
    ensures
        state.key_handled(key).dirty,
        !(state.key_outcome(key) matches Ok(EffectView::Read { path })),
{
}

/// While there are unsaved changes, no key makes the editor leave at once but the commands
/// that force it to.
pub proof fn law_unsaved_changes_hinder_leaving(state: EditorState, key: KeyPress)
    requires
        state.dirty,
        !state.should_quit,
    ensures
        state.key_handled(key).should_quit <==> executes(state, key, CommandView::ForceQuit),
{
}

/// Without unsaved changes the plain commands make the editor leave.
pub proof fn law_saved_text_can_be_left(state: EditorState, key: KeyPress)
    requires
        !state.dirty,
        executes(state, key, CommandView::Quit) || executes(state, key, CommandView::QuitAll),
    ensures
        state.key_handled(key).should_quit,
{
}

/// What a command asks to be written is the whole text, under the path that the editor then
/// knows; and once it is written, nothing is unsaved.
pub proof fn law_writes_save_the_text(state: EditorState, key: KeyPress)
    ensures
        state.key_outcome(key) matches Ok(EffectView::Write { path, contents, quit }) ==> {
            let after = state.key_handled(key);
            &&& contents == contents_of(state.lines)
            &&& after.lines == state.lines
            &&& after.path == Some(path)
            &&& !after.write_completed(path, quit).dirty
            &&& after.write_completed(path, quit).lines == state.lines
            &&& quit ==> after.write_completed(path, quit).should_quit
        },
{
}

/// A save fails before it is tried if and only if neither the command nor the editor knows a
/// path; the text is then as it was.
pub proof fn law_save_needs_a_path(state: EditorState, key: KeyPress)
    ensures
        state.key_outcome(key) is Err <==> state.path is None && (executes(
            state,
            key,
            CommandView::Write(None),
        ) || executes(state, key, CommandView::WriteQuit(None))),
        state.key_outcome(key) is Err ==> state.key_handled(key).lines == state.lines
            && state.key_handled(key).dirty == state.dirty,
{
}

/// The escape key leads to normal mode from every mode, and leaves the text as it is.
pub proof fn law_escape_leads_to_normal_mode(state: EditorState, control: bool)
    requires
        state.inv(),
    ensures
        ({
            let after = state.key_handled(KeyPress { code: KeyCode::Esc, control });
            &&& after.mode is Normal
            &&& after.lines == state.lines
            &&& after.visual_anchor is None
            &&& after.pending is None
        }),
{
}

/// Moving the cursor changes nothing else.
pub proof fn law_motions_only_move(state: EditorState, code: KeyCode)
    ensures
        state.moved_by(code) == (EditorState {
            cursor_line: state.moved_by(code).cursor_line,
            cursor_col: state.moved_by(code).cursor_col,
            ..state
        }),
{
}

/// Moving the cursor back into the text twice is the same as doing so once, and a cursor that
/// is where it may be stays there.
pub proof fn law_clamping_is_stable(state: EditorState)
    requires
        state.lines.len() > 0,
        state.cursor_line >= 0,
        state.cursor_col >= 0,
    ensures
        state.clamped().clamped() == state.clamped(),
        state.inv() ==> state.clamped() == state,
{
}

/// After scrolling, the cursor's line is on the screen; and if it was there already, nothing
/// has moved.
pub proof fn law_scrolling_shows_the_cursor(state: EditorState, height: int)
    requires
        state.cursor_line >= 0,
        state.scroll_top >= 0,
        height > 0,
    ensures
        state.scrolled(height).scroll_top <= state.cursor_line < state.scrolled(height).scroll_top
            + height,
        state.scroll_top <= state.cursor_line < state.scroll_top + height ==> state.scrolled(height)
            == state,
        state.scrolled(height).scrolled(height) == state.scrolled(height),
{
}

/// The text and the cursor stay on the screen, and the cursor's line is the one that is
/// marked.
pub proof fn law_frames_fit_the_screen(state: EditorState, width: int, height: int)
    requires
        state.inv(),
        width > 0,
        height > 2,
    ensures
        ({
            let shown = state.scrolled(height - 2);
            let frame = shown.frame(width, height);
            &&& 0 < frame.rows.len() <= height - 2
            &&& 0 <= frame.cursor_x < width
            &&& 0 <= frame.cursor_y < height
            &&& !(state.mode is Command) && height <= u16::MAX ==> frame.cursor_y
                == state.cursor_line - shown.scroll_top
            &&& forall|i: int|
                0 <= i < frame.rows.len() ==> (#[trigger] frame.rows[i]).text[0] == (if i
                    == state.cursor_line - shown.scroll_top {
                    '>'
                } else {
                    ' '
                })
        }),
{
    reveal_strlit(">");
    reveal_strlit(" ");
}

} // verus!
