//! What holds of the editor between any two keys.
use vstd::math::min;
use vstd::prelude::*;

use crate::command::{command_of, CommandView};
use crate::document::{law_lines_hold_no_line_feed, lines_of};
use crate::format::trimmed_start;
use crate::keys::{KeyCode, KeyPress, Mode};
use crate::state::{blank, EditorState, EffectView, FilePathView, Outcome};
use crate::text::{
    byte_len, lemma_ascii_boundaries, lemma_boundary_in_range, lemma_boundary_is_column,
    lemma_byte_len_at_least_len, lemma_ends_are_boundaries, on_boundary,
};

verus! {

/// A text is empty if and only if it has no bytes.
proof fn lemma_empty(text: Seq<char>)
    ensures
        text.len() == 0 <==> byte_len(text) == 0,
{
    lemma_byte_len_at_least_len(text);
}

/// The cursor is in the text after it has been moved back into it.
proof fn lemma_clamped_inv(state: EditorState)
    requires
        state.lines.len() > 0,
        state.cursor_line >= 0,
        state.cursor_col >= 0,
        state.scroll_top >= 0,
        state.visual_anchor is Some <==> state.mode is Visual,
        state.visual_anchor matches Some(anchor) ==> 0 <= anchor.0 < state.lines.len(),
        state.pending is Some ==> state.mode is Normal,
        state.mode is Command ==> state.has_line() && state.cursor_col <= byte_len(state.line())
            && (state.line().len() > 0 ==> state.cursor_col < byte_len(state.line())),
    ensures
        state.clamped().inv(),
{
    let row = min(state.cursor_line, state.lines.len() - 1);
    lemma_empty(state.lines[row]);
}

/// Every key that is accepted keeps what holds between any two keys: the cursor is in the
/// text, and on a character outside insert mode unless its line is empty; there is a
/// selection in visual mode only, and it is in the text; an operator waits for its second key
/// in normal mode only.
pub proof fn law_keys_keep_invariant(state: EditorState, key: KeyPress)
    requires
        state.inv(),
        state.accepts(key),
    ensures
        state.key_handled(key).inv(),
{
    match state.mode {
        Mode::Insert => lemma_insert_key(state, key),
        Mode::Command => lemma_command_key(state, key),
        Mode::Normal => lemma_normal_key(state, key),
        Mode::Visual => lemma_visual_key(state, key),
    }
}

proof fn lemma_insert_key(state: EditorState, key: KeyPress)
    requires
        state.inv(),
        state.mode is Insert,
        state.accepts(key),
    ensures
        state.insert_key_handled(key).inv(),
{
    match key.code {
        KeyCode::Esc => {
            lemma_clamped_inv(state.with_mode(Mode::Normal));
            lemma_clamped_inv(
                state.with_mode(Mode::Normal).clamped().with_status("NORMAL mode"@),
            );
        },
        KeyCode::Enter => lemma_clamped_inv(state.newline_inserted()),
        KeyCode::Backspace => lemma_clamped_inv(state.backspaced()),
        KeyCode::Left => lemma_clamped_inv(state.moved_left()),
        KeyCode::Right => lemma_clamped_inv(state.moved_right(byte_len(state.line()) as int)),
        KeyCode::Up => lemma_clamped_inv(state.moved_up()),
        KeyCode::Down => lemma_clamped_inv(state.moved_down()),
        KeyCode::Char(c) => {
            lemma_clamped_inv(state.char_inserted(c));
            lemma_clamped_inv(state);
        },
        KeyCode::Other => lemma_clamped_inv(state),
    }
}

/// What a join leaves of the cursor.
proof fn lemma_joined_inv(state: EditorState)
    requires
        state.inv(),
        state.mode is Command,
    ensures
        state.lines_joined().inv(),
{
    if state.cursor_line + 1 < state.lines.len() {
        lemma_empty(state.lines_joined().line());
    }
}

proof fn lemma_command_key(state: EditorState, key: KeyPress)
    requires
        state.inv(),
        state.mode is Command,
    ensures
        state.command_key_handled(key).inv(),
{
    if key.code is Enter {
        let command = command_of(state.command);
        let ready = EditorState { command: Seq::empty(), ..state };
        lemma_joined_inv(ready);
        lemma_empty(ready.line_copied().line_deleted().line());
        lemma_empty(ready.lines_put(true).line());
        lemma_empty(ready.lines_put(false).line());
        assert(ready.command_applied(command).inv());
    }
}

proof fn lemma_normal_key(state: EditorState, key: KeyPress)
    requires
        state.inv(),
        state.mode is Normal,
        state.accepts(key),
    ensures
        state.normal_key_handled(key).inv(),
{
    let ready = EditorState { pending: None, ..state };
    match state.pending {
        Some(operator) => lemma_clamped_inv(ready.operator_completed(operator, key.code)),
        None => lemma_clamped_inv(ready.normal_key_applied(key.code)),
    }
}

proof fn lemma_visual_key(state: EditorState, key: KeyPress)
    requires
        state.inv(),
        state.mode is Visual,
    ensures
        state.visual_key_handled(key).inv(),
{
    match key.code {
        KeyCode::Esc | KeyCode::Char('v') => lemma_clamped_inv(
            EditorState {
                mode: Mode::Normal,
                visual_anchor: None,
                status: "NORMAL mode"@,
                ..state
            },
        ),
        KeyCode::Char('d') => lemma_clamped_inv(state.selection_deleted()),
        KeyCode::Char('y') => lemma_clamped_inv(state.selection_yanked()),
        _ => lemma_clamped_inv(state.moved_by(key.code)),
    }
}

/// Completing a command keeps what holds between any two keys, whatever was written, read or
/// found out.
pub proof fn law_completions_keep_invariant(
    state: EditorState,
    key: KeyPress,
    path: FilePathView,
    quit: bool,
    text: Seq<char>,
)
    requires
        state.inv(),
        state.accepts(key),
        state.key_outcome(key) != Outcome::Ok(EffectView::Done),
    ensures
        state.key_handled(key).write_completed(path, quit).inv(),
        state.key_handled(key).read_completed(path, text).inv(),
        state.key_handled(key).directory_shown(text).inv(),
{
    law_keys_keep_invariant(state, key);
    law_lines_hold_no_line_feed(text);
    lemma_empty(lines_of(text)[0]);
}

/// Drawing the screen keeps what holds between any two keys.
pub proof fn law_scrolling_keeps_invariant(state: EditorState, height: int)
    requires
        state.inv(),
        height >= 0,
    ensures
        state.scrolled(height).inv(),
{
}

/// Between two characters every key is accepted.
pub proof fn law_keys_are_accepted_at_boundaries(state: EditorState, key: KeyPress)
    requires
        state.inv(),
        state.at_boundary(),
    ensures
        state.accepts(key),
{
}

/// Whether a text holds none but the given characters.
pub open spec fn made_of(text: Seq<char>, allowed: Set<char>) -> bool {
    forall|i: int| 0 <= i < text.len() ==> allowed.contains(#[trigger] text[i])
}

/// Whether lines hold none but the given characters.
pub open spec fn lines_made_of(lines: Seq<Seq<char>>, allowed: Set<char>) -> bool {
    forall|i: int| 0 <= i < lines.len() ==> made_of(#[trigger] lines[i], allowed)
}

/// Whether the lines and the clipboard hold none but the given characters.
pub open spec fn state_made_of(state: EditorState, allowed: Set<char>) -> bool {
    lines_made_of(state.lines, allowed) && lines_made_of(state.clipboard, allowed)
}

/// Whether a key types one of the given characters, if it types any into the text.
pub open spec fn types_only(state: EditorState, key: KeyPress, allowed: Set<char>) -> bool {
    state.mode is Insert ==> (key.code matches KeyCode::Char(c) ==> key.control
        || allowed.contains(c))
}

/// A text without the white space at its start holds no other characters.
proof fn lemma_trimmed_made_of(text: Seq<char>, allowed: Set<char>)
    requires
        made_of(text, allowed),
    ensures
        made_of(trimmed_start(text), allowed),
    decreases text.len(),
{
    if text.len() > 0 {
        let rest = text.drop_first();
        assert forall|i: int| 0 <= i < rest.len() implies allowed.contains(
            #[trigger] rest[i],
        ) by {
            assert(rest[i] == text[i + 1]);
        }
        lemma_trimmed_made_of(rest, allowed);
    }
}

proof fn lemma_typing_made_of(state: EditorState, c: char, allowed: Set<char>)
    requires
        state.at_boundary(),
        state_made_of(state, allowed),
    ensures
        allowed.contains(c) ==> state_made_of(state.char_inserted(c), allowed),
        state_made_of(state.newline_inserted(), allowed),
        state_made_of(state.backspaced(), allowed),
        state.on_char() ==> state_made_of(state.char_deleted(), allowed),
{
    let line = state.line();
    let k = state.cursor_index();
    lemma_boundary_is_column(line, state.cursor_col);
    lemma_boundary_in_range(line, state.cursor_col);
    assert(made_of(line, allowed));
    assert(allowed.contains(c) ==> made_of(line.insert(k, c), allowed));
    assert(made_of(line.take(k), allowed));
    assert(made_of(line.skip(k), allowed));
    assert(k > 0 ==> made_of(line.remove(k - 1), allowed));
    assert(k < line.len() ==> made_of(line.remove(k), allowed));
    if state.cursor_line > 0 {
        let previous = state.lines[state.cursor_line - 1];
        assert(made_of(previous, allowed));
        assert(made_of(previous + line, allowed));
    }
}

proof fn lemma_line_break_made_of(state: EditorState, allowed: Set<char>)
    requires
        state.has_line(),
        state.cursor_col == 0,
        state_made_of(state, allowed),
    ensures
        state_made_of(state.backspaced(), allowed),
{
    let line = state.line();
    assert(made_of(line, allowed));
    if state.cursor_line > 0 {
        let previous = state.lines[state.cursor_line - 1];
        assert(made_of(previous, allowed));
        assert(made_of(previous + line, allowed));
    }
}

proof fn lemma_line_operations_made_of(state: EditorState, allowed: Set<char>)
    requires
        state.has_line(),
        state_made_of(state, allowed),
        allowed.contains(' '),
    ensures
        state_made_of(state.line_copied(), allowed),
        state_made_of(state.line_copied().line_deleted(), allowed),
        state_made_of(state.lines_put(true), allowed),
        state_made_of(state.lines_put(false), allowed),
        state_made_of(state.lines_joined(), allowed),
        state.selection_in_text() ==> state_made_of(state.selection_copied(), allowed)
            && state_made_of(state.selection_deleted(), allowed),
{
    let line = state.line();
    assert(made_of(line, allowed));
    if state.cursor_line + 1 < state.lines.len() {
        let next = state.lines[state.cursor_line + 1];
        assert(made_of(next, allowed));
        lemma_trimmed_made_of(next, allowed);
        assert(made_of(EditorState::joined_line(line, next), allowed));
    }
}

proof fn lemma_insert_key_made_of(state: EditorState, key: KeyPress, allowed: Set<char>)
    requires
        state.mode is Insert,
        state.accepts(key),
        state_made_of(state, allowed),
        types_only(state, key, allowed),
    ensures
        state_made_of(state.insert_key_handled(key), allowed),
{
    match key.code {
        KeyCode::Char(c) => if !key.control {
            lemma_typing_made_of(state, c, allowed);
        },
        KeyCode::Enter => lemma_typing_made_of(state, ' ', allowed),
        KeyCode::Backspace => if state.cursor_col > 0 {
            lemma_typing_made_of(state, ' ', allowed);
        } else if state.cursor_col == 0 {
            lemma_line_break_made_of(state, allowed);
        },
        _ => {},
    }
}

proof fn lemma_command_made_of(state: EditorState, command: CommandView, allowed: Set<char>)
    requires
        state.has_line(),
        state_made_of(state, allowed),
        allowed.contains(' '),
    ensures
        state_made_of(state.command_applied(command), allowed),
{
    lemma_line_operations_made_of(state, allowed);
    assert(lines_made_of(blank(), allowed));
}

proof fn lemma_normal_key_made_of(state: EditorState, code: KeyCode, allowed: Set<char>)
    requires
        state.has_line(),
        code == KeyCode::Char('x') && state.line().len() > 0 ==> state.on_char(),
        state_made_of(state, allowed),
        allowed.contains(' '),
    ensures
        state_made_of(state.normal_key_applied(code), allowed),
{
    lemma_line_operations_made_of(state, allowed);
    lemma_ends_are_boundaries(state.line());
    lemma_typing_made_of(state.with_column(byte_len(state.line()) as int), ' ', allowed);
    if code == KeyCode::Char('x') && state.line().len() > 0 {
        lemma_typing_made_of(state, ' ', allowed);
    }
}

/// No key brings characters into the text that are neither in it nor in the clipboard nor
/// typed, but for the space that joins two lines.
pub proof fn law_keys_invent_no_characters(
    state: EditorState,
    key: KeyPress,
    allowed: Set<char>,
)
    requires
        state.inv(),
        state.accepts(key),
        state_made_of(state, allowed),
        types_only(state, key, allowed),
        allowed.contains(' '),
    ensures
        state_made_of(state.key_handled(key), allowed),
{
    match state.mode {
        Mode::Insert => lemma_insert_key_made_of(state, key, allowed),
        Mode::Command => lemma_command_made_of(
            EditorState { command: Seq::empty(), ..state },
            command_of(state.command),
            allowed,
        ),
        Mode::Normal => {
            let ready = EditorState { pending: None, ..state };
            match state.pending {
                Some(operator) => {
                    lemma_line_operations_made_of(ready, allowed);
                    assert(state_made_of(ready.operator_completed(operator, key.code), allowed));
                },
                None => lemma_normal_key_made_of(ready, key.code, allowed),
            }
        },
        Mode::Visual => lemma_line_operations_made_of(state, allowed),
    }
}

/// The ASCII characters.
pub open spec fn ascii() -> Set<char> {
    Set::new(|c: char| c <= '\u{7f}')
}

/// In a text of ASCII characters every key is accepted at any time, and the text stays one as
/// long as only ASCII characters are typed.
pub proof fn law_ascii_accepts_every_key(state: EditorState, key: KeyPress)
    requires
        state.inv(),
        state_made_of(state, ascii()),
    ensures
        state.accepts(key),
        types_only(state, key, ascii()) ==> state_made_of(state.key_handled(key), ascii()),
{
    let line = state.line();
    assert(made_of(line, ascii()));
    assert forall|i: int| 0 <= i < line.len() implies #[trigger] line[i] <= '\u{7f}' by {
        assert(ascii().contains(line[i]));
    }
    lemma_ascii_boundaries(line);
    assert(on_boundary(line, state.cursor_col));
    if types_only(state, key, ascii()) {
        law_keys_invent_no_characters(state, key, ascii());
    }
}

/// The characters but for the line feed.
pub open spec fn all_but_line_feed() -> Set<char> {
    Set::new(|c: char| c != '\n')
}

/// Lines that hold no line feed go on holding none as long as none is typed into them. Such
/// lines are what reading a file gives, and what can be read back once it is saved.
pub proof fn law_line_feeds_stay_out(state: EditorState, key: KeyPress)
    requires
        state.inv(),
        state.accepts(key),
        state_made_of(state, all_but_line_feed()),
        types_only(state, key, all_but_line_feed()),
    ensures
        state_made_of(state.key_handled(key), all_but_line_feed()),
        forall|i: int|
            0 <= i < state.key_handled(key).lines.len() ==> !(
            #[trigger] state.key_handled(key).lines[i]).contains('\n'),
{
    law_keys_invent_no_characters(state, key, all_but_line_feed());
    let after = state.key_handled(key);
    assert forall|i: int| 0 <= i < after.lines.len() implies !(
    #[trigger] after.lines[i]).contains('\n') by {
        assert(made_of(after.lines[i], all_but_line_feed()));
    }
}

/// The lines of a file that has been read hold no line feed, whether the editor was started
/// with it or was told to open it.
pub proof fn law_files_open_without_line_feeds(
    state: EditorState,
    path: FilePathView,
    contents: Seq<char>,
)
    requires
        lines_made_of(state.clipboard, all_but_line_feed()),
    ensures
        state_made_of(EditorState::opened(Some(path), lines_of(contents)), all_but_line_feed()),
        state_made_of(state.read_completed(path, contents), all_but_line_feed()),
{
    law_lines_hold_no_line_feed(contents);
    assert forall|i: int| 0 <= i < lines_of(contents).len() implies made_of(
        #[trigger] lines_of(contents)[i],
        all_but_line_feed(),
    ) by {
        let line = lines_of(contents)[i];
        assert forall|j: int| 0 <= j < line.len() implies all_but_line_feed().contains(
            #[trigger] line[j],
        ) by {
            assert(line.contains(line[j]));
        }
    }
}

} // verus!
