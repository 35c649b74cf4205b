//! What each key does to the cursor, the mode and the command line, and which keys can be
//! handled.
use vstd::prelude::*;
use vstd::utf8::{encode_utf8, is_char_boundary};

use crate::edit_laws::{
    block_inserted, bytes, law_typed_char_comes_in, only_cursor_differs, press, stands_before,
};
use crate::keys::{KeyCode, KeyPress, Mode};
use crate::state::EditorState;
use crate::text::{
    byte_len, law_boundaries_are_encoded_boundaries, law_lengths_are_encoded_lengths,
    lemma_byte_len_at_least_len, lemma_ends_are_boundaries,
};

verus! {

/// The last column that is on a character of a line, or the first one if the line is empty.
pub open spec fn last_char_column(line: Seq<char>) -> int {
    if line.len() == 0 {
        0
    } else {
        bytes(line) - 1
    }
}

proof fn lemma_bytes(line: Seq<char>)
    ensures
        bytes(line) == byte_len(line),
        line.len() == 0 <==> bytes(line) == 0,
{
    law_lengths_are_encoded_lengths(line, Seq::empty());
    lemma_byte_len_at_least_len(line);
}

/// Moving the cursor back into the text leaves it alone where it may be, and else puts it in
/// the last line or the last column. In insert and command mode the end of the line is the
/// last column, and in the other modes the last one that is on a character.
pub proof fn law_clamping_finds_the_nearest_place(state: EditorState)
    requires
        state.lines.len() > 0,
        state.cursor_line >= 0,
    ensures
        ({
            let after = state.clamped();
            let line = state.lines[after.cursor_line];
            let end = if state.mode is Insert || state.mode is Command {
                bytes(line)
            } else {
                last_char_column(line)
            };
            &&& only_cursor_differs(state, after)
            &&& 0 <= after.cursor_line < state.lines.len()
            &&& state.cursor_line < state.lines.len() ==> after.cursor_line == state.cursor_line
            &&& state.cursor_line >= state.lines.len() ==> after.cursor_line == state.lines.len()
                - 1
            &&& state.cursor_col <= end ==> after.cursor_col == state.cursor_col
            &&& state.cursor_col > end ==> after.cursor_col == end
        }),
{
    let row = if state.cursor_line < state.lines.len() {
        state.cursor_line
    } else {
        state.lines.len() - 1
    };
    lemma_bytes(state.lines[row]);
}

/// Scrolling moves the window by no more than it takes: a cursor above it comes to its first
/// line, and one below it to its last line. Nothing but the window moves.
pub proof fn law_scrolling_moves_no_more_than_needed(state: EditorState, height: int)
    requires
        height >= 0,
    ensures
        ({
            let after = state.scrolled(height);
            &&& after == (EditorState { scroll_top: after.scroll_top, ..state })
            &&& height == 0 ==> after == state
            &&& height > 0 && state.cursor_line < state.scroll_top ==> after.scroll_top
                == state.cursor_line
            &&& height > 0 && state.scroll_top <= state.cursor_line < state.scroll_top + height
                ==> after == state
            &&& height > 0 && state.cursor_line >= state.scroll_top + height ==> after.scroll_top
                + height - 1 == state.cursor_line
        }),
{
}

/// Where a motion leads from a line and column: up and down to the next line, if there is one,
/// and in it to the same column or the last one; left and right by one column, if there is one.
pub open spec fn motion_leads(
    before: EditorState,
    after: EditorState,
    code: KeyCode,
    typing: bool,
) -> bool {
    let row = before.cursor_line;
    let col = before.cursor_col;
    let line = after.lines[after.cursor_line];
    let end = if typing {
        bytes(line)
    } else {
        last_char_column(line)
    };
    &&& only_cursor_differs(before, after)
    &&& code is Left ==> after.cursor_line == row && after.cursor_col == (if col > 0 {
        col - 1
    } else {
        0
    })
    &&& code is Right ==> after.cursor_line == row && after.cursor_col == (if col < end {
        col + 1
    } else {
        col
    })
    &&& code is Up ==> after.cursor_line == (if row > 0 {
        row - 1
    } else {
        0
    })
    &&& code is Down ==> after.cursor_line == (if row + 1 < before.lines.len() {
        row + 1
    } else {
        row
    })
    &&& code is Up || code is Down ==> after.cursor_col == (if col <= end {
        col
    } else {
        end
    })
}

/// Whether a key is an arrow key.
pub open spec fn is_arrow(code: KeyCode) -> bool {
    code is Left || code is Right || code is Up || code is Down
}

/// The letter that does the same as an arrow key outside insert mode.
pub open spec fn letter_for(code: KeyCode) -> char {
    match code {
        KeyCode::Left => 'h',
        KeyCode::Down => 'j',
        KeyCode::Up => 'k',
        _ => 'l',
    }
}

/// The arrow keys move the cursor by one line or column, in insert mode up to the end of the
/// line and in normal and visual mode up to its last character; there the letters `h`, `j`,
/// `k` and `l` do the same.
pub proof fn law_motions_move_by_one(state: EditorState, code: KeyCode, control: bool)
    requires
        state.inv(),
        state.pending is None,
        !(state.mode is Command),
        is_arrow(code),
    ensures
        state.mode is Insert ==> motion_leads(
            state,
            state.key_handled(press(code, control)),
            code,
            true,
        ),
        !(state.mode is Insert) ==> {
            &&& motion_leads(
                state,
                state.key_handled(press(code, control)),
                code,
                false,
            )
            &&& state.key_handled(press(KeyCode::Char(letter_for(code)), control))
                == state.key_handled(press(code, control))
        },
{
    let row = state.cursor_line;
    lemma_bytes(state.lines[row]);
    if row > 0 {
        lemma_bytes(state.lines[row - 1]);
    }
    if row + 1 < state.lines.len() {
        lemma_bytes(state.lines[row + 1]);
    }
    match code {
        KeyCode::Left => {},
        KeyCode::Right => {},
        KeyCode::Up => {},
        _ => {},
    }
}

/// The key `i` starts typing where the cursor stands.
pub proof fn law_i_starts_typing_at_the_cursor(state: EditorState, control: bool)
    requires
        state.inv(),
        state.mode is Normal,
        state.pending is None,
    ensures
        state.key_handled(press(KeyCode::Char('i'), control)) == (EditorState {
            mode: Mode::Insert,
            ..state
        }),
{
}

/// The key `a` starts typing one column further on, the last column of the line included.
pub proof fn law_a_starts_typing_behind_the_cursor(state: EditorState, control: bool)
    requires
        state.inv(),
        state.mode is Normal,
        state.pending is None,
    ensures
        ({
            let line = state.lines[state.cursor_line];
            let after = state.key_handled(press(KeyCode::Char('a'), control));
            &&& after == (EditorState {
                mode: Mode::Insert,
                cursor_col: after.cursor_col,
                ..state
            })
            &&& line.len() == 0 ==> after.cursor_col == 0
            &&& line.len() > 0 ==> after.cursor_col == state.cursor_col + 1 && after.cursor_col
                <= bytes(line)
        }),
{
    lemma_bytes(state.lines[state.cursor_line]);
}

/// What is typed after the key `a` stands behind the character under the cursor, the last one
/// of the line included, if that character is one byte wide.
pub proof fn law_a_appends_behind_the_character(
    state: EditorState,
    k: int,
    c: char,
    control: bool,
)
    requires
        state.inv(),
        state.mode is Normal,
        state.pending is None,
        stands_before(state, k),
        k < state.lines[state.cursor_line].len(),
        state.lines[state.cursor_line][k] <= '\u{7f}',
    ensures
        ({
            let line = state.lines[state.cursor_line];
            let after = state.key_handled(press(KeyCode::Char('a'), control)).key_handled(
                press(KeyCode::Char(c), false),
            );
            &&& after.mode is Insert
            &&& after.lines.len() == state.lines.len()
            &&& after.lines[state.cursor_line] == line.take(k + 1) + seq![c] + line.skip(k + 1)
            &&& forall|i: int|
                0 <= i < state.lines.len() && i != state.cursor_line ==> #[trigger] after.lines[i]
                    == state.lines[i]
        }),
{
    let line = state.lines[state.cursor_line];
    let typing = state.key_handled(press(KeyCode::Char('a'), control));
    law_a_starts_typing_behind_the_cursor(state, control);
    let one = seq![line[k]];
    assert(line.take(k + 1) == line.take(k) + one);
    law_lengths_are_encoded_lengths(line.take(k), one);
    law_lengths_are_encoded_lengths(one, Seq::empty());
    assert(one.drop_first() == Seq::<char>::empty());
    reveal_with_fuel(byte_len, 2);
    assert(stands_before(typing, k + 1));
    law_typed_char_comes_in(typing, k + 1, c);
}

/// The key `o` starts typing in a new empty line below the cursor's line.
pub proof fn law_o_opens_a_line_below(state: EditorState, control: bool)
    requires
        state.inv(),
        state.mode is Normal,
        state.pending is None,
    ensures
        ({
            let after = state.key_handled(press(KeyCode::Char('o'), control));
            &&& block_inserted(
                state.lines,
                after.lines,
                state.cursor_line + 1,
                seq![Seq::<char>::empty()],
            )
            &&& after == (EditorState {
                lines: after.lines,
                cursor_line: state.cursor_line + 1,
                cursor_col: 0,
                mode: Mode::Insert,
                dirty: true,
                ..state
            })
        }),
{
    let line = state.lines[state.cursor_line];
    lemma_ends_are_boundaries(line);
    assert(line.take(line.len() as int) == line);
    assert(line.skip(line.len() as int) == Seq::<char>::empty());
    let opened = state.with_column(byte_len(line) as int).newline_inserted();
    assert(opened.lines[state.cursor_line] == line);
    assert(opened.lines[state.cursor_line + 1] == Seq::<char>::empty());
    assert(block_inserted(
        state.lines,
        opened.lines,
        state.cursor_line + 1,
        seq![Seq::<char>::empty()],
    ));
}

/// The keys that start something in normal mode: the command line, a selection at the cursor,
/// an operator. Nothing else changes.
pub proof fn law_normal_keys_start_things(state: EditorState, control: bool)
    requires
        state.inv(),
        state.mode is Normal,
        state.pending is None,
    ensures
        state.key_handled(press(KeyCode::Char(':'), control)) == (EditorState {
            mode: Mode::Command,
            command: Seq::empty(),
            ..state
        }),
        state.key_handled(press(KeyCode::Char('v'), control)) == (EditorState {
            mode: Mode::Visual,
            visual_anchor: Some((state.cursor_line, state.cursor_col)),
            status: "VISUAL mode"@,
            ..state
        }),
        state.key_handled(press(KeyCode::Char('d'), control)) == (EditorState {
            pending: Some('d'),
            ..state
        }),
        state.key_handled(press(KeyCode::Char('y'), control)) == (EditorState {
            pending: Some('y'),
            ..state
        }),
{
}

/// Whether a character is the letter of a key that does something in normal mode.
pub open spec fn is_normal_letter(c: char) -> bool {
    ||| c == ':' || c == 'v' || c == 'i' || c == 'a' || c == 'o' || c == 'x'
    ||| c == 'd' || c == 'y' || c == 'p' || c == 'P' || c == 'J'
    ||| c == 'h' || c == 'j' || c == 'k' || c == 'l'
}

/// The keys without a meaning in normal mode do nothing.
pub proof fn law_other_normal_keys_do_nothing(state: EditorState, code: KeyCode, control: bool)
    requires
        state.inv(),
        state.mode is Normal,
        state.pending is None,
        !is_arrow(code),
        code matches KeyCode::Char(c) ==> !is_normal_letter(c),
    ensures
        state.key_handled(press(code, control)) == state,
{
}

/// An operator that gets another second key than its own does nothing but say so.
pub proof fn law_operators_are_canceled(
    state: EditorState,
    operator: char,
    code: KeyCode,
    control: bool,
)
    requires
        state.inv(),
        state.pending == Some(operator),
        operator == 'd' ==> code != KeyCode::Char('d'),
        operator == 'y' ==> code != KeyCode::Char('y'),
    ensures
        state.key_handled(press(code, control)) == (EditorState {
            pending: None,
            status: "operator "@.push(operator) + " canceled"@,
            ..state
        }),
{
    assert("operator "@.push(operator) == "operator "@ + seq![operator]);
}

/// The escape key in insert mode leaves the text alone, and moves the cursor onto the last
/// character if it stood at the end of the line.
pub proof fn law_escape_ends_typing(state: EditorState, control: bool)
    requires
        state.inv(),
        state.mode is Insert,
    ensures
        ({
            let line = state.lines[state.cursor_line];
            let after = state.key_handled(press(KeyCode::Esc, control));
            &&& after == (EditorState {
                mode: Mode::Normal,
                status: "NORMAL mode"@,
                cursor_col: after.cursor_col,
                ..state
            })
            &&& after.cursor_col == (if state.cursor_col <= last_char_column(line) {
                state.cursor_col
            } else {
                last_char_column(line)
            })
        }),
{
    lemma_bytes(state.lines[state.cursor_line]);
}

/// In insert mode, characters typed with the control key and keys without a meaning do
/// nothing.
pub proof fn law_control_keys_type_nothing(state: EditorState, c: char, control: bool)
    requires
        state.inv(),
        state.mode is Insert,
    ensures
        state.key_handled(press(KeyCode::Char(c), true)) == state,
        state.key_handled(press(KeyCode::Other, control)) == state,
{
}

/// In visual mode the escape key and the key `v` end the selection, and nothing else changes.
pub proof fn law_selection_can_be_ended(state: EditorState, control: bool)
    requires
        state.inv(),
        state.mode is Visual,
    ensures
        state.key_handled(press(KeyCode::Esc, control)) == (EditorState {
            mode: Mode::Normal,
            visual_anchor: None,
            status: "NORMAL mode"@,
            ..state
        }),
        state.key_handled(press(KeyCode::Char('v'), control)) == state.key_handled(
            press(KeyCode::Esc, control),
        ),
{
}

/// The keys without a meaning in visual mode do nothing.
pub proof fn law_other_visual_keys_do_nothing(state: EditorState, code: KeyCode, control: bool)
    requires
        state.inv(),
        state.mode is Visual,
        !is_arrow(code),
        !(code is Esc),
        code matches KeyCode::Char(c) ==> c != 'v' && c != 'd' && c != 'y' && c != 'h' && c != 'j'
            && c != 'k' && c != 'l',
    ensures
        state.key_handled(press(code, control)) == state,
{
}

/// On the command line a character is added at the end, the backspace key takes the last one
/// away and leaves an empty command line, and the escape key drops what was typed. Nothing
/// else changes, and other keys but enter do nothing.
pub proof fn law_command_line_is_edited(
    state: EditorState,
    typed: Seq<char>,
    c: char,
    code: KeyCode,
    control: bool,
)
    requires
        state.mode is Command,
    ensures
        state.key_handled(press(KeyCode::Char(c), control)) == (EditorState {
            command: state.command + seq![c],
            ..state
        }),
        state.command == typed + seq![c] ==> state.key_handled(press(KeyCode::Backspace, control))
            == (EditorState {
            command: typed,
            mode: if typed.len() == 0 {
                Mode::Normal
            } else {
                Mode::Command
            },
            ..state
        }),
        state.command.len() == 0 ==> state.key_handled(press(KeyCode::Backspace, control)) == (
        EditorState { mode: Mode::Normal, ..state }),
        state.key_handled(press(KeyCode::Esc, control)) == (EditorState {
            mode: Mode::Normal,
            command: Seq::empty(),
            ..state
        }),
        is_arrow(code) || code is Other ==> state.key_handled(press(code, control)) == state,
{
    assert(state.command.push(c) == state.command + seq![c]);
    if state.command == typed + seq![c] {
        assert(state.command.drop_last() == typed);
    }
}

/// No key but enter on the command line asks anything of the surroundings.
pub proof fn law_only_commands_ask_for_something(state: EditorState, key: KeyPress)
    requires
        !(state.mode is Command) || !(key.code is Enter),
    ensures
        state.key_outcome(key) == crate::state::Outcome::Ok(crate::state::EffectView::Done),
{
}

/// Which keys can be handled in insert mode: all of them where the cursor stands between two
/// characters, and else those that touch no character.
pub proof fn law_insert_keys_need_a_boundary(state: EditorState, code: KeyCode, control: bool)
    requires
        0 <= state.cursor_line < state.lines.len(),
        0 <= state.cursor_col,
        state.mode is Insert,
    ensures
        state.accepts(press(code, control)) <==> (is_char_boundary(
            encode_utf8(state.lines[state.cursor_line]),
            state.cursor_col,
        ) || is_arrow(code) || code is Esc || code is Other || (code is Char && control)),
{
    let line = state.lines[state.cursor_line];
    law_boundaries_are_encoded_boundaries(line, state.cursor_col);
    lemma_ends_are_boundaries(line);
}

/// Which keys can be handled in normal mode: all of them but `x` where it would have to delete
/// something that is not a character.
pub proof fn law_normal_keys_need_a_character(state: EditorState, code: KeyCode, control: bool)
    requires
        0 <= state.cursor_line < state.lines.len(),
        0 <= state.cursor_col,
        state.mode is Normal,
    ensures
        ({
            let line = state.lines[state.cursor_line];
            state.accepts(press(code, control)) <==> (state.pending is Some || code
                != KeyCode::Char('x') || line.len() == 0 || (is_char_boundary(
                encode_utf8(line),
                state.cursor_col,
            ) && state.cursor_col < bytes(line)))
        }),
{
    let line = state.lines[state.cursor_line];
    law_boundaries_are_encoded_boundaries(line, state.cursor_col);
    lemma_bytes(line);
}

/// Every key can be handled on the command line, and in visual mode as long as the selection
/// is in the text. No key can be handled with the cursor outside the text.
pub proof fn law_other_modes_take_every_key(state: EditorState, code: KeyCode, control: bool)
    ensures
        !(0 <= state.cursor_line < state.lines.len()) ==> !state.accepts(press(code, control)),
        0 <= state.cursor_line < state.lines.len() && state.mode is Command ==> state.accepts(
            press(code, control),
        ),
        0 <= state.cursor_line < state.lines.len() && state.mode is Visual ==> (state.accepts(
            press(code, control),
        ) <==> ((code != KeyCode::Char('d') && code != KeyCode::Char('y')) || (
        state.visual_anchor matches Some(anchor) ==> 0 <= anchor.0 < state.lines.len()))),
{
}

} // verus!
