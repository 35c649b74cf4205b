//! What the editing operations do to the lines, told line by line and byte by byte.
use vstd::prelude::*;
use vstd::utf8::encode_utf8;

use crate::format::{decimal, is_blank, is_white_space, law_trimming_start_finds_text};
use crate::keys::{KeyCode, KeyPress, Mode};
use crate::laws::law_clamping_is_stable;
use crate::state::EditorState;
use crate::text::{
    byte_len, law_columns_are_prefix_lengths, law_lengths_are_encoded_lengths,
    law_widths_are_encoded_lengths, lemma_boundary_in_range, lemma_byte_len_at_least_len,
};

verus! {

/// The length of the UTF-8 form of a text.
pub open spec fn bytes(text: Seq<char>) -> int {
    encode_utf8(text).len() as int
}

/// A press of a key.
pub open spec fn press(code: KeyCode, control: bool) -> KeyPress {
    KeyPress { code, control }
}

/// Whether the cursor stands before the character with index `k` of its line, or at the end of
/// the line if `k` is its length.
pub open spec fn stands_before(state: EditorState, k: int) -> bool {
    let line = state.lines[state.cursor_line];
    &&& 0 <= state.cursor_line < state.lines.len()
    &&& 0 <= k <= line.len()
    &&& state.cursor_col == bytes(line.take(k))
}

/// Whether one line is another than before, and the others are the same.
pub open spec fn line_replaced(
    before: Seq<Seq<char>>,
    after: Seq<Seq<char>>,
    row: int,
    line: Seq<char>,
) -> bool {
    &&& after.len() == before.len()
    &&& after[row] == line
    &&& forall|i: int| 0 <= i < before.len() && i != row ==> #[trigger] after[i] == before[i]
}

/// Whether a block of lines has come in before the line with index `at`.
pub open spec fn block_inserted(
    before: Seq<Seq<char>>,
    after: Seq<Seq<char>>,
    at: int,
    block: Seq<Seq<char>>,
) -> bool {
    &&& after.len() == before.len() + block.len()
    &&& forall|i: int| 0 <= i < at ==> #[trigger] after[i] == before[i]
    &&& forall|i: int| 0 <= i < block.len() ==> after[at + i] == #[trigger] block[i]
    &&& forall|i: int| at <= i < before.len() ==> after[block.len() + i] == #[trigger] before[i]
}

/// Whether the lines from `first` to `last` have gone, and the others are left. A text without
/// any line is one empty line.
pub open spec fn block_removed(
    before: Seq<Seq<char>>,
    after: Seq<Seq<char>>,
    first: int,
    last: int,
) -> bool {
    let count = last - first + 1;
    if count == before.len() {
        after.len() == 1 && after[0].len() == 0
    } else {
        &&& after.len() == before.len() - count
        &&& forall|i: int| 0 <= i < first ==> #[trigger] after[i] == before[i]
        &&& forall|i: int| last < i < before.len() ==> after[i - count] == #[trigger] before[i]
    }
}

/// Whether two states differ in nothing but text, cursor, mark of changes, clipboard, status,
/// selection, mode and waiting operator.
pub open spec fn same_surroundings(before: EditorState, after: EditorState) -> bool {
    &&& after.path == before.path
    &&& after.scroll_top == before.scroll_top
    &&& after.command == before.command
    &&& after.should_quit == before.should_quit
}

/// Whether two states differ in nothing but text, cursor and mark of changes.
pub open spec fn only_text_differs(before: EditorState, after: EditorState) -> bool {
    &&& same_surroundings(before, after)
    &&& after.visual_anchor == before.visual_anchor
    &&& after.mode == before.mode
    &&& after.pending == before.pending
    &&& after.clipboard == before.clipboard
    &&& after.status == before.status
}

/// Whether two states differ in nothing but the place of the cursor.
pub open spec fn only_cursor_differs(before: EditorState, after: EditorState) -> bool {
    &&& only_text_differs(before, after)
    &&& after.lines == before.lines
    &&& after.dirty == before.dirty
}

proof fn lemma_stands(state: EditorState, k: int)
    requires
        stands_before(state, k),
    ensures
        state.at_boundary(),
        state.cursor_index() == k,
        bytes(state.lines[state.cursor_line]) == byte_len(state.lines[state.cursor_line]),
        0 <= state.cursor_col <= byte_len(state.lines[state.cursor_line]),
        state.cursor_col > 0 <==> k > 0,
        state.cursor_col < byte_len(state.lines[state.cursor_line]) <==> k
            < state.lines[state.cursor_line].len(),
{
    let line = state.lines[state.cursor_line];
    law_columns_are_prefix_lengths(line, k);
    law_lengths_are_encoded_lengths(line, Seq::empty());
    lemma_boundary_in_range(line, state.cursor_col);
}

/// Whether a character has come in before the character with index `k` of the cursor's line,
/// and the cursor stands behind it.
pub open spec fn char_came_in(before: EditorState, after: EditorState, k: int, c: char) -> bool {
    let line = before.lines[before.cursor_line];
    &&& line_replaced(
        before.lines,
        after.lines,
        before.cursor_line,
        line.take(k) + seq![c] + line.skip(k),
    )
    &&& after.cursor_line == before.cursor_line
    &&& after.cursor_col == bytes(line.take(k) + seq![c])
    &&& after.dirty
    &&& only_text_differs(before, after)
}

/// Typing a character puts it where the cursor stands, and moves the cursor behind it.
pub proof fn law_typed_char_comes_in(state: EditorState, k: int, c: char)
    requires
        stands_before(state, k),
    ensures
        char_came_in(state, state.char_inserted(c), k, c),
        state.mode is Insert ==> char_came_in(
            state,
            state.key_handled(press(KeyCode::Char(c), false)),
            k,
            c,
        ),
{
    let line = state.lines[state.cursor_line];
    lemma_stands(state, k);
    let head = line.take(k);
    let longer = line.insert(k, c);
    assert(longer == head + seq![c] + line.skip(k));
    law_lengths_are_encoded_lengths(head, seq![c]);
    law_widths_are_encoded_lengths(c);
    law_lengths_are_encoded_lengths(head + seq![c], line.skip(k));
    law_lengths_are_encoded_lengths(longer, Seq::empty());
    assert(state.char_inserted(c).lines[state.cursor_line] == longer);
}

/// Whether the cursor's line has been broken before the character with index `k`, and the
/// cursor stands at the start of the new line.
pub open spec fn line_broken(before: EditorState, after: EditorState, k: int) -> bool {
    let line = before.lines[before.cursor_line];
    let row = before.cursor_line;
    &&& after.lines.len() == before.lines.len() + 1
    &&& after.lines[row] == line.take(k)
    &&& after.lines[row + 1] == line.skip(k)
    &&& forall|i: int| 0 <= i < row ==> #[trigger] after.lines[i] == before.lines[i]
    &&& forall|i: int| row < i < before.lines.len() ==> after.lines[i + 1]
        == #[trigger] before.lines[i]
    &&& after.cursor_line == row + 1
    &&& after.cursor_col == 0
    &&& after.dirty
}

/// The enter key breaks the line where the cursor stands.
pub proof fn law_enter_breaks_the_line(state: EditorState, k: int, control: bool)
    requires
        stands_before(state, k),
    ensures
        line_broken(state, state.newline_inserted(), k),
        only_text_differs(state, state.newline_inserted()),
        state.mode is Insert ==> {
            let after = state.key_handled(press(KeyCode::Enter, control));
            line_broken(state, after, k) && only_text_differs(state, after)
        },
{
    lemma_stands(state, k);
}

/// Whether the character before the one with index `k` has gone from the cursor's line.
pub open spec fn char_before_gone(before: EditorState, after: EditorState, k: int) -> bool {
    let line = before.lines[before.cursor_line];
    &&& line_replaced(
        before.lines,
        after.lines,
        before.cursor_line,
        line.take(k - 1) + line.skip(k),
    )
    &&& after.cursor_line == before.cursor_line
    &&& after.cursor_col == bytes(line.take(k - 1))
    &&& after.dirty
    &&& only_text_differs(before, after)
}

/// Whether the cursor's line has been put behind the line above it, and the cursor stands
/// between the two.
pub open spec fn line_break_gone(before: EditorState, after: EditorState) -> bool {
    let row = before.cursor_line;
    &&& after.lines.len() == before.lines.len() - 1
    &&& after.lines[row - 1] == before.lines[row - 1] + before.lines[row]
    &&& forall|i: int| 0 <= i < row - 1 ==> #[trigger] after.lines[i] == before.lines[i]
    &&& forall|i: int| row < i < before.lines.len() ==> after.lines[i - 1]
        == #[trigger] before.lines[i]
    &&& after.cursor_line == row - 1
    &&& after.cursor_col == bytes(before.lines[row - 1])
    &&& after.dirty
    &&& only_text_differs(before, after)
}

/// What the backspace key does: it takes away the character before the cursor, at the start of
/// a line the line break before it, and at the start of the text nothing.
pub open spec fn backspace_done(before: EditorState, after: EditorState, k: int) -> bool {
    if k > 0 {
        char_before_gone(before, after, k)
    } else if before.cursor_line > 0 {
        line_break_gone(before, after)
    } else {
        after == before
    }
}

/// The backspace key takes away what stands before the cursor.
pub proof fn law_backspace_takes_away(state: EditorState, k: int, control: bool)
    requires
        stands_before(state, k),
    ensures
        backspace_done(state, state.backspaced(), k),
        state.mode is Insert ==> backspace_done(
            state,
            state.key_handled(press(KeyCode::Backspace, control)),
            k,
        ),
{
    let line = state.lines[state.cursor_line];
    lemma_stands(state, k);
    if k > 0 {
        let shorter = line.remove(k - 1);
        assert(shorter == line.take(k - 1) + line.skip(k));
        law_columns_are_prefix_lengths(line, k - 1);
        law_lengths_are_encoded_lengths(line.take(k - 1), line.skip(k));
        law_lengths_are_encoded_lengths(shorter, Seq::empty());
        assert(state.backspaced().lines[state.cursor_line] == shorter);
    } else if state.cursor_line > 0 {
        let above = state.lines[state.cursor_line - 1];
        law_lengths_are_encoded_lengths(above, line);
        law_lengths_are_encoded_lengths(above + line, Seq::empty());
        assert(state.backspaced().lines[state.cursor_line - 1] == above + line);
    }
}

/// Whether the character with index `k` has gone from the cursor's line.
pub open spec fn char_gone(before: EditorState, after: EditorState, k: int) -> bool {
    let line = before.lines[before.cursor_line];
    &&& line_replaced(
        before.lines,
        after.lines,
        before.cursor_line,
        line.take(k) + line.skip(k + 1),
    )
    &&& after.cursor_line == before.cursor_line
    &&& after.dirty
    &&& only_text_differs(before, after)
}

/// Deleting takes away the character under the cursor. The cursor stays where it is, but the
/// key `x` moves it back onto the line if it stood on the last character.
pub proof fn law_delete_takes_away(state: EditorState, k: int, control: bool)
    requires
        stands_before(state, k),
        k < state.lines[state.cursor_line].len(),
    ensures
        char_gone(state, state.char_deleted(), k),
        state.char_deleted().cursor_col == state.cursor_col,
        state.mode is Normal && state.pending is None ==> {
            let line = state.lines[state.cursor_line];
            let after = state.key_handled(press(KeyCode::Char('x'), control));
            &&& char_gone(state, after, k)
            &&& k + 1 < line.len() ==> after.cursor_col == state.cursor_col
            &&& k + 1 == line.len() ==> after.cursor_col == (if k == 0 {
                0
            } else {
                bytes(line.take(k)) - 1
            })
        },
{
    let line = state.lines[state.cursor_line];
    lemma_stands(state, k);
    let shorter = line.remove(k);
    assert(shorter == line.take(k) + line.skip(k + 1));
    law_lengths_are_encoded_lengths(line.take(k), line.skip(k + 1));
    law_lengths_are_encoded_lengths(shorter, Seq::empty());
    law_lengths_are_encoded_lengths(line.skip(k + 1), Seq::empty());
    law_lengths_are_encoded_lengths(line.take(k), Seq::empty());
    lemma_byte_len_at_least_len(line.skip(k + 1));
    lemma_byte_len_at_least_len(line.take(k));
    assert(state.char_deleted().lines[state.cursor_line] == shorter);
    if k + 1 == line.len() {
        assert(line.skip(k + 1) == Seq::<char>::empty());
        assert(shorter == line.take(k));
    }
    if k == 0 {
        assert(line.take(k) == Seq::<char>::empty());
    }
}

/// Deleting in an empty line does nothing.
pub proof fn law_delete_leaves_empty_lines(state: EditorState, control: bool)
    requires
        0 <= state.cursor_line < state.lines.len(),
        state.lines[state.cursor_line].len() == 0,
    ensures
        state.char_deleted() == state,
        state.mode is Normal && state.pending is None && state.cursor_col == 0
            ==> state.key_handled(press(KeyCode::Char('x'), control)) == state,
{
}

/// The keys `d` `d`, and deleting by itself, take the cursor's line away; the cursor stands at
/// the start of the line that follows, or of the last line.
pub open spec fn line_gone(before: EditorState, after: EditorState) -> bool {
    let row = before.cursor_line;
    &&& block_removed(before.lines, after.lines, row, row)
    &&& after.cursor_line == (if row + 1 < before.lines.len() || row == 0 {
        row
    } else {
        row - 1
    })
    &&& after.cursor_col == 0
    &&& after.dirty
    &&& same_surroundings(before, after)
    &&& after.visual_anchor == before.visual_anchor
    &&& after.mode == before.mode
    &&& after.status == before.status
}

/// Whether the clipboard holds the cursor's line and nothing else.
pub open spec fn clipboard_holds_line(before: EditorState, after: EditorState) -> bool {
    after.clipboard.len() == 1 && after.clipboard[0] == before.lines[before.cursor_line]
}

/// Deleting a line takes that line away and no other; the keys `d` `d` keep it in the
/// clipboard.
pub proof fn law_delete_line_takes_one_line(state: EditorState, first: bool, second: bool)
    requires
        0 <= state.cursor_line < state.lines.len(),
    ensures
        line_gone(state, state.line_deleted()),
        state.line_deleted().clipboard == state.clipboard,
        state.line_deleted().pending == state.pending,
        state.inv() && state.mode is Normal && state.pending is None ==> {
            let after = state.key_handled(press(KeyCode::Char('d'), first)).key_handled(
                press(KeyCode::Char('d'), second),
            );
            line_gone(state, after) && clipboard_holds_line(state, after) && after.pending is None
        },
{
    if state.inv() && state.mode is Normal && state.pending is None {
        law_clamping_is_stable(state);
        let waiting = state.key_handled(press(KeyCode::Char('d'), first));
        assert(waiting == (EditorState { pending: Some('d'), ..state })) by {
            law_clamping_is_stable(EditorState { pending: Some('d'), ..state });
        }
        lemma_byte_len_at_least_len(
            state.line_copied().line_deleted().lines[state.line_deleted().cursor_line],
        );
    }
}

/// Yanking a line keeps it in the clipboard and changes neither the text nor the cursor.
pub proof fn law_yank_line_copies_one_line(state: EditorState, first: bool, second: bool)
    requires
        0 <= state.cursor_line < state.lines.len(),
    ensures
        clipboard_holds_line(state, state.line_yanked()),
        state.line_yanked() == (EditorState {
            clipboard: state.line_yanked().clipboard,
            status: "1 line yanked"@,
            ..state
        }),
        state.line_copied() == (EditorState {
            clipboard: state.line_yanked().clipboard,
            ..state
        }),
        state.inv() && state.mode is Normal && state.pending is None ==> {
            let after = state.key_handled(press(KeyCode::Char('y'), first)).key_handled(
                press(KeyCode::Char('y'), second),
            );
            &&& clipboard_holds_line(state, after)
            &&& after == (EditorState {
                clipboard: after.clipboard,
                status: "1 line yanked"@,
                ..state
            })
        },
{
    if state.inv() && state.mode is Normal && state.pending is None {
        law_clamping_is_stable(EditorState { pending: Some('y'), ..state });
        law_clamping_is_stable(state.line_yanked());
    }
}

/// Whether the clipboard's lines have come in before the line with index `at`, and the cursor
/// stands at the start of the first of them.
pub open spec fn clipboard_came_in(before: EditorState, after: EditorState, at: int) -> bool {
    &&& block_inserted(before.lines, after.lines, at, before.clipboard)
    &&& after.cursor_line == at
    &&& after.cursor_col == 0
    &&& after.dirty
    &&& after.clipboard == before.clipboard
    &&& same_surroundings(before, after)
    &&& after.visual_anchor == before.visual_anchor
    &&& after.mode == before.mode
    &&& after.pending == before.pending
}

/// Putting inserts the lines of the clipboard in their order, after the cursor's line or
/// before it, and moves no other line but down.
pub proof fn law_put_inserts_the_clipboard(state: EditorState, control: bool)
    requires
        0 <= state.cursor_line < state.lines.len(),
        state.clipboard.len() > 0,
    ensures
        clipboard_came_in(state, state.lines_put(false), state.cursor_line + 1),
        clipboard_came_in(state, state.lines_put(true), state.cursor_line),
        state.inv() && state.mode is Normal && state.pending is None ==> {
            &&& clipboard_came_in(
                state,
                state.key_handled(press(KeyCode::Char('p'), control)),
                state.cursor_line + 1,
            )
            &&& clipboard_came_in(
                state,
                state.key_handled(press(KeyCode::Char('P'), control)),
                state.cursor_line,
            )
        },
{
    assert(block_inserted(
        state.lines,
        state.lines_put(false).lines,
        state.cursor_line + 1,
        state.clipboard,
    ));
    assert(block_inserted(
        state.lines,
        state.lines_put(true).lines,
        state.cursor_line,
        state.clipboard,
    ));
}

/// After a put the status tells how many lines came in, and without anything to put nothing
/// else changes.
pub proof fn law_put_tells_the_count(state: EditorState, before: bool)
    requires
        0 <= state.cursor_line < state.lines.len(),
    ensures
        state.inv() && state.mode is Normal && state.pending is None ==> {
            let key = press(
                KeyCode::Char(
                    if before {
                        'P'
                    } else {
                        'p'
                    },
                ),
                false,
            );
            &&& state.key_handled(key).status == state.lines_put(before).status
            &&& state.clipboard.len() == 0 ==> state.key_handled(key) == (EditorState {
                status: "Nothing to put"@,
                ..state
            })
        },
        state.clipboard.len() == 0 ==> state.lines_put(before) == (EditorState {
            status: "Nothing to put"@,
            ..state
        }),
        state.clipboard.len() == 1 ==> state.lines_put(before).status == "1 line put"@,
        state.clipboard.len() > 1 ==> state.lines_put(before).status == decimal(
            state.clipboard.len(),
        ) + " lines put"@,
{
    reveal_strlit("1 line put");
    reveal_strlit(" line");
    reveal_strlit(" lines put");
    reveal_strlit(" put");
    reveal_strlit("s");
    reveal_strlit("");
    assert(decimal(1) == seq!['1']);
    if state.clipboard.len() == 1 {
        assert(state.lines_put(before).status == "1 line put"@);
    } else if state.clipboard.len() > 1 {
        assert(state.lines_put(before).status == decimal(state.clipboard.len())
            + " lines put"@);
    }
}

/// What joining gives of a line and the next one, whose text stands behind white space: the
/// line, a space unless it is empty, and that text.
pub open spec fn lines_became_one(
    before: EditorState,
    after: EditorState,
    text: Seq<char>,
) -> bool {
    let row = before.cursor_line;
    let line = before.lines[row];
    let whole = after.lines[row];
    &&& after.lines.len() == before.lines.len() - 1
    &&& line.len() == 0 ==> whole == text
    &&& line.len() > 0 ==> whole.len() == line.len() + 1 + text.len() && whole.take(
        line.len() as int,
    ) == line && whole[line.len() as int] == ' ' && whole.skip(line.len() as int + 1) == text
    &&& forall|i: int| 0 <= i < row ==> #[trigger] after.lines[i] == before.lines[i]
    &&& forall|i: int| row + 1 < i < before.lines.len() ==> after.lines[i - 1]
        == #[trigger] before.lines[i]
    &&& after.cursor_line == row
    &&& before.cursor_col < bytes(whole) ==> after.cursor_col == before.cursor_col
    &&& before.cursor_col >= bytes(whole) ==> after.cursor_col == (if whole.len() == 0 {
        0
    } else {
        bytes(whole) - 1
    })
    &&& after.dirty
    &&& only_text_differs(before, after)
}

/// Joining makes one line of two, and drops the white space at the start of the second. The
/// last line cannot be joined.
pub proof fn law_join_makes_one_line(
    state: EditorState,
    space: Seq<char>,
    text: Seq<char>,
    control: bool,
)
    requires
        0 <= state.cursor_line,
        state.cursor_line + 1 < state.lines.len(),
        state.lines[state.cursor_line + 1] == space + text,
        is_blank(space),
        text.len() > 0 ==> !is_white_space(text[0]),
        0 <= state.cursor_col,
    ensures
        lines_became_one(state, state.lines_joined(), text),
        state.mode is Normal && state.pending is None ==> lines_became_one(
            state,
            state.key_handled(press(KeyCode::Char('J'), control)),
            text,
        ),
{
    let row = state.cursor_line;
    let line = state.lines[row];
    law_trimming_start_finds_text(space, text);
    let whole = state.lines_joined().lines[row];
    law_lengths_are_encoded_lengths(whole, Seq::empty());
    lemma_byte_len_at_least_len(whole);
    if line.len() > 0 {
        assert(whole.take(line.len() as int) == line);
        assert(whole.skip(line.len() as int + 1) == text);
    } else {
        assert(whole == text);
    }
    assert(lines_became_one(state, state.lines_joined(), text));
}

/// The last line is not joined to anything.
pub proof fn law_join_leaves_the_last_line(state: EditorState, control: bool)
    requires
        state.cursor_line + 1 >= state.lines.len(),
    ensures
        state.inv() && state.mode is Normal && state.pending is None ==> state.key_handled(
            press(KeyCode::Char('J'), control),
        ) == (EditorState { status: "E294: cannot join last line"@, ..state }),
        state.lines_joined() == (EditorState {
            status: "E294: cannot join last line"@,
            ..state
        }),
{
}

/// Whether a line lies between two others, in either order.
pub open spec fn between(a: int, b: int, i: int) -> bool {
    a <= i <= b || b <= i <= a
}

/// The selection reaches from the line in which it began to the cursor's line, whichever comes
/// first, and whatever the column in which it began.
pub proof fn law_selection_reaches_from_anchor_to_cursor(state: EditorState, i: int)
    ensures
        state.visual_anchor is None ==> state.selection() is None && !state.selects(i),
        state.visual_anchor matches Some(anchor) ==> {
            &&& state.selects(i) <==> between(anchor.0, state.cursor_line, i)
            &&& state.selection() matches Some(bounds) && bounds.0 <= bounds.1 && (bounds.0 <= i
                <= bounds.1 <==> between(anchor.0, state.cursor_line, i))
            &&& state.selection() == (EditorState {
                visual_anchor: Some((anchor.0, 0)),
                ..state
            }).selection()
        },
{
}

/// Whether the lines from `a` to `b`, in either order, are in the clipboard, all of them and in
/// their order.
pub open spec fn clipboard_holds_block(
    before: EditorState,
    after: EditorState,
    a: int,
    b: int,
) -> bool {
    let first = if a < b {
        a
    } else {
        b
    };
    let count = if a < b {
        b - a + 1
    } else {
        a - b + 1
    };
    &&& after.clipboard.len() == count
    &&& forall|i: int| 0 <= i < count ==> #[trigger] after.clipboard[i] == before.lines[first + i]
}

/// Whether the lines from `a` to `b`, in either order, have gone from the text, and the cursor
/// stands at the start of the line that followed them, or of the last line.
pub open spec fn block_gone(before: EditorState, after: EditorState, a: int, b: int) -> bool {
    let first = if a < b {
        a
    } else {
        b
    };
    let last = if a < b {
        b
    } else {
        a
    };
    &&& block_removed(before.lines, after.lines, first, last)
    &&& after.cursor_line == (if last + 1 < before.lines.len() || first == 0 {
        first
    } else {
        first - 1
    })
    &&& after.cursor_col == 0
    &&& after.dirty
    &&& after.visual_anchor is None
    &&& after.mode is Normal
    &&& after.pending == before.pending
    &&& after.status == before.status
    &&& same_surroundings(before, after)
}

/// Deleting a selection moves the lines from where it began to the cursor, all of them and no
/// others, from the text to the clipboard.
pub proof fn law_delete_selection_moves_its_lines(
    state: EditorState,
    anchor: (int, int),
    control: bool,
)
    requires
        state.visual_anchor == Some(anchor),
        0 <= anchor.0 < state.lines.len(),
        0 <= state.cursor_line < state.lines.len(),
    ensures
        block_gone(state, state.selection_deleted(), anchor.0, state.cursor_line),
        clipboard_holds_block(state, state.selection_deleted(), anchor.0, state.cursor_line),
        state.mode is Visual ==> {
            let after = state.key_handled(press(KeyCode::Char('d'), control));
            &&& block_gone(state, after, anchor.0, state.cursor_line)
            &&& clipboard_holds_block(state, after, anchor.0, state.cursor_line)
        },
{
    let after = state.selection_deleted();
    assert(block_gone(state, after, anchor.0, state.cursor_line));
    assert(clipboard_holds_block(state, after, anchor.0, state.cursor_line));
    lemma_byte_len_at_least_len(after.lines[after.cursor_line]);
}

/// Yanking a selection copies the lines from where it began to the cursor, all of them and no
/// others, and leaves the text and the cursor's line as they are.
pub proof fn law_yank_selection_copies_its_lines(
    state: EditorState,
    anchor: (int, int),
    control: bool,
)
    requires
        state.inv(),
        state.visual_anchor == Some(anchor),
    ensures
        clipboard_holds_block(state, state.selection_yanked(), anchor.0, state.cursor_line),
        state.selection_yanked() == (EditorState {
            clipboard: state.selection_yanked().clipboard,
            status: decimal(state.selection_yanked().clipboard.len()) + " lines yanked"@,
            visual_anchor: None,
            mode: Mode::Normal,
            ..state
        }),
        state.key_handled(press(KeyCode::Char('y'), control)) == state.selection_yanked(),
{
    assert(state.selection_yanked().inv());
    law_clamping_is_stable(state.selection_yanked());
}

/// From the key `v` in one line to the keys `d` or `y` in another, with any number of motions
/// between, exactly the lines from the one to the other are taken.
pub proof fn law_visual_mode_takes_the_lines_passed(
    start: EditorState,
    moved: EditorState,
    first: bool,
    second: bool,
)
    requires
        start.inv(),
        start.mode is Normal,
        start.pending is None,
        moved.inv(),
        only_cursor_differs(start.key_handled(press(KeyCode::Char('v'), first)), moved),
    ensures
        ({
            let deleted = moved.key_handled(press(KeyCode::Char('d'), second));
            let yanked = moved.key_handled(press(KeyCode::Char('y'), second));
            &&& block_gone(moved, deleted, start.cursor_line, moved.cursor_line)
            &&& clipboard_holds_block(start, deleted, start.cursor_line, moved.cursor_line)
            &&& clipboard_holds_block(start, yanked, start.cursor_line, moved.cursor_line)
            &&& yanked.lines == start.lines
        }),
{
    let selecting = start.key_handled(press(KeyCode::Char('v'), first));
    law_clamping_is_stable(
        EditorState {
            mode: Mode::Visual,
            visual_anchor: Some((start.cursor_line, start.cursor_col)),
            status: "VISUAL mode"@,
            ..start
        },
    );
    let anchor = (start.cursor_line, start.cursor_col);
    assert(moved.visual_anchor == Some(anchor));
    law_delete_selection_moves_its_lines(moved, anchor, second);
    law_yank_selection_copies_its_lines(moved, anchor, second);
}

/// Without a selection nothing is deleted or yanked.
pub proof fn law_no_selection_takes_nothing(state: EditorState)
    requires
        state.visual_anchor is None,
    ensures
        state.selection_deleted() == state,
        state.selection_yanked() == state,
{
}

} // verus!
