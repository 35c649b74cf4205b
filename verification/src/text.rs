//! Text as a sequence of characters that is addressed by byte columns.
//!
//! A line is a `Seq<char>`. A column counts bytes of its UTF-8 form, so only some columns
//! stand between two characters. This module says which ones do, how many characters stand
//! before such a column, and splits a `String` there.
use vstd::prelude::*;
use vstd::utf8::{
    encode_scalar, encode_utf8, encode_utf8_decode_utf8, encode_utf8_first_scalar,
    encode_utf8_valid_utf8, is_char_boundary, pop_first_scalar,
};

verus! {

/// `String::push` appends the given character to the end of the string.
pub assume_specification[ String::push ](s: &mut String, c: char)
    ensures
        final(s)@ == old(s)@.push(c),
;

/// The number of bytes that UTF-8 spends on a character.
pub open spec fn char_width(c: char) -> nat {
    if c <= '\u{7f}' {
        1
    } else if c <= '\u{7ff}' {
        2
    } else if c <= '\u{ffff}' {
        3
    } else {
        4
    }
}

/// The number of bytes in the UTF-8 form of a text.
pub open spec fn byte_len(text: Seq<char>) -> nat
    decreases text.len(),
{
    if text.len() == 0 {
        0
    } else {
        char_width(text[0]) + byte_len(text.drop_first())
    }
}

/// The column at which the character with index `k` starts.
pub open spec fn column_of(text: Seq<char>, k: int) -> nat {
    byte_len(text.take(k))
}

/// Whether a column stands before, between or after whole characters.
pub open spec fn on_boundary(text: Seq<char>, col: int) -> bool
    decreases text.len(),
{
    if col <= 0 || text.len() == 0 {
        col == 0
    } else {
        on_boundary(text.drop_first(), col - char_width(text[0]))
    }
}

/// The number of characters before a column that stands on a boundary.
pub open spec fn chars_before(text: Seq<char>, col: int) -> int
    decreases text.len(),
{
    if col <= 0 || text.len() == 0 {
        0
    } else {
        1 + chars_before(text.drop_first(), col - char_width(text[0]))
    }
}

/// The texts of a list of strings.
pub open spec fn texts(strings: Seq<String>) -> Seq<Seq<char>> {
    Seq::new(strings.len(), |i: int| strings[i]@)
}

/// Byte lengths add up.
pub proof fn lemma_byte_len_concat(a: Seq<char>, b: Seq<char>)
    ensures
        byte_len(a + b) == byte_len(a) + byte_len(b),
    decreases a.len(),
{
    if a.len() == 0 {
        assert(a + b == b);
    } else {
        assert((a + b).drop_first() == a.drop_first() + b);
        lemma_byte_len_concat(a.drop_first(), b);
    }
}

/// One more character makes a text longer by its width.
pub proof fn lemma_byte_len_push(text: Seq<char>, c: char)
    ensures
        byte_len(text.push(c)) == byte_len(text) + char_width(c),
{
    let one = seq![c];
    assert(text.push(c) == text + one);
    lemma_byte_len_concat(text, one);
    assert(one.drop_first() == Seq::<char>::empty());
    reveal_with_fuel(byte_len, 2);
}

/// Every text is at least as many bytes long as it has characters.
pub proof fn lemma_byte_len_at_least_len(text: Seq<char>)
    ensures
        text.len() <= byte_len(text),
    decreases text.len(),
{
    if text.len() > 0 {
        lemma_byte_len_at_least_len(text.drop_first());
    }
}

/// The column at which a character starts is on a boundary, and as many characters stand
/// before it as the character's index says.
pub proof fn lemma_column_is_boundary(text: Seq<char>, k: int)
    requires
        0 <= k <= text.len(),
    ensures
        on_boundary(text, column_of(text, k) as int),
        chars_before(text, column_of(text, k) as int) == k,
        column_of(text, k) <= byte_len(text),
    decreases text.len(),
{
    if k == 0 {
        assert(text.take(0) == Seq::<char>::empty());
    } else {
        let rest = text.drop_first();
        assert(text.take(k).drop_first() == rest.take(k - 1));
        assert(text.take(k)[0] == text[0]);
        lemma_column_is_boundary(rest, k - 1);
    }
}

/// A boundary is the column at which the character after it starts.
pub proof fn lemma_boundary_is_column(text: Seq<char>, col: int)
    requires
        on_boundary(text, col),
    ensures
        0 <= chars_before(text, col) <= text.len(),
        column_of(text, chars_before(text, col)) == col,
    decreases text.len(),
{
    if col <= 0 || text.len() == 0 {
        assert(text.take(0) == Seq::<char>::empty());
    } else {
        let rest = text.drop_first();
        let inner = col - char_width(text[0]);
        lemma_boundary_is_column(rest, inner);
        let k = chars_before(text, col);
        assert(text.take(k).drop_first() == rest.take(k - 1));
        assert(text.take(k)[0] == text[0]);
    }
}

/// Both ends of a text are boundaries.
pub proof fn lemma_ends_are_boundaries(text: Seq<char>)
    ensures
        on_boundary(text, 0),
        chars_before(text, 0) == 0,
        on_boundary(text, byte_len(text) as int),
        chars_before(text, byte_len(text) as int) == text.len(),
{
    lemma_column_is_boundary(text, text.len() as int);
    assert(text.take(text.len() as int) == text);
}

/// No boundary lies past the end, and one before the end has a character after it.
pub proof fn lemma_boundary_in_range(text: Seq<char>, col: int)
    requires
        on_boundary(text, col),
    ensures
        0 <= col <= byte_len(text),
        col < byte_len(text) <==> chars_before(text, col) < text.len(),
        col > 0 <==> chars_before(text, col) > 0,
{
    lemma_boundary_is_column(text, col);
    let k = chars_before(text, col);
    lemma_column_is_boundary(text, k);
    lemma_byte_len_concat(text.take(k), text.skip(k));
    assert(text.take(k) + text.skip(k) == text);
    lemma_byte_len_at_least_len(text.take(k));
    lemma_byte_len_at_least_len(text.skip(k));
    assert(k == text.len() ==> text.skip(k) == Seq::<char>::empty());
    assert(k == 0 ==> text.take(k) == Seq::<char>::empty());
}

/// In a text of ASCII characters every column within it is a boundary.
pub proof fn lemma_ascii_boundaries(text: Seq<char>)
    requires
        forall|i: int| 0 <= i < text.len() ==> #[trigger] text[i] <= '\u{7f}',
    ensures
        byte_len(text) == text.len(),
        forall|col: int| 0 <= col <= text.len() ==> #[trigger] on_boundary(text, col),
    decreases text.len(),
{
    if text.len() > 0 {
        let rest = text.drop_first();
        assert forall|i: int| 0 <= i < rest.len() implies #[trigger] rest[i] <= '\u{7f}' by {
            assert(rest[i] == text[i + 1]);
        }
        lemma_ascii_boundaries(rest);
        assert forall|col: int| 0 <= col <= text.len() implies #[trigger] on_boundary(
            text,
            col,
        ) by {
            assert(col > 0 ==> on_boundary(rest, col - 1));
        }
    }
}

proof fn lemma_encoded_char(c: char)
    ensures
        encode_scalar(c as u32).len() == char_width(c),
{
}

proof fn lemma_encoded_len(text: Seq<char>)
    ensures
        encode_utf8(text).len() == byte_len(text),
    decreases text.len(),
{
    if text.len() > 0 {
        lemma_encoded_char(text[0]);
        lemma_encoded_len(text.drop_first());
    }
}

proof fn lemma_encoded_concat(a: Seq<char>, b: Seq<char>)
    ensures
        encode_utf8(a + b) == encode_utf8(a) + encode_utf8(b),
    decreases a.len(),
{
    if a.len() == 0 {
        assert(a + b == b);
    } else {
        assert((a + b).drop_first() == a.drop_first() + b);
        lemma_encoded_concat(a.drop_first(), b);
    }
}

proof fn lemma_encoded_boundary(text: Seq<char>, col: int)
    ensures
        is_char_boundary(encode_utf8(text), col) == on_boundary(text, col),
    decreases text.len(),
{
    let bytes = encode_utf8(text);
    encode_utf8_valid_utf8(text);
    lemma_encoded_len(text);
    if col == 0 {
    } else if col < 0 || text.len() == 0 {
    } else {
        encode_utf8_first_scalar(text);
        lemma_encoded_len(text.drop_first());
        assert(pop_first_scalar(bytes) == encode_utf8(text.drop_first()));
        lemma_encoded_boundary(text.drop_first(), col - char_width(text[0]));
        if col > bytes.len() {
            if on_boundary(text, col) {
                lemma_boundary_in_range(text, col);
            }
        }
    }
}

/// A character is as wide as its UTF-8 form is long.
pub proof fn law_widths_are_encoded_lengths(c: char)
    ensures
        char_width(c) == encode_utf8(seq![c]).len(),
{
    lemma_encoded_char(c);
    assert(seq![c].drop_first() == Seq::<char>::empty());
    reveal_with_fuel(encode_utf8, 2);
}

/// The length of a text is that of its UTF-8 form, and it grows with the text.
pub proof fn law_lengths_are_encoded_lengths(text: Seq<char>, more: Seq<char>)
    ensures
        byte_len(text) == encode_utf8(text).len(),
        encode_utf8(text + more) == encode_utf8(text) + encode_utf8(more),
{
    lemma_encoded_len(text);
    lemma_encoded_concat(text, more);
}

/// A column is a boundary if and only if it is one of the UTF-8 form, and then as many bytes
/// stand before it as its number says.
pub proof fn law_boundaries_are_encoded_boundaries(text: Seq<char>, col: int)
    ensures
        on_boundary(text, col) <==> is_char_boundary(encode_utf8(text), col),
        on_boundary(text, col) ==> 0 <= chars_before(text, col) <= text.len() && encode_utf8(
            text.take(chars_before(text, col)),
        ).len() == col,
{
    lemma_encoded_boundary(text, col);
    if on_boundary(text, col) {
        lemma_boundary_is_column(text, col);
        lemma_encoded_len(text.take(chars_before(text, col)));
    }
}

/// The column at which a character starts is the length of what stands before it, and as many
/// characters stand before that column.
pub proof fn law_columns_are_prefix_lengths(text: Seq<char>, k: int)
    requires
        0 <= k <= text.len(),
    ensures
        column_of(text, k) == encode_utf8(text.take(k)).len(),
        on_boundary(text, encode_utf8(text.take(k)).len() as int),
        chars_before(text, encode_utf8(text.take(k)).len() as int) == k,
{
    lemma_encoded_len(text.take(k));
    lemma_column_is_boundary(text, k);
}

/// The texts of strings are their views, in order.
pub proof fn law_texts_are_views(strings: Seq<String>)
    ensures
        texts(strings).len() == strings.len(),
        forall|i: int| 0 <= i < strings.len() ==> #[trigger] texts(strings)[i] == strings[i]@,
{
}

/// The length of a text in bytes.
pub fn text_len(text: &String) -> (len: usize)
    ensures
        len == byte_len(text@),
{
    proof {
        lemma_encoded_len(text@);
    }
    text.as_str().as_bytes().len()
}

/// Whether a column stands on a character boundary of the text.
pub fn is_boundary(text: &String, col: usize) -> (res: bool)
    ensures
        res == on_boundary(text@, col as int),
{
    proof {
        lemma_encoded_boundary(text@, col as int);
    }
    text.as_str().is_char_boundary(col)
}

/// Splits a text at a column into what stands before it and what stands after it.
pub fn split_at_column(text: &String, col: usize) -> (parts: (String, String))
    requires
        on_boundary(text@, col as int),
    ensures
        parts.0@ == text@.take(chars_before(text@, col as int)),
        parts.1@ == text@.skip(chars_before(text@, col as int)),
{
    let ghost k = chars_before(text@, col as int);
    let ghost head = text@.take(k);
    let ghost tail = text@.skip(k);
    proof {
        lemma_encoded_boundary(text@, col as int);
        lemma_boundary_is_column(text@, col as int);
        assert(text@ == head + tail);
        lemma_encoded_concat(head, tail);
        lemma_encoded_len(head);
        encode_utf8_decode_utf8(head);
        encode_utf8_decode_utf8(tail);
    }
    let (before, after) = text.as_str().split_at(col);
    proof {
        assert(encode_utf8(before@) == encode_utf8(head));
        assert(encode_utf8(after@) == encode_utf8(tail));
        encode_utf8_decode_utf8(before@);
        encode_utf8_decode_utf8(after@);
    }
    (before.to_owned(), after.to_owned())
}

/// The characters of a text, one by one.
pub fn to_chars(text: &String) -> (res: Vec<char>)
    ensures
        res@ == text@,
{
    let mut res: Vec<char> = Vec::new();
    let chars = text.as_str().chars();
    for c in it: chars
        invariant
            it.seq() == text@,
            res@ == text@.take(it.index() as int),
    {
        assert(text@.take(it.index() as int + 1) == text@.take(it.index() as int).push(c));
        res.push(c);
    }
    res
}

/// The text made of the characters with indices from `from` up to, not including, `to`.
pub fn from_chars(chars: &Vec<char>, from: usize, to: usize) -> (res: String)
    requires
        from <= to <= chars.len(),
    ensures
        res@ == chars@.subrange(from as int, to as int),
{
    let mut res = String::new();
    let mut i: usize = from;
    while i < to
        invariant
            from <= i <= to <= chars.len(),
            res@ == chars@.subrange(from as int, i as int),
        decreases to - i,
    {
        res.push(chars[i]);
        i += 1;
    }
    res
}

/// Whether a text is the given one.
pub fn same_text(text: &String, other: &str) -> (res: bool)
    ensures
        res == (text@ == other@),
{
    *text == other.to_owned()
}

} // verus!
