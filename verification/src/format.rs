//! Numbers as text, padding and white space.
use vstd::prelude::*;

use crate::text::{from_chars, to_chars};

verus! {

/// The character for a decimal digit.
pub open spec fn digit(d: nat) -> char {
    ('0' as nat + d) as char
}

/// A number in decimal notation, without leading zeros.
pub open spec fn decimal(n: nat) -> Seq<char>
    decreases n,
{
    if n < 10 {
        seq![digit(n)]
    } else {
        decimal(n / 10).push(digit(n % 10))
    }
}

/// A run of spaces.
pub open spec fn spaces(n: nat) -> Seq<char> {
    Seq::new(n, |i: int| ' ')
}

/// The number of spaces that bring a text up to a width counted in characters.
pub open spec fn missing(text: Seq<char>, width: nat) -> nat {
    if text.len() >= width {
        0
    } else {
        (width - text.len()) as nat
    }
}

/// A text moved to the right end of a field.
pub open spec fn right_aligned(text: Seq<char>, width: nat) -> Seq<char> {
    spaces(missing(text, width)) + text
}

/// A text at the left end of a field.
pub open spec fn left_aligned(text: Seq<char>, width: nat) -> Seq<char> {
    text + spaces(missing(text, width))
}

/// The characters with the Unicode property `White_Space`.
pub open spec fn is_white_space(c: char) -> bool {
    ||| '\t' <= c <= '\r'
    ||| c == ' '
    ||| c == '\u{85}'
    ||| c == '\u{a0}'
    ||| c == '\u{1680}'
    ||| '\u{2000}' <= c <= '\u{200a}'
    ||| '\u{2028}' <= c <= '\u{2029}'
    ||| c == '\u{202f}'
    ||| c == '\u{205f}'
    ||| c == '\u{3000}'
}

/// A text without the white space at its start.
pub open spec fn trimmed_start(text: Seq<char>) -> Seq<char>
    decreases text.len(),
{
    if text.len() > 0 && is_white_space(text[0]) {
        trimmed_start(text.drop_first())
    } else {
        text
    }
}

/// A text without the white space at its end.
pub open spec fn trimmed_end(text: Seq<char>) -> Seq<char>
    decreases text.len(),
{
    if text.len() > 0 && is_white_space(text.last()) {
        trimmed_end(text.drop_last())
    } else {
        text
    }
}

/// A text without the white space at either end.
pub open spec fn trimmed(text: Seq<char>) -> Seq<char> {
    trimmed_end(trimmed_start(text))
}

/// The number that a row of decimal digits stands for.
pub open spec fn value_of(digits: Seq<char>) -> int
    decreases digits.len(),
{
    if digits.len() == 0 {
        0
    } else {
        10 * value_of(digits.drop_last()) + (digits.last() as int - '0' as int)
    }
}

/// Decimal notation is made of digits, starts with no zero but for zero itself, and stands for
/// the number that was written.
pub proof fn law_decimals_read_back(n: nat)
    ensures
        decimal(n).len() > 0,
        forall|i: int| 0 <= i < decimal(n).len() ==> '0' <= #[trigger] decimal(n)[i] <= '9',
        decimal(n)[0] == '0' ==> decimal(n).len() == 1,
        value_of(decimal(n)) == n,
    decreases n,
{
    if n < 10 {
        assert(decimal(n).drop_last() == Seq::<char>::empty());
        assert(value_of(Seq::<char>::empty()) == 0);
    } else {
        law_decimals_read_back(n / 10);
        assert(decimal(n).drop_last() == decimal(n / 10));
        assert(decimal(n)[0] == decimal(n / 10)[0]);
        if decimal(n / 10)[0] == '0' {
            let first = decimal(n / 10);
            assert(first.drop_last() == Seq::<char>::empty());
            assert(value_of(Seq::<char>::empty()) == 0);
        }
    }
}

/// An aligned text is as wide as its field, or as itself if it is wider, and nothing but
/// spaces stand beside it.
pub proof fn law_alignment_adds_spaces(text: Seq<char>, width: nat)
    ensures
        ({
            let wide = if text.len() > width {
                text.len()
            } else {
                width
            };
            let right = right_aligned(text, width);
            let left = left_aligned(text, width);
            let gap = wide - text.len();
            &&& right.len() == wide
            &&& left.len() == wide
            &&& right.skip(gap) == text
            &&& left.take(text.len() as int) == text
            &&& forall|i: int| 0 <= i < gap ==> #[trigger] right[i] == ' '
            &&& forall|i: int| text.len() <= i < wide ==> #[trigger] left[i] == ' '
        }),
{
}

/// White space is known by its code points.
pub proof fn law_white_space_code_points(c: char)
    ensures
        is_white_space(c) <==> {
            let code = c as int;
            ||| code == 9 || code == 10 || code == 11 || code == 12 || code == 13
            ||| code == 32 || code == 133 || code == 160 || code == 5760
            ||| 8192 <= code && code <= 8202
            ||| code == 8232 || code == 8233 || code == 8239 || code == 8287 || code == 12288
        },
{
}

/// Trimming the start of a text takes away white space only, and all of it that stands there.
pub proof fn law_trimming_start_leaves_a_suffix(text: Seq<char>) -> (n: int)
    ensures
        0 <= n <= text.len(),
        trimmed_start(text) == text.skip(n),
        forall|i: int| 0 <= i < n ==> is_white_space(#[trigger] text[i]),
        n < text.len() ==> !is_white_space(text[n]),
    decreases text.len(),
{
    if text.len() > 0 && is_white_space(text[0]) {
        let rest = text.drop_first();
        let m = law_trimming_start_leaves_a_suffix(rest);
        assert(rest.skip(m) == text.skip(m + 1));
        assert forall|i: int| 0 <= i < m + 1 implies is_white_space(#[trigger] text[i]) by {
            assert(i > 0 ==> text[i] == rest[i - 1]);
        }
        assert(m < rest.len() ==> text[m + 1] == rest[m]);
        m + 1
    } else {
        assert(text.skip(0) == text);
        0
    }
}

/// Whether every character of a text is white space.
pub open spec fn is_blank(text: Seq<char>) -> bool {
    forall|i: int| 0 <= i < text.len() ==> is_white_space(#[trigger] text[i])
}

proof fn lemma_trimmed_end_of(text: Seq<char>, space: Seq<char>)
    requires
        is_blank(space),
        text.len() > 0 ==> !is_white_space(text.last()),
    ensures
        trimmed_end(text + space) == text,
    decreases space.len(),
{
    if space.len() == 0 {
        assert(text + space == text);
    } else {
        let both = text + space;
        assert(both.last() == space.last());
        assert(both.drop_last() == text + space.drop_last());
        lemma_trimmed_end_of(text, space.drop_last());
    }
}

/// Trimming the start of a text gives back what stands behind white space.
pub proof fn law_trimming_start_finds_text(space: Seq<char>, text: Seq<char>)
    requires
        is_blank(space),
        text.len() > 0 ==> !is_white_space(text[0]),
    ensures
        trimmed_start(space + text) == text,
    decreases space.len(),
{
    if space.len() == 0 {
        assert(space + text == text);
    } else {
        let both = space + text;
        assert(both[0] == space[0]);
        assert(both.drop_first() == space.drop_first() + text);
        law_trimming_start_finds_text(space.drop_first(), text);
    }
}

/// Trimming gives back the text that stands between white space.
pub proof fn law_trimming_finds_text(before: Seq<char>, text: Seq<char>, after: Seq<char>)
    requires
        is_blank(before),
        is_blank(after),
        text.len() > 0 ==> !is_white_space(text[0]) && !is_white_space(text.last()),
    ensures
        trimmed(before + text + after) == text,
{
    if text.len() == 0 {
        let space = before + text + after;
        assert(is_blank(space)) by {
            assert forall|i: int| 0 <= i < space.len() implies is_white_space(
                #[trigger] space[i],
            ) by {
                if i < before.len() {
                    assert(space[i] == before[i]);
                } else {
                    assert(space[i] == after[i - before.len()]);
                }
            }
        }
        law_trimming_start_finds_text(space, text);
        assert(space + text == space);
        assert(text == Seq::<char>::empty());
        lemma_trimmed_end_of(text, Seq::empty());
    } else {
        assert(before + text + after == before + (text + after));
        assert((text + after)[0] == text[0]);
        law_trimming_start_finds_text(before, text + after);
        lemma_trimmed_end_of(text, after);
    }
}

/// Writes a number in decimal notation.
pub fn decimal_text(n: u128) -> (res: String)
    ensures
        res@ == decimal(n as nat),
    decreases n,
{
    let last: u8 = 48 + (n % 10) as u8;
    let mut res = if n < 10 {
        String::new()
    } else {
        decimal_text(n / 10)
    };
    res.push(last as char);
    res
}

/// Appends spaces.
pub fn push_spaces(text: &mut String, count: usize)
    ensures
        final(text)@ == old(text)@ + spaces(count as nat),
{
    let mut done: usize = 0;
    while done < count
        invariant
            done <= count,
            text@ == old(text)@ + spaces(done as nat),
        decreases count - done,
    {
        text.push(' ');
        done += 1;
        assert(text@ == old(text)@ + spaces(done as nat));
    }
}

/// Moves a text to the right end of a field that is `width` characters wide.
pub fn align_right(text: &String, width: usize) -> (res: String)
    ensures
        res@ == right_aligned(text@, width as nat),
{
    let len: usize = text.as_str().unicode_len();
    let mut res = String::new();
    if len < width {
        push_spaces(&mut res, width - len);
    }
    res.append(text.as_str());
    res
}

/// Puts a text at the left end of a field that is `width` characters wide.
pub fn align_left(text: &String, width: usize) -> (res: String)
    ensures
        res@ == left_aligned(text@, width as nat),
{
    let len: usize = text.as_str().unicode_len();
    let mut res = String::new();
    res.append(text.as_str());
    if len < width {
        push_spaces(&mut res, width - len);
    }
    res
}

/// Whether a character is white space.
pub fn white_space(c: char) -> (res: bool)
    ensures
        res == is_white_space(c),
{
    ('\t' <= c && c <= '\r') || c == ' ' || c == '\u{85}' || c == '\u{a0}' || c == '\u{1680}' || (
    '\u{2000}' <= c && c <= '\u{200a}') || ('\u{2028}' <= c && c <= '\u{2029}') || c
        == '\u{202f}' || c == '\u{205f}' || c == '\u{3000}'
}

/// Removes the white space at the start of a text.
pub fn trim_start(text: &String) -> (res: String)
    ensures
        res@ == trimmed_start(text@),
{
    let chars = to_chars(text);
    let len: usize = chars.len();
    let mut from: usize = 0;
    assert(text@.skip(0) == text@);
    while from < len && white_space(chars[from])
        invariant
            from <= len,
            len == chars.len(),
            chars@ == text@,
            trimmed_start(text@) == trimmed_start(text@.skip(from as int)),
        decreases len - from,
    {
        assert(text@.skip(from as int).drop_first() == text@.skip(from as int + 1));
        from += 1;
    }
    let res = from_chars(&chars, from, len);
    assert(res@ == text@.skip(from as int));
    res
}

/// Removes the white space at both ends of a text.
pub fn trim(text: &String) -> (res: String)
    ensures
        res@ == trimmed(text@),
{
    let inner = trim_start(text);
    let chars = to_chars(&inner);
    let mut to: usize = chars.len();
    assert(inner@.take(to as int) == inner@);
    while to > 0 && white_space(chars[to - 1])
        invariant
            to <= chars.len(),
            chars@ == inner@,
            trimmed_end(inner@) == trimmed_end(inner@.take(to as int)),
        decreases to,
    {
        assert(inner@.take(to as int).drop_last() == inner@.take(to as int - 1));
        to -= 1;
    }
    let res = from_chars(&chars, 0, to);
    assert(res@ == inner@.take(to as int));
    res
}

} // verus!
