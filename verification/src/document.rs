//! Lines of text and the contents of a file.
use vstd::prelude::*;

use crate::text::{from_chars, texts, to_chars};

verus! {

/// A line without the carriage return that may end it.
pub open spec fn without_return(line: Seq<char>) -> Seq<char> {
    if line.len() > 0 && line.last() == '\r' {
        line.drop_last()
    } else {
        line
    }
}

/// The number of characters before the first line feed, or of all characters if there is none.
pub open spec fn line_end(contents: Seq<char>) -> nat
    decreases contents.len(),
{
    if contents.len() == 0 || contents[0] == '\n' {
        0
    } else {
        1 + line_end(contents.drop_first())
    }
}

/// The lines of a file: what stands before, between and after its line feeds. A carriage
/// return right before a line feed belongs to the line feed.
pub open spec fn lines_of(contents: Seq<char>) -> Seq<Seq<char>>
    decreases contents.len(),
{
    let end = line_end(contents);
    if end >= contents.len() {
        seq![contents]
    } else {
        seq![without_return(contents.take(end as int))] + lines_of(contents.skip(end as int + 1))
    }
}

/// Lines put together with a line feed between each two of them.
pub open spec fn joined(lines: Seq<Seq<char>>) -> Seq<char>
    decreases lines.len(),
{
    if lines.len() == 0 {
        Seq::empty()
    } else if lines.len() == 1 {
        lines[0]
    } else {
        lines[0] + seq!['\n'] + joined(lines.drop_first())
    }
}

/// The contents of a file that holds the given lines. A line feed ends the last line too,
/// unless the file is empty.
pub open spec fn contents_of(lines: Seq<Seq<char>>) -> Seq<char> {
    let text = joined(lines);
    if text.len() == 0 {
        text
    } else {
        text.push('\n')
    }
}

proof fn lemma_line_end(contents: Seq<char>)
    ensures
        line_end(contents) <= contents.len(),
        forall|i: int| 0 <= i < line_end(contents) ==> #[trigger] contents[i] != '\n',
        line_end(contents) < contents.len() ==> contents[line_end(contents) as int] == '\n',
    decreases contents.len(),
{
    if contents.len() > 0 && contents[0] != '\n' {
        let rest = contents.drop_first();
        lemma_line_end(rest);
        assert forall|i: int| 0 <= i < line_end(contents) implies #[trigger] contents[i]
            != '\n' by {
            assert(i > 0 ==> contents[i] == rest[i - 1]);
        }
    }
}

proof fn lemma_line_end_is(contents: Seq<char>, end: int)
    requires
        0 <= end <= contents.len(),
        forall|i: int| 0 <= i < end ==> #[trigger] contents[i] != '\n',
        end < contents.len() ==> contents[end] == '\n',
    ensures
        line_end(contents) == end,
{
    lemma_line_end(contents);
    let found = line_end(contents) as int;
    assert(found < end ==> contents[found] != '\n');
}

proof fn lemma_lines_push(contents: Seq<char>, c: char)
    ensures
        lines_of(contents).len() > 0,
        c == '\n' ==> lines_of(contents.push(c)) == lines_of(contents).drop_last().push(
            without_return(lines_of(contents).last()),
        ).push(Seq::empty()),
        c != '\n' ==> lines_of(contents.push(c)) == lines_of(contents).drop_last().push(
            lines_of(contents).last().push(c),
        ),
    decreases contents.len(),
{
    let longer = contents.push(c);
    let end = line_end(contents) as int;
    lemma_line_end(contents);
    if end == contents.len() {
        if c == '\n' {
            lemma_line_end_is(longer, end);
            assert(longer.take(end) == contents);
            assert(longer.skip(end + 1) == Seq::<char>::empty());
            assert(lines_of(Seq::<char>::empty()) == seq![Seq::<char>::empty()]);
        } else {
            lemma_line_end_is(longer, end + 1);
        }
    } else {
        let rest = contents.skip(end + 1);
        lemma_line_end_is(longer, end);
        assert(longer.take(end) == contents.take(end));
        assert(longer.skip(end + 1) == rest.push(c));
        lemma_lines_push(rest, c);
        let first = seq![without_return(contents.take(end))];
        assert((first + lines_of(rest)).drop_last() == first + lines_of(rest).drop_last());
    }
}

proof fn lemma_joined_push(lines: Seq<Seq<char>>, line: Seq<char>)
    requires
        lines.len() > 0,
    ensures
        joined(lines.push(line)) == joined(lines) + seq!['\n'] + line,
    decreases lines.len(),
{
    let longer = lines.push(line);
    assert(longer.drop_first() == lines.drop_first().push(line));
    if lines.len() == 1 {
        assert(longer.drop_first() == seq![line]);
        reveal_with_fuel(joined, 2);
    } else {
        lemma_joined_push(lines.drop_first(), line);
        assert(joined(longer) == joined(lines) + seq!['\n'] + line);
    }
}

/// Reading gives at least one line, and no line holds a line feed.
pub proof fn law_lines_hold_no_line_feed(contents: Seq<char>)
    ensures
        lines_of(contents).len() > 0,
        forall|i: int|
            0 <= i < lines_of(contents).len() ==> !(#[trigger] lines_of(contents)[i]).contains(
                '\n',
            ),
    decreases contents.len(),
{
    let end = line_end(contents) as int;
    lemma_line_end(contents);
    if end < contents.len() {
        let first = without_return(contents.take(end));
        let rest = contents.skip(end + 1);
        law_lines_hold_no_line_feed(rest);
        assert forall|i: int| 0 <= i < lines_of(contents).len() implies !(
        #[trigger] lines_of(contents)[i]).contains('\n') by {
            if i == 0 {
                assert forall|j: int| 0 <= j < first.len() implies first[j] != '\n' by {
                    assert(first[j] == contents[j]);
                }
            } else {
                assert(lines_of(contents)[i] == lines_of(rest)[i - 1]);
            }
        }
    }
}

/// What reading gives back of what saving wrote, for lines without line feeds: the same
/// lines, each without a carriage return at its end, and an empty line after them. Only the
/// single empty line comes back alone.
pub proof fn law_saved_lines_read_back(lines: Seq<Seq<char>>)
    requires
        lines.len() > 0,
        forall|i: int| 0 <= i < lines.len() ==> !(#[trigger] lines[i]).contains('\n'),
    ensures
        lines_of(contents_of(lines)) == if lines == seq![Seq::<char>::empty()] {
            lines
        } else {
            lines.map_values(|line: Seq<char>| without_return(line)).push(Seq::empty())
        },
{
    let text = joined(lines);
    if text.len() == 0 {
        assert(lines.len() == 1);
        assert(lines[0] == Seq::<char>::empty());
        assert(lines == seq![Seq::<char>::empty()]);
    } else {
        assert(lines != seq![Seq::<char>::empty()]);
        lemma_joined_lines(lines);
    }
}

proof fn lemma_joined_lines(lines: Seq<Seq<char>>)
    requires
        lines.len() > 0,
        forall|i: int| 0 <= i < lines.len() ==> !(#[trigger] lines[i]).contains('\n'),
    ensures
        lines_of(joined(lines).push('\n')) == lines.map_values(
            |line: Seq<char>| without_return(line),
        ).push(Seq::empty()),
    decreases lines.len(),
{
    let text = joined(lines).push('\n');
    let first = lines[0];
    let end = first.len() as int;
    let strip = |line: Seq<char>| without_return(line);
    assert forall|i: int| 0 <= i < end implies #[trigger] text[i] != '\n' by {
        assert(text[i] == first[i]);
        assert(first.contains(first[i]));
    }
    lemma_line_end_is(text, end);
    assert(text.take(end) == first);
    if lines.len() == 1 {
        assert(text.skip(end + 1) == Seq::<char>::empty());
        assert(lines_of(Seq::<char>::empty()) == seq![Seq::<char>::empty()]);
        assert(lines.map_values(strip).push(Seq::empty()) == seq![without_return(first)] + seq![
            Seq::<char>::empty(),
        ]);
    } else {
        let rest = lines.drop_first();
        assert forall|i: int| 0 <= i < rest.len() implies !(#[trigger] rest[i]).contains('\n') by {
            assert(rest[i] == lines[i + 1]);
        }
        lemma_joined_lines(rest);
        assert(text.skip(end + 1) == joined(rest).push('\n'));
        assert(lines.map_values(strip) == seq![without_return(first)] + rest.map_values(strip));
        assert(lines.map_values(strip).push(Seq::empty()) == seq![without_return(first)]
            + rest.map_values(strip).push(Seq::empty()));
    }
}

/// What saving writes of what reading gave, for contents in which no carriage return stands
/// right before a line feed: the same contents with one more line feed, or nothing for an
/// empty file.
pub proof fn law_read_contents_are_saved(contents: Seq<char>)
    requires
        forall|i: int|
            0 <= i < contents.len() - 1 ==> !(#[trigger] contents[i] == '\r' && contents[i + 1]
                == '\n'),
    ensures
        contents_of(lines_of(contents)) == if contents.len() == 0 {
            contents
        } else {
            contents.push('\n')
        },
{
    lemma_lines_joined(contents);
}

proof fn lemma_lines_joined(contents: Seq<char>)
    requires
        forall|i: int|
            0 <= i < contents.len() - 1 ==> !(#[trigger] contents[i] == '\r' && contents[i + 1]
                == '\n'),
    ensures
        joined(lines_of(contents)) == contents,
    decreases contents.len(),
{
    let end = line_end(contents) as int;
    lemma_line_end(contents);
    if end < contents.len() {
        let first = contents.take(end);
        let rest = contents.skip(end + 1);
        assert(end > 0 ==> first.last() == contents[end - 1]);
        assert(without_return(first) == first);
        assert forall|i: int| 0 <= i < rest.len() - 1 implies !(#[trigger] rest[i] == '\r'
            && rest[i + 1] == '\n') by {
            assert(rest[i] == contents[i + end + 1]);
            assert(rest[i + 1] == contents[i + end + 2]);
        }
        lemma_lines_joined(rest);
        law_lines_hold_no_line_feed(rest);
        let lines = lines_of(contents);
        assert(lines.drop_first() == lines_of(rest));
        assert(joined(lines) == first + seq!['\n'] + rest);
        assert(first + seq!['\n'] + rest == contents);
    }
}

/// A text without a line feed is one line.
pub proof fn law_text_without_line_feed_is_one_line(text: Seq<char>)
    requires
        !text.contains('\n'),
    ensures
        lines_of(text) == seq![text],
{
    assert forall|i: int| 0 <= i < text.len() implies #[trigger] text[i] != '\n' by {
        assert(text.contains(text[i]));
    }
    lemma_line_end_is(text, text.len() as int);
}

/// A line feed, or a carriage return and a line feed, ends a line, and the lines of what
/// follows come after it.
pub proof fn law_line_feed_ends_a_line(line: Seq<char>, rest: Seq<char>)
    requires
        !line.contains('\n'),
    ensures
        line.len() == 0 || line.last() != '\r' ==> lines_of(line + seq!['\n'] + rest) == seq![
            line,
        ] + lines_of(rest),
        lines_of(line + seq!['\r', '\n'] + rest) == seq![line] + lines_of(rest),
{
    let plain = line + seq!['\n'] + rest;
    let full = line + seq!['\r', '\n'] + rest;
    let end = line.len() as int;
    assert forall|i: int| 0 <= i < end implies #[trigger] line[i] != '\n' by {
        assert(line.contains(line[i]));
    }
    lemma_line_end_is(plain, end);
    assert(plain.take(end) == line);
    assert(plain.skip(end + 1) == rest);
    lemma_line_end_is(full, end + 1);
    assert(full.take(end + 1) == line.push('\r'));
    assert(line.push('\r').drop_last() == line);
    assert(full.skip(end + 2) == rest);
}

/// One line is written with a line feed behind it, and an empty text as an empty file.
pub proof fn law_one_line_is_written(line: Seq<char>)
    ensures
        contents_of(seq![line]) == if line.len() == 0 {
            line
        } else {
            line.push('\n')
        },
{
}

/// A line before other lines is written before them, with a line feed behind it. The single
/// empty line among the others is a line too.
pub proof fn law_lines_are_written_in_order(line: Seq<char>, rest: Seq<Seq<char>>)
    requires
        rest.len() > 0,
    ensures
        contents_of(seq![line] + rest) == line.push('\n') + (if rest == seq![Seq::<char>::empty()] {
            seq!['\n']
        } else {
            contents_of(rest)
        }),
{
    let all = seq![line] + rest;
    assert(all.drop_first() == rest);
    if joined(rest).len() == 0 {
        assert(rest.len() == 1);
        assert(rest[0] == Seq::<char>::empty());
        assert(rest == seq![Seq::<char>::empty()]);
    }
    assert(contents_of(all) == line + seq!['\n'] + joined(rest) + seq!['\n']);
}

/// Splits the contents of a file into lines.
pub fn split_lines(contents: &String) -> (lines: Vec<String>)
    ensures
        texts(lines@) == lines_of(contents@),
        lines.len() > 0,
{
    let chars = to_chars(contents);
    let mut lines: Vec<String> = Vec::new();
    let mut current: Vec<char> = Vec::new();
    let mut i: usize = 0;
    assert(contents@.take(0) == Seq::<char>::empty());
    assert(lines_of(Seq::<char>::empty()) == seq![Seq::<char>::empty()]);
    assert(texts(lines@).push(current@) == seq![Seq::<char>::empty()]);
    while i < chars.len()
        invariant
            i <= chars.len(),
            chars@ == contents@,
            lines_of(contents@.take(i as int)) == texts(lines@).push(current@),
        decreases chars.len() - i,
    {
        let c = chars[i];
        let ghost done = texts(lines@);
        let ghost before = current@;
        proof {
            lemma_lines_push(contents@.take(i as int), c);
            assert(contents@.take(i as int + 1) == contents@.take(i as int).push(c));
            assert(done.push(before).drop_last() == done);
        }
        if c == '\n' {
            let len: usize = current.len();
            let end: usize = if len > 0 && current[len - 1] == '\r' {
                len - 1
            } else {
                len
            };
            let line = from_chars(&current, 0, end);
            assert(line@ == without_return(before));
            lines.push(line);
            current = Vec::new();
            assert(texts(lines@) == done.push(without_return(before)));
        } else {
            current.push(c);
        }
        i += 1;
    }
    assert(contents@.take(i as int) == contents@);
    let ghost done = texts(lines@);
    let rest = from_chars(&current, 0, current.len());
    assert(rest@ == current@);
    lines.push(rest);
    assert(texts(lines@) == done.push(current@));
    lines
}

/// Puts lines together into the contents of a file.
pub fn file_contents(lines: &Vec<String>) -> (contents: String)
    ensures
        contents@ == contents_of(texts(lines@)),
{
    let mut contents = String::new();
    let ghost all = texts(lines@);
    let mut i: usize = 0;
    assert(all.take(0) == Seq::<Seq<char>>::empty());
    while i < lines.len()
        invariant
            i <= lines.len(),
            all == texts(lines@),
            contents@ == joined(all.take(i as int)),
        decreases lines.len() - i,
    {
        let ghost done = all.take(i as int);
        assert(all.take(i as int + 1) == done.push(all[i as int]));
        if i > 0 {
            proof {
                lemma_joined_push(done, all[i as int]);
            }
            contents.push('\n');
        }
        contents.append(lines[i].as_str());
        assert(contents@ == joined(all.take(i as int + 1)));
        i += 1;
    }
    assert(all.take(i as int) == all);
    if !contents.as_str().is_empty() {
        contents.push('\n');
    }
    contents
}

} // verus!
