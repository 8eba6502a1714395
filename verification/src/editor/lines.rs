//! Splitting a text into lines and joining lines back into a text.

use vstd::prelude::*;
use vstd::string::*;
use crate::utils::text::texts;

verus! {

/// The index of the first line feed in `s`, or the length of `s` where it
/// holds none.
pub open spec fn first_newline(s: Seq<char>) -> int
    decreases s.len(),
{
    if s.len() == 0 || s[0] == '\n' {
        0
    } else {
        1 + first_newline(s.drop_first())
    }
}

/// `line` without the carriage return that ends it, if one does.
pub open spec fn without_cr(line: Seq<char>) -> Seq<char> {
    if line.len() > 0 && line.last() == '\r' {
        line.drop_last()
    } else {
        line
    }
}

/// The lines of `text`. A line ends at a line feed, or at a carriage return
/// directly followed by one; neither belongs to the line. What follows the
/// last line feed is a line only if it is not empty, so a final line ending
/// adds no empty line.
pub open spec fn split_lines(text: Seq<char>) -> Seq<Seq<char>>
    decreases text.len(),
{
    if text.len() == 0 {
        Seq::empty()
    } else {
        let k = first_newline(text);
        if 0 <= k < text.len() {
            seq![without_cr(text.take(k))] + split_lines(text.skip(k + 1))
        } else {
            seq![text]
        }
    }
}

/// The lines joined by single line feeds, with none after the last line.
pub open spec fn join_lines(lines: Seq<Seq<char>>) -> Seq<char>
    decreases lines.len(),
{
    if lines.len() == 0 {
        Seq::empty()
    } else if lines.len() == 1 {
        lines[0]
    } else {
        lines[0] + seq!['\n'] + join_lines(lines.drop_first())
    }
}

/// `first_newline` finds the first line feed: nothing before the index is
/// one, and the index is the length or the place of a line feed.
pub proof fn lemma_first_newline(s: Seq<char>)
    ensures
        0 <= first_newline(s) <= s.len(),
        forall|j: int| 0 <= j < first_newline(s) ==> s[j] != '\n',
        first_newline(s) < s.len() ==> s[first_newline(s)] == '\n',
    decreases s.len(),
{
    if s.len() == 0 || s[0] == '\n' {
    } else {
        let rest = s.drop_first();
        lemma_first_newline(rest);
        assert forall|j: int| 0 <= j < first_newline(s) implies s[j] != '\n' by {
            if j > 0 {
                assert(s[j] == rest[j - 1]);
            }
        }
        if first_newline(s) < s.len() {
            assert(s[first_newline(s)] == rest[first_newline(rest)]);
        }
    }
}

/// An index with no line feed before it, which is the length or the place of
/// a line feed, is the one that `first_newline` gives.
pub proof fn lemma_first_newline_is(s: Seq<char>, k: int)
    requires
        0 <= k <= s.len(),
        forall|j: int| 0 <= j < k ==> s[j] != '\n',
        k < s.len() ==> s[k] == '\n',
    ensures
        first_newline(s) == k,
{
    lemma_first_newline(s);
    let f = first_newline(s);
    if f < k {
        assert(s[f] == '\n');
    } else if f > k {
        assert(s[k] != '\n');
    }
}

/// Where no line feed stands in `text` from `start` up to `at`, and one stands
/// at `at`, the lines from `start` on are the line that ends at `at` and then
/// the lines after it.
proof fn lemma_split_at_newline(text: Seq<char>, start: int, at: int)
    requires
        0 <= start <= at < text.len(),
        forall|j: int| start <= j < at ==> text[j] != '\n',
        text[at] == '\n',
    ensures
        split_lines(text.skip(start)) == seq![without_cr(text.subrange(start, at))] + split_lines(
            text.skip(at + 1),
        ),
{
    let rest = text.skip(start);
    lemma_first_newline_is(rest, at - start);
    assert(rest.take(at - start) == text.subrange(start, at));
    assert(rest.skip(at - start + 1) == text.skip(at + 1));
}

/// Where no line feed stands in `text` from `start` on, what is left is one
/// line, or none if nothing is left.
proof fn lemma_split_last_line(text: Seq<char>, start: int)
    requires
        0 <= start <= text.len(),
        forall|j: int| start <= j < text.len() ==> text[j] != '\n',
    ensures
        split_lines(text.skip(start)) == if start < text.len() {
            seq![text.skip(start)]
        } else {
            Seq::<Seq<char>>::empty()
        },
{
    let rest = text.skip(start);
    lemma_first_newline_is(rest, rest.len() as int);
}

/// Splits `text` into its lines.
pub fn lines_of(text: &str) -> (lines: Vec<String>)
    ensures
        texts(lines@) == split_lines(text@),
{
    let mut lines: Vec<String> = Vec::new();
    let mut current = String::new();
    // A carriage return was read last; it is dropped if a line feed follows.
    let mut held_cr = false;
    // Characters of a line that no line feed has ended yet were read.
    let mut any = false;
    let ghost mut start: int = 0;
    assert(text@.skip(0) == text@);
    assert(texts(lines@) + split_lines(text@) == split_lines(text@));
    for c in it: text.chars()
        invariant
            it.seq() == text@,
            0 <= start <= it.index(),
            any == (start < it.index()),
            current@ + (if held_cr {
                seq!['\r']
            } else {
                Seq::<char>::empty()
            }) == text@.subrange(start, it.index() as int),
            !held_cr ==> (current@.len() == 0 || current@.last() != '\r'),
            forall|j: int| start <= j < it.index() ==> text@[j] != '\n',
            split_lines(text@) == texts(lines@) + split_lines(text@.skip(start)),
    {
        let ghost at = it.index() as int;
        assert(c == text@[at]);
        if c == '\n' {
            proof {
                lemma_split_at_newline(text@, start, at);
                let logical = text@.subrange(start, at);
                if held_cr {
                    assert(logical.last() == '\r');
                    assert(logical.drop_last() == current@);
                }
                assert(without_cr(logical) == current@);
                assert(texts(lines@.push(current)) == texts(lines@) + seq![current@]);
                start = at + 1;
            }
            lines.push(current);
            current = String::new();
            held_cr = false;
            any = false;
        } else {
            if held_cr {
                current.push('\r');
            }
            if c == '\r' {
                held_cr = true;
            } else {
                current.push(c);
                held_cr = false;
            }
            any = true;
            assert(text@.subrange(start, at + 1) == text@.subrange(start, at).push(c));
        }
    }
    proof {
        lemma_split_last_line(text@, start);
    }
    if any {
        if held_cr {
            current.push('\r');
        }
        assert(current@ == text@.skip(start));
        assert(texts(lines@.push(current)) == texts(lines@) + seq![current@]);
        lines.push(current);
    }
    lines
}

/// Joining one more line onto the end puts a line feed before it, unless it
/// is the only line.
pub proof fn lemma_join_push(lines: Seq<Seq<char>>, line: Seq<char>)
    ensures
        join_lines(lines.push(line)) == if lines.len() == 0 {
            line
        } else {
            join_lines(lines) + seq!['\n'] + line
        },
    decreases lines.len(),
{
    let all = lines.push(line);
    if lines.len() == 0 {
        assert(all[0] == line);
    } else {
        let tail = lines.drop_first();
        assert(all.drop_first() == tail.push(line));
        assert(all[0] == lines[0]);
        lemma_join_push(tail, line);
        if lines.len() == 1 {
            assert(tail.len() == 0);
        } else {
            assert(lines[0] + seq!['\n'] + (join_lines(tail) + seq!['\n'] + line) == lines[0]
                + seq!['\n'] + join_lines(tail) + seq!['\n'] + line);
        }
    }
}

/// Joins `lines` with single line feeds; no line feed follows the last line.
pub fn joined(lines: &Vec<String>) -> (text: String)
    ensures
        text@ == join_lines(texts(lines@)),
{
    let mut text = String::new();
    let mut i: usize = 0;
    while i < lines.len()
        invariant
            0 <= i <= lines.len(),
            text@ == join_lines(texts(lines@).take(i as int)),
        decreases lines.len() - i,
    {
        proof {
            let all = texts(lines@);
            lemma_join_push(all.take(i as int), all[i as int]);
            assert(all.take(i as int).push(all[i as int]) == all.take(i + 1));
        }
        if i > 0 {
            text.push('\n');
        }
        text.append(lines[i].as_str());
        i += 1;
    }
    assert(texts(lines@).take(i as int) == texts(lines@));
    text
}

/// Lines that a text can hold as they are: none of them holds a line feed,
/// none but the last ends with a carriage return, and the last is not
/// empty.
pub open spec fn survive_joining(lines: Seq<Seq<char>>) -> bool {
    &&& forall|i: int, j: int|
        0 <= i < lines.len() && 0 <= j < lines[i].len() ==> #[trigger] lines[i][j] != '\n'
    &&& forall|i: int|
        0 <= i < lines.len() - 1 ==> (#[trigger] lines[i]).len() == 0 || lines[i].last() != '\r'
    &&& lines.len() > 0 ==> lines.last().len() > 0
}

/// Lines that were joined into a text are the lines of that text, as far as
/// a text can hold them.
pub proof fn lemma_split_of_joined(lines: Seq<Seq<char>>)
    requires
        survive_joining(lines),
    ensures
        split_lines(join_lines(lines)) == lines,
    decreases lines.len(),
{
    if lines.len() == 0 {
    } else if lines.len() == 1 {
        let only = lines[0];
        assert(only == lines.last());
        lemma_first_newline_is(only, only.len() as int);
        assert(seq![only] == lines);
    } else {
        let first = lines[0];
        let rest = lines.drop_first();
        let text = join_lines(lines);
        assert(text == first + seq!['\n'] + join_lines(rest));
        assert(rest.last() == lines.last());
        assert forall|i: int, j: int|
            0 <= i < rest.len() && 0 <= j < rest[i].len() implies #[trigger] rest[i][j] != '\n' by {
            assert(rest[i] == lines[i + 1]);
        }
        assert forall|i: int| 0 <= i < rest.len() - 1 implies (#[trigger] rest[i]).len() == 0
            || rest[i].last() != '\r' by {
            assert(rest[i] == lines[i + 1]);
        }
        lemma_split_of_joined(rest);
        let k = first.len() as int;
        assert forall|j: int| 0 <= j < k implies text[j] != '\n' by {
            assert(text[j] == first[j]);
        }
        assert(text[k] == '\n');
        lemma_first_newline_is(text, k);
        assert(text.take(k) == first);
        assert(text.skip(k + 1) == join_lines(rest));
        assert(without_cr(first) == first);
        assert(seq![first] + rest == lines);
    }
}

} // verus!
