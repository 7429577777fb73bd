//! The candidate commands, read once from two line-oriented sources.

use vstd::prelude::*;
use crate::text::{chars_of, is_white_space, string_of_range, white_space};

verus! {

/// How many characters stand before the first line feed of `t`.
pub open spec fn first_newline(t: Seq<char>) -> nat
    decreases t.len(),
{
    if t.len() == 0 || t[0] == '\n' {
        0
    } else {
        1 + first_newline(t.drop_first())
    }
}

/// A line without the carriage return that stood before its line feed.
pub open spec fn strip_cr(line: Seq<char>) -> Seq<char> {
    if line.len() > 0 && line.last() == '\r' {
        line.drop_last()
    } else {
        line
    }
}

/// The lines of a text. A line ends with a line feed, or with a carriage return and a
/// line feed; the last line needs no line end.
pub open spec fn lines(t: Seq<char>) -> Seq<Seq<char>>
    decreases t.len(),
{
    if t.len() == 0 {
        Seq::empty()
    } else {
        let n = first_newline(t) as int;
        if n >= t.len() {
            seq![t]
        } else {
            seq![strip_cr(t.take(n))] + lines(t.skip(n + 1))
        }
    }
}

/// A line without its leading white space.
pub open spec fn trimmed(line: Seq<char>) -> Seq<char>
    decreases line.len(),
{
    if line.len() > 0 && white_space(line[0]) {
        trimmed(line.drop_first())
    } else {
        line
    }
}

/// A line names a candidate unless, behind its leading white space, it is empty or a
/// comment, which begins with `#`.
pub open spec fn is_candidate(line: Seq<char>) -> bool {
    trimmed(line).len() > 0 && trimmed(line)[0] != '#'
}

/// The candidates among some lines, in the lines' order, each without its leading
/// white space where `trim` is set.
pub open spec fn kept(ls: Seq<Seq<char>>, trim: bool) -> Seq<Seq<char>>
    decreases ls.len(),
{
    if ls.len() == 0 {
        Seq::empty()
    } else {
        let before = kept(ls.drop_last(), trim);
        if is_candidate(ls.last()) {
            before.push(
                if trim {
                    trimmed(ls.last())
                } else {
                    ls.last()
                },
            )
        } else {
            before
        }
    }
}

/// The candidates of one source; a source that is absent has none.
pub open spec fn source_candidates(text: Option<Seq<char>>, trim: bool) -> Seq<Seq<char>> {
    match text {
        Some(t) => kept(lines(t), trim),
        None => Seq::empty(),
    }
}

/// The candidate list: those of the inline source, trimmed, and then those of the
/// file, as they stand in it. Nothing is taken out for occurring twice.
pub open spec fn candidates_of(inline: Option<Seq<char>>, file: Option<Seq<char>>) -> Seq<
    Seq<char>,
> {
    source_candidates(inline, true) + source_candidates(file, false)
}

/// Where no line feed stands between `start` and `i`, and `i` is the text's end or a
/// line feed, the first line of the text from `start` on ends at `i`.
proof fn lemma_first_newline(t: Seq<char>, start: int, i: int)
    requires
        0 <= start <= i <= t.len(),
        forall|j: int| start <= j < i ==> t[j] != '\n',
        i == t.len() || t[i] == '\n',
    ensures
        first_newline(t.skip(start)) == i - start,
    decreases i - start,
{
    let s = t.skip(start);
    if start < i {
        assert(s[0] == t[start]);
        assert(s.drop_first() =~= t.skip(start + 1));
        lemma_first_newline(t, start + 1, i);
    } else if i < t.len() {
        assert(s[0] == t[i]);
    }
}

/// The leading white space of a line may be passed over before it is trimmed.
proof fn lemma_trimmed_skip(line: Seq<char>, k: int)
    requires
        0 <= k <= line.len(),
        forall|j: int| 0 <= j < k ==> white_space(#[trigger] line[j]),
    ensures
        trimmed(line) == trimmed(line.skip(k)),
    decreases k,
{
    if k == 0 {
        assert(line.skip(0) =~= line);
    } else {
        assert(white_space(line[0]));
        let rest = line.drop_first();
        assert forall|j: int| 0 <= j < k - 1 implies white_space(#[trigger] rest[j]) by {
            assert(rest[j] == line[j + 1]);
        }
        lemma_trimmed_skip(rest, k - 1);
        assert(rest.skip(k - 1) =~= line.skip(k));
    }
}

/// The lines of a text.
pub fn split_lines(text: &str) -> (out: Vec<String>)
    ensures
        out.deep_view() == lines(text@),
{
    let chars = chars_of(text);
    let mut out: Vec<String> = Vec::new();
    let mut start: usize = 0;
    let mut i: usize = 0;
    proof {
        assert(text@.skip(0) =~= text@);
        assert(out.deep_view() + lines(text@) =~= lines(text@));
    }
    while i < chars.len()
        invariant
            chars@ == text@,
            start <= i <= chars.len(),
            forall|j: int| start <= j < i ==> chars[j] != '\n',
            lines(text@) == out.deep_view() + lines(text@.skip(start as int)),
        decreases chars.len() - i,
    {
        if chars[i] == '\n' {
            let end: usize = if i > start && chars[i - 1] == '\r' {
                i - 1
            } else {
                i
            };
            let line = string_of_range(&chars, start, end);
            proof {
                let t = text@;
                let s = t.skip(start as int);
                lemma_first_newline(t, start as int, i as int);
                assert(s.take(i - start) =~= t.subrange(start as int, i as int));
                assert(s.skip(i - start + 1) =~= t.skip(i + 1));
                assert(line@ =~= strip_cr(s.take(i - start)));
                assert(out.deep_view().push(line@) + lines(t.skip(i + 1)) =~= out.deep_view() + (
                seq![line@] + lines(t.skip(i + 1))));
            }
            let ghost before = out.deep_view();
            out.push(line);
            assert(out.deep_view() =~= before.push(line@));
            start = i + 1;
        }
        i = i + 1;
    }
    if start < chars.len() {
        let line = string_of_range(&chars, start, chars.len());
        proof {
            let t = text@;
            lemma_first_newline(t, start as int, t.len() as int);
            assert(line@ =~= t.skip(start as int));
            assert(out.deep_view().push(line@) =~= out.deep_view() + seq![line@]);
        }
        let ghost before = out.deep_view();
        out.push(line);
        assert(out.deep_view() =~= before.push(line@));
    } else {
        assert(out.deep_view() + Seq::<Seq<char>>::empty() =~= out.deep_view());
    }
    out
}

/// The line without its leading white space.
pub fn trim_start(line: &str) -> (r: String)
    ensures
        r@ == trimmed(line@),
{
    let chars = chars_of(line);
    let mut k: usize = 0;
    while k < chars.len() && is_white_space(chars[k])
        invariant
            k <= chars.len(),
            forall|j: int| 0 <= j < k ==> white_space(#[trigger] chars[j]),
        decreases chars.len() - k,
    {
        k = k + 1;
    }
    proof {
        lemma_trimmed_skip(chars@, k as int);
        assert(chars@.skip(k as int) =~= chars@.subrange(k as int, chars.len() as int));
    }
    string_of_range(&chars, k, chars.len())
}

/// Whether a line names a candidate: it is neither blank nor a comment.
pub fn is_candidate_line(line: &str) -> (r: bool)
    ensures
        r == is_candidate(line@),
{
    let t = trim_start(line);
    let chars = chars_of(t.as_str());
    chars.len() > 0 && chars[0] != '#'
}

/// The candidates among the lines of a text.
pub fn candidate_lines(text: &str, trim: bool) -> (out: Vec<String>)
    ensures
        out.deep_view() == kept(lines(text@), trim),
{
    let ls = split_lines(text);
    let mut out: Vec<String> = Vec::new();
    let mut k: usize = 0;
    while k < ls.len()
        invariant
            k <= ls.len(),
            out.deep_view() == kept(ls.deep_view().take(k as int), trim),
        decreases ls.len() - k,
    {
        let ghost before = out.deep_view();
        proof {
            let next = ls.deep_view().take(k + 1);
            assert(next.drop_last() =~= ls.deep_view().take(k as int));
            assert(next.last() == ls[k as int]@);
        }
        if is_candidate_line(ls[k].as_str()) {
            let entry: String = if trim {
                trim_start(ls[k].as_str())
            } else {
                ls[k].clone()
            };
            out.push(entry);
            assert(out.deep_view() =~= before.push(entry@));
        }
        k = k + 1;
    }
    assert(ls.deep_view().take(k as int) =~= ls.deep_view());
    out
}

/// The candidate list of a session, from the inline source and the file.
pub fn build_candidates(inline: Option<&str>, file: Option<&str>) -> (out: Vec<String>)
    ensures
        out.deep_view() == candidates_of(inline.deep_view(), file.deep_view()),
{
    let mut out: Vec<String> = match inline {
        Some(text) => candidate_lines(text, true),
        None => Vec::new(),
    };
    let mut rest: Vec<String> = match file {
        Some(text) => candidate_lines(text, false),
        None => Vec::new(),
    };
    let ghost first = out.deep_view();
    let ghost second = rest.deep_view();
    assert(first =~= source_candidates(inline.deep_view(), true));
    assert(second =~= source_candidates(file.deep_view(), false));
    out.append(&mut rest);
    assert(out.deep_view() =~= first + second);
    out
}

} // verus!
