//! Framing of a reply body into lines.

use crate::chars::string_of;
use vstd::prelude::*;

verus! {

/// The index of the first line feed in `s`, or `s.len()` where it has none.
pub open spec fn line_end(s: Seq<char>) -> nat
    decreases s.len(),
{
    if s.len() == 0 || s.first() == '\n' {
        0
    } else {
        1 + line_end(s.drop_first())
    }
}

/// `line` without the carriage return at its end, if it has one.
pub open spec fn without_cr(line: Seq<char>) -> Seq<char> {
    if line.len() > 0 && line.last() == '\r' {
        line.drop_last()
    } else {
        line
    }
}

/// The lines of `s`. A line ends at a line feed, or at a carriage return
/// directly followed by one; neither belongs to the line. After the last line
/// feed, what is left is a line of its own unless it is empty, and it keeps a
/// carriage return at its end.
pub open spec fn lines(s: Seq<char>) -> Seq<Seq<char>>
    decreases s.len(),
{
    if s.len() == 0 {
        Seq::empty()
    } else {
        let end = line_end(s) as int;
        if end >= s.len() {
            seq![s]
        } else {
            seq![without_cr(s.take(end))] + lines(s.skip(end + 1))
        }
    }
}

/// `line_end` is the position of the first line feed.
pub proof fn lemma_line_end(s: Seq<char>, k: int)
    requires
        0 <= k <= s.len(),
        forall|j: int| 0 <= j < k ==> s[j] != '\n',
        k < s.len() ==> s[k] == '\n',
    ensures
        line_end(s) == k,
    decreases k,
{
    if k > 0 {
        lemma_line_end(s.drop_first(), k - 1);
    }
}

/// The body in which each of `parts` is followed by a line feed.
pub open spec fn framed(parts: Seq<Seq<char>>) -> Seq<char>
    decreases parts.len(),
{
    if parts.len() == 0 {
        Seq::empty()
    } else {
        parts.first() + seq!['\n'] + framed(parts.drop_first())
    }
}

/// Whether `line` comes out of a body as it went in: it holds no line feed and
/// does not end with a carriage return.
pub open spec fn is_line(line: Seq<char>) -> bool {
    &&& forall|i: int| 0 <= i < line.len() ==> line[i] != '\n'
    &&& line.len() > 0 ==> line.last() != '\r'
}

/// A text without a line feed, followed by a line feed, is the first line of a
/// body, but for a carriage return at its end; the other lines are those of
/// what follows.
pub proof fn lemma_lines_after_line(line: Seq<char>, rest: Seq<char>)
    requires
        forall|i: int| 0 <= i < line.len() ==> line[i] != '\n',
    ensures
        lines(line + seq!['\n'] + rest) == seq![without_cr(line)] + lines(rest),
{
    let body = line + seq!['\n'] + rest;
    lemma_line_end(body, line.len() as int);
    assert(body.take(line.len() as int) =~= line);
    assert(body.skip(line.len() as int + 1) =~= rest);
}

/// Lines that are framed into a body are found again as its lines, before the
/// lines of whatever follows them.
pub proof fn lemma_lines_of_framed(parts: Seq<Seq<char>>, rest: Seq<char>)
    requires
        forall|i: int| 0 <= i < parts.len() ==> is_line(#[trigger] parts[i]),
    ensures
        lines(framed(parts) + rest) == parts + lines(rest),
    decreases parts.len(),
{
    if parts.len() > 0 {
        let head = parts.first();
        let tail = parts.drop_first();
        lemma_lines_of_framed(tail, rest);
        lemma_lines_after_line(head, framed(tail) + rest);
        assert(framed(parts) + rest =~= head + seq!['\n'] + (framed(tail) + rest));
    }
}

/// The lines of `body`, in order.
pub fn split_lines(body: &str) -> (r: Vec<String>)
    ensures
        r.deep_view() == lines(body@),
{
    let mut out: Vec<String> = Vec::new();
    let mut current: Vec<char> = Vec::new();
    let ghost mut start: int = 0;
    assert(body@.skip(0) =~= body@);
    for c in it: body.chars()
        invariant
            it.seq() == body@,
            0 <= start <= it.index() <= body@.len(),
            current@ == body@.subrange(start, it.index()),
            forall|j: int| start <= j < it.index() ==> body@[j] != '\n',
            lines(body@) == out.deep_view() + lines(body@.skip(start)),
    {
        let ghost i = it.index();
        if c == '\n' {
            let mut len = current.len();
            if len > 0 && current[len - 1] == '\r' {
                len -= 1;
            }
            let line = string_of(&current, 0, len);
            proof {
                let rest = body@.skip(start);
                lemma_line_end(rest, i - start);
                assert(rest.take(i - start) =~= current@);
                assert(rest.skip(i - start + 1) =~= body@.skip(i + 1));
                assert(line@ =~= without_cr(current@));
                assert(out.deep_view().push(line@) + lines(body@.skip(i + 1)) =~= out.deep_view()
                    + lines(rest));
                start = i + 1;
            }
            out.push(line);
            current = Vec::new();
        } else {
            current.push(c);
        }
    }
    let ghost rest = body@.skip(start);
    if current.len() > 0 {
        let line = string_of(&current, 0, current.len());
        proof {
            lemma_line_end(rest, rest.len() as int);
            assert(line@ =~= rest);
        }
        out.push(line);
    }
    out
}

} // verus!
