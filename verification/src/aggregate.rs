//! From the body of the provider's reply to the one text that answers the
//! chat request.

use crate::chars::{is_trimmed, lemma_trimmed_is_trimmed, lemma_trimmed_unchanged, trim, trimmed};
use crate::fragment::{decode_fragment, decoded};
use crate::lines::{lines, split_lines};
use vstd::prelude::*;
use vstd::string::StringExecFns;

verus! {

/// What a line adds to the answer: the text of its fragment, trimmed, where the
/// line is a fragment.
pub open spec fn line_text(line: Seq<char>) -> Option<Seq<char>> {
    match decoded(line) {
        Some(fragment) => Some(trimmed(fragment.response)),
        None => None,
    }
}

/// Whether a line of the reply is a fragment.
pub open spec fn is_fragment(line: Seq<char>) -> bool {
    decoded(line) is Some
}

/// The trimmed texts of the fragments among `lines`, in the order of the lines.
pub open spec fn texts_of_lines(lines: Seq<Seq<char>>) -> Seq<Seq<char>> {
    lines.filter_map(|line: Seq<char>| line_text(line))
}

/// `parts` in order, with one space between each two of them.
pub open spec fn joined(parts: Seq<Seq<char>>) -> Seq<char>
    decreases parts.len(),
{
    if parts.len() <= 1 {
        if parts.len() == 1 {
            parts[0]
        } else {
            Seq::empty()
        }
    } else {
        joined(parts.drop_last()) + seq![' '] + parts.last()
    }
}

/// The answer that `texts` make: joined by single spaces, then trimmed.
pub open spec fn flattened(texts: Seq<Seq<char>>) -> Seq<char> {
    trimmed(joined(texts))
}

/// The trimmed texts of the fragments in the body of a reply, in their order.
pub open spec fn texts_of(body: Seq<char>) -> Seq<Seq<char>> {
    texts_of_lines(lines(body))
}

/// The answer that the lines of a reply make.
pub open spec fn aggregate_of_lines(lines: Seq<Seq<char>>) -> Seq<char> {
    flattened(texts_of_lines(lines))
}

/// The answer that the body of a reply makes.
pub open spec fn aggregate_of(body: Seq<char>) -> Seq<char> {
    aggregate_of_lines(lines(body))
}

/// Texts that are not empty join to a text that starts as the first of them
/// starts and ends as the last of them ends.
pub proof fn lemma_joined_ends(parts: Seq<Seq<char>>)
    requires
        parts.len() > 0,
        forall|i: int| 0 <= i < parts.len() ==> (#[trigger] parts[i]).len() > 0,
    ensures
        joined(parts).len() > 0,
        joined(parts).first() == parts.first().first(),
        joined(parts).last() == parts.last().last(),
    decreases parts.len(),
{
    if parts.len() > 1 {
        let front = parts.drop_last();
        lemma_joined_ends(front);
    }
}

/// Where every line is a fragment, the texts are those of all the lines.
pub proof fn lemma_texts_of_fragments(lines: Seq<Seq<char>>)
    requires
        forall|i: int| 0 <= i < lines.len() ==> is_fragment(#[trigger] lines[i]),
    ensures
        texts_of_lines(lines) == lines.map_values(|line: Seq<char>| line_text(line).unwrap()),
    decreases lines.len(),
{
    if lines.len() > 0 {
        let front = lines.drop_last();
        lemma_texts_of_fragments(front);
    }
}

/// The answer never starts or ends with whitespace.
pub proof fn lemma_answer_is_trimmed(body: Seq<char>)
    ensures
        is_trimmed(aggregate_of(body)),
{
    lemma_trimmed_is_trimmed(joined(texts_of_lines(lines(body))));
}

/// Where every line of a reply is a fragment whose text is not blank, the
/// answer is those texts, each trimmed, in the order of the lines and with a
/// single space between each two of them.
pub proof fn lemma_answer_of_fragments(body: Seq<char>)
    requires
        forall|i: int|
            0 <= i < lines(body).len() ==> is_fragment(#[trigger] lines(body)[i]) && line_text(
                lines(body)[i],
            ).unwrap().len() > 0,
    ensures
        aggregate_of(body) == joined(
            lines(body).map_values(|line: Seq<char>| line_text(line).unwrap()),
        ),
{
    let all = lines(body);
    let texts = all.map_values(|line: Seq<char>| line_text(line).unwrap());
    lemma_texts_of_fragments(all);
    if texts.len() > 0 {
        lemma_joined_ends(texts);
        lemma_trimmed_is_trimmed(decoded(all.first()).unwrap().response);
        lemma_trimmed_is_trimmed(decoded(all.last()).unwrap().response);
    }
    lemma_trimmed_unchanged(joined(texts));
}

/// Lines that are no fragments add nothing to the texts.
pub proof fn lemma_texts_of_fragment_lines(lines: Seq<Seq<char>>)
    ensures
        texts_of_lines(lines) == texts_of_lines(lines.filter(|line: Seq<char>| is_fragment(line))),
    decreases lines.len(),
{
    let kept = |line: Seq<char>| is_fragment(line);
    let text = |line: Seq<char>| line_text(line);
    reveal(Seq::filter);
    if lines.len() > 0 {
        let front = lines.drop_last();
        lemma_texts_of_fragment_lines(front);
        if is_fragment(lines.last()) {
            let chosen = front.filter(kept).push(lines.last());
            assert(chosen.drop_last() =~= front.filter(kept));
            assert(chosen.filter_map(text) == front.filter(kept).filter_map(text) + seq![
                line_text(lines.last()).unwrap(),
            ]);
        }
    }
}

/// The answer of a reply in which lines that are no fragments stand among the
/// fragments is the answer of the fragments alone.
pub proof fn lemma_other_lines_add_nothing(body: Seq<char>)
    ensures
        aggregate_of(body) == aggregate_of_lines(
            lines(body).filter(|line: Seq<char>| is_fragment(line)),
        ),
{
    lemma_texts_of_fragment_lines(lines(body));
}

/// Lines of which none is a fragment have no texts.
pub proof fn lemma_no_fragment_no_text(lines: Seq<Seq<char>>)
    requires
        forall|i: int| 0 <= i < lines.len() ==> !is_fragment(#[trigger] lines[i]),
    ensures
        texts_of_lines(lines) == Seq::<Seq<char>>::empty(),
    decreases lines.len(),
{
    if lines.len() > 0 {
        let front = lines.drop_last();
        lemma_no_fragment_no_text(front);
    }
}

/// A reply that is empty, or of which no line is a fragment, has the empty
/// answer.
pub proof fn lemma_answer_without_fragments(body: Seq<char>)
    requires
        forall|i: int| 0 <= i < lines(body).len() ==> !is_fragment(#[trigger] lines(body)[i]),
    ensures
        aggregate_of(body) == Seq::<char>::empty(),
{
    lemma_no_fragment_no_text(lines(body));
}

/// The trimmed text of each line that is a fragment, in the order of the
/// lines. A line that is none is passed over.
pub fn collect_texts(lines: &Vec<String>) -> (r: Vec<String>)
    ensures
        r.deep_view() == texts_of_lines(lines.deep_view()),
{
    let mut texts: Vec<String> = Vec::new();
    let ghost all = lines.deep_view();
    for i in 0..lines.len()
        invariant
            all == lines.deep_view(),
            texts.deep_view() == texts_of_lines(all.take(i as int)),
    {
        proof {
            all.lemma_filter_map_take_succ(|line: Seq<char>| line_text(line), i as int);
        }
        match decode_fragment(lines[i].as_str()) {
            Some(fragment) => {
                texts.push(trim(fragment.response.as_str()));
            },
            None => {},
        }
    }
    assert(all.take(lines.len() as int) =~= all);
    texts
}

/// `texts` in order, with one space between each two of them.
pub fn join_texts(texts: &Vec<String>) -> (r: String)
    ensures
        r@ == joined(texts.deep_view()),
{
    let mut r = String::new();
    let ghost all = texts.deep_view();
    for i in 0..texts.len()
        invariant
            all == texts.deep_view(),
            r@ == joined(all.take(i as int)),
    {
        proof {
            reveal_strlit(" ");
            assert(all.take(i + 1).drop_last() =~= all.take(i as int));
        }
        if i > 0 {
            r.append(" ");
        }
        r.append(texts[i].as_str());
    }
    assert(all.take(texts.len() as int) =~= all);
    r
}

/// The answer that `texts` make: joined by single spaces, then trimmed.
pub fn flatten(texts: &Vec<String>) -> (r: String)
    ensures
        r@ == flattened(texts.deep_view()),
        is_trimmed(r@),
{
    let all = join_texts(texts);
    trim(all.as_str())
}

/// The trimmed texts of the fragments in the body of a reply, in their order.
/// Every line is read on its own; one that is no fragment adds nothing and is
/// no failure.
pub fn fragment_texts(body: &str) -> (r: Vec<String>)
    ensures
        r.deep_view() == texts_of(body@),
{
    let lines = split_lines(body);
    collect_texts(&lines)
}

/// The answer that the body of a reply makes: the texts of its fragments,
/// flattened into one.
pub fn aggregate(body: &str) -> (r: String)
    ensures
        r@ == aggregate_of(body@),
        is_trimmed(r@),
{
    let texts = fragment_texts(body);
    flatten(&texts)
}

} // verus!
