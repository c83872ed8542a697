//! Fragments: the units that the provider's reply is made of, one to a line.

use crate::json::{find_member, member_named, parse_object, parsed_object, Member, MemberValue};
use crate::json::{MemberView, ValueView};
use vstd::prelude::*;

verus! {

/// One fragment of the provider's reply: a piece of the answer, and the mark
/// that tells whether the answer is complete.
#[derive(Debug, Clone, PartialEq, Eq)]
pub struct OllamaResponse {
    pub response: String,
    pub done: bool,
}

/// The model of an [`OllamaResponse`].
pub ghost struct FragmentView {
    pub response: Seq<char>,
    pub done: bool,
}

impl View for OllamaResponse {
    type V = FragmentView;

    open spec fn view(&self) -> FragmentView {
        FragmentView { response: self.response@, done: self.done }
    }
}

impl DeepView for OllamaResponse {
    type V = FragmentView;

    open spec fn deep_view(&self) -> FragmentView {
        self@
    }
}

/// The fragment that the members of a JSON object stand for: `response` has to
/// be a string and `done` a boolean; other members are ignored.
pub open spec fn fragment_of(members: Seq<MemberView>) -> Option<FragmentView> {
    match (member_named(members, "response"@), member_named(members, "done"@)) {
        (Some(ValueView::Text(response)), Some(ValueView::Flag(done))) => Some(
            FragmentView { response, done },
        ),
        _ => None,
    }
}

/// The fragment that a line of the reply stands for, if it is one.
pub open spec fn decoded(line: Seq<char>) -> Option<FragmentView> {
    match parsed_object(line) {
        Some(members) => fragment_of(members),
        None => None,
    }
}

/// Builds the fragment from the members of a JSON object, or tells that they
/// are not those of a fragment.
pub fn fragment_of_members(members: &Vec<Member>) -> (r: Option<OllamaResponse>)
    ensures
        r.deep_view() == fragment_of(members.deep_view()),
{
    let response = match find_member(members, "response") {
        Some(MemberValue::Text(text)) => text.clone(),
        _ => { return None; },
    };
    let done = match find_member(members, "done") {
        Some(MemberValue::Flag(flag)) => *flag,
        _ => { return None; },
    };
    Some(OllamaResponse { response, done })
}

/// Decodes one line of the reply. A line that is no fragment gives `None`.
pub fn decode_fragment(line: &str) -> (r: Option<OllamaResponse>)
    ensures
        r.deep_view() == decoded(line@),
{
    match parse_object(line) {
        Some(members) => fragment_of_members(&members),
        None => None,
    }
}

} // verus!
