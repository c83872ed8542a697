//! Reading one line of a reply as a JSON object. The parsing itself is
//! `serde_json`'s; what comes back is held in types of this library.

use serde_json::Value;
use vstd::prelude::*;

verus! {

/// What a member of a JSON object holds, as far as a fragment needs it: the
/// content of a string, the value of a boolean, or the fact that it is
/// something else.
#[derive(Debug, Clone, PartialEq, Eq)]
pub enum MemberValue {
    Text(String),
    Flag(bool),
    Other,
}

/// One member of a JSON object: its name and what it holds.
#[derive(Debug, Clone, PartialEq, Eq)]
pub struct Member {
    pub name: String,
    pub value: MemberValue,
}

/// The model of a [`MemberValue`].
pub ghost enum ValueView {
    Text(Seq<char>),
    Flag(bool),
    Other,
}

/// The model of a [`Member`].
pub ghost struct MemberView {
    pub name: Seq<char>,
    pub value: ValueView,
}

impl View for MemberValue {
    type V = ValueView;

    open spec fn view(&self) -> ValueView {
        match self {
            MemberValue::Text(text) => ValueView::Text(text@),
            MemberValue::Flag(flag) => ValueView::Flag(*flag),
            MemberValue::Other => ValueView::Other,
        }
    }
}

impl DeepView for MemberValue {
    type V = ValueView;

    open spec fn deep_view(&self) -> ValueView {
        self@
    }
}

impl View for Member {
    type V = MemberView;

    open spec fn view(&self) -> MemberView {
        MemberView { name: self.name@, value: self.value@ }
    }
}

impl DeepView for Member {
    type V = MemberView;

    open spec fn deep_view(&self) -> MemberView {
        self@
    }
}

/// What `serde_json` makes of `text` when it is asked to read it as one JSON
/// value: the members of the object that it read, or `None` where it refused
/// the text or read a value that is no object.
pub uninterp spec fn parsed_object(text: Seq<char>) -> Option<Seq<MemberView>>;

/// `serde_json::from_str`, asked for a `serde_json::Value`. Nothing is proved
/// of it. The contract claims only that the outcome depends on `text` alone,
/// and calls it `parsed_object(text)`. The body holds the call and hands each
/// member of the object over as a [`Member`]: its name, and its string or
/// boolean where it holds one.
#[verifier::external_body]
pub(crate) fn parse_object(text: &str) -> (r: Option<Vec<Member>>)
    ensures
        r.deep_view() == parsed_object(text@),
{
    let parsed: Result<Value, serde_json::Error> = serde_json::from_str(text);
    let Ok(Value::Object(map)) = parsed else { return None };
    let mut members: Vec<Member> = Vec::new();
    for (name, value) in map {
        let value = match value {
            Value::String(text) => MemberValue::Text(text),
            Value::Bool(flag) => MemberValue::Flag(flag),
            Value::Null | Value::Number(_) | Value::Array(_) | Value::Object(_) => MemberValue::Other,
        };
        members.push(Member { name, value });
    }
    Some(members)
}

/// What the first member of `members` called `name` holds.
pub open spec fn member_named(members: Seq<MemberView>, name: Seq<char>) -> Option<ValueView>
    decreases members.len(),
{
    if members.len() == 0 {
        None
    } else if members.first().name == name {
        Some(members.first().value)
    } else {
        member_named(members.drop_first(), name)
    }
}

/// Looks up the first member called `name`.
pub fn find_member<'a>(members: &'a Vec<Member>, name: &str) -> (r: Option<&'a MemberValue>)
    ensures
        r.deep_view() == member_named(members.deep_view(), name@),
{
    let wanted = name.to_owned();
    let ghost all = members.deep_view();
    assert(all.skip(0) =~= all);
    let mut i: usize = 0;
    while i < members.len()
        invariant
            i <= members.len(),
            wanted@ == name@,
            all == members.deep_view(),
            member_named(all, name@) == member_named(all.skip(i as int), name@),
        decreases members.len() - i,
    {
        if members[i].name == wanted {
            return Some(&members[i].value);
        }
        assert(all.skip(i as int).drop_first() =~= all.skip(i + 1));
        i += 1;
    }
    None
}

} // verus!
