//! The JSON object that a state file holds, as far as this library reads it.
//!
//! A document is an ordered list of members. Of a member's value the library
//! tells three cases apart: `null`, a string, and everything else. The text is
//! read and written by `serde_json`; what it makes of a text is not spelled out
//! here but named, by [`json_object`] and [`json_text`].

use vstd::prelude::*;
use crate::text::{same_text, text_view};

verus! {

/// The value of one member of a JSON object.
#[derive(Debug, Clone, PartialEq, Eq)]
pub enum JsonValue {
    /// The literal `null`.
    Null,
    /// A string, unescaped.
    Text(String),
    /// A boolean, a number, an array or an object.
    Other,
}

/// One member of a JSON object: a name and its value.
#[derive(Debug, Clone, PartialEq, Eq)]
pub struct Member {
    pub name: String,
    pub value: JsonValue,
}

/// The mathematical value of a [`JsonValue`].
pub enum JsonValueView {
    Null,
    Text(Seq<char>),
    Other,
}

/// The mathematical value of a [`Member`].
pub struct MemberView {
    pub name: Seq<char>,
    pub value: JsonValueView,
}

impl View for JsonValue {
    type V = JsonValueView;

    open spec fn view(&self) -> JsonValueView {
        match *self {
            JsonValue::Null => JsonValueView::Null,
            JsonValue::Text(text) => JsonValueView::Text(text@),
            JsonValue::Other => JsonValueView::Other,
        }
    }
}

impl View for Member {
    type V = MemberView;

    open spec fn view(&self) -> MemberView {
        MemberView { name: self.name@, value: self.value@ }
    }
}

/// The members of a list, each by its view.
pub open spec fn members_view(members: Seq<Member>) -> Seq<MemberView> {
    Seq::new(members.len(), |i: int| members[i]@)
}

/// The members of an object that was read, if one was read.
pub open spec fn parsed_view(parsed: Option<Vec<Member>>) -> Option<Seq<MemberView>> {
    match parsed {
        Some(members) => Some(members_view(members@)),
        None => None,
    }
}

/// No member of the list holds a value other than `null` or a string.
pub open spec fn printable(members: Seq<MemberView>) -> bool {
    forall|i: int| 0 <= i < members.len() ==> !((#[trigger] members[i]).value is Other)
}

/// What `serde_json` reads from `text` as an object: its members in the order
/// of the document, or `None` where the text is no JSON object.
pub uninterp spec fn json_object(text: Seq<char>) -> Option<Seq<MemberView>>;

/// The pretty-printed text that `serde_json` writes for an object with the
/// given members, or `None` where it reports an error.
pub uninterp spec fn json_text(members: Seq<MemberView>) -> Option<Seq<char>>;

/// Calls `serde_json::from_str` to read `text` as a `serde_json::Map`, and
/// hands out its entries in the map's own order, which with the feature
/// `preserve_order` is the order of the document; of members that share a
/// name the map keeps one. A `Value::Null` becomes
/// [`JsonValue::Null`], a `Value::String` becomes [`JsonValue::Text`] with the
/// same characters, every other variant becomes [`JsonValue::Other`]. A text
/// that `serde_json` rejects gives `None`. Nothing is proved of the outcome;
/// the contract only names it.
#[verifier::external_body]
pub(crate) fn parse_object(text: &str) -> (parsed: Option<Vec<Member>>)
    ensures
        parsed_view(parsed) == json_object(text@),
{
    match serde_json::from_str::<serde_json::Map<String, serde_json::Value>>(text) {
        Ok(object) => Some(object.into_iter().map(|(name, value)| Member { name, value: match value {
            serde_json::Value::Null => JsonValue::Null,
            serde_json::Value::String(text) => JsonValue::Text(text),
            serde_json::Value::Bool(_) => JsonValue::Other,
            serde_json::Value::Number(_) => JsonValue::Other,
            serde_json::Value::Array(_) => JsonValue::Other,
            serde_json::Value::Object(_) => JsonValue::Other,
        } }).collect()),
        Err(_) => None,
    }
}

/// Collects `members` into a `serde_json::Map`, a [`JsonValue::Text`] as a
/// `Value::String` and a [`JsonValue::Null`] as `Value::Null`, and calls
/// `serde_json::to_string_pretty` on it. An error of `serde_json` would give
/// `None`, but there is none to give: the printer fails only where its writer
/// does, it writes into memory, and the map holds strings and `null` under
/// string keys. Of the text itself nothing is proved; the contract only names
/// it.
#[verifier::external_body]
pub(crate) fn print_object(members: &Vec<Member>) -> (text: Option<String>)
    requires
        printable(members_view(members@)),
    ensures
        text is Some,
        text_view(text) == json_text(members_view(members@)),
{
    let object: serde_json::Map<String, serde_json::Value> = members.iter().map(|member| (
        member.name.clone(),
        match &member.value {
            JsonValue::Text(text) => serde_json::Value::String(text.clone()),
            _ => serde_json::Value::Null,
        },
    )).collect();
    serde_json::to_string_pretty(&object).ok()
}

/// The value of the first member called `name`, if there is one.
pub open spec fn member_value(members: Seq<MemberView>, name: Seq<char>) -> Option<JsonValueView>
    decreases members.len(),
{
    if members.len() == 0 {
        None
    } else if members[0].name == name {
        Some(members[0].value)
    } else {
        member_value(members.skip(1), name)
    }
}

/// A name that none of the first `n` members has is not found among them:
/// the search goes on behind them.
pub proof fn lemma_member_value_skip(members: Seq<MemberView>, name: Seq<char>, n: int)
    requires
        0 <= n <= members.len(),
        forall|i: int| 0 <= i < n ==> (#[trigger] members[i]).name != name,
    ensures
        member_value(members, name) == member_value(members.skip(n), name),
    decreases n,
{
    if n == 0 {
        assert(members.skip(0) =~= members);
    } else {
        let rest = members.skip(1);
        assert forall|i: int| 0 <= i < n - 1 implies (#[trigger] rest[i]).name != name by {
            assert(rest[i] == members[i + 1]);
        }
        lemma_member_value_skip(rest, name, n - 1);
        assert(rest.skip(n - 1) =~= members.skip(n));
    }
}

/// A member of another name, put in at any place, does not change what is
/// found under `name`.
pub proof fn lemma_member_value_insert(
    members: Seq<MemberView>,
    at: int,
    extra: MemberView,
    name: Seq<char>,
)
    requires
        0 <= at <= members.len(),
        extra.name != name,
    ensures
        member_value(members.insert(at, extra), name) == member_value(members, name),
    decreases at,
{
    let longer = members.insert(at, extra);
    if at == 0 {
        assert(longer.skip(1) =~= members);
    } else {
        assert(longer[0] == members[0]);
        assert(longer.skip(1) =~= members.skip(1).insert(at - 1, extra));
        lemma_member_value_insert(members.skip(1), at - 1, extra, name);
    }
}

/// Finds the first member called `name` and hands out its value.
pub fn find_member<'a>(members: &'a Vec<Member>, name: &str) -> (found: Option<&'a JsonValue>)
    ensures
        match found {
            Some(value) => member_value(members_view(members@), name@) == Some(value@),
            None => member_value(members_view(members@), name@) is None,
        },
{
    let mut i: usize = 0;
    while i < members.len()
        invariant
            0 <= i <= members.len(),
            forall|j: int| 0 <= j < i ==> (#[trigger] members_view(members@)[j]).name != name@,
        decreases members.len() - i,
    {
        if same_text(members[i].name.as_str(), name) {
            proof {
                let all = members_view(members@);
                lemma_member_value_skip(all, name@, i as int);
                assert(all.skip(i as int)[0] == all[i as int]);
            }
            return Some(&members[i].value);
        }
        i += 1;
    }
    proof {
        let all = members_view(members@);
        lemma_member_value_skip(all, name@, all.len() as int);
    }
    None
}

} // verus!
