//! The saved selection: the record that is kept in the state file, and how it
//! is read from and written to a JSON object.
//!
//! The record has two members, `theme` and `scrollbar_show`. Reading is
//! tolerant: members of other names are passed over, a missing member takes
//! its default, and a document that cannot be read as the record gives the
//! default record.

use vstd::prelude::*;
use vstd::string::*;
use crate::json::{
    find_member, json_object, json_text, lemma_member_value_insert, member_value, members_view,
    parse_object, parsed_view, print_object, JsonValue, JsonValueView, Member, MemberView,
};
use crate::text::{same_text, text_view};

verus! {

/// When scrollbars are shown.
#[derive(Debug, Clone, Copy, PartialEq, Eq, Structural)]
pub enum ScrollbarShow {
    /// While the content is scrolling.
    Scrolling,
    /// While the pointer hovers over the content.
    Hover,
    /// At all times.
    Always,
    /// At no time.
    Never,
}

impl ScrollbarShow {
    /// The word that stands for this value in the state file.
    pub open spec fn spec_name(self) -> Seq<char> {
        match self {
            ScrollbarShow::Scrolling => "scrolling"@,
            ScrollbarShow::Hover => "hover"@,
            ScrollbarShow::Always => "always"@,
            ScrollbarShow::Never => "never"@,
        }
    }

    /// The value that a word of the state file stands for, if it stands for one.
    pub open spec fn spec_from_name(name: Seq<char>) -> Option<ScrollbarShow> {
        if name == "scrolling"@ {
            Some(ScrollbarShow::Scrolling)
        } else if name == "hover"@ {
            Some(ScrollbarShow::Hover)
        } else if name == "always"@ {
            Some(ScrollbarShow::Always)
        } else if name == "never"@ {
            Some(ScrollbarShow::Never)
        } else {
            None
        }
    }

    /// The word that stands for this value in the state file.
    pub fn name(&self) -> (name: &'static str)
        ensures
            name@ == self.spec_name(),
    {
        match self {
            ScrollbarShow::Scrolling => "scrolling",
            ScrollbarShow::Hover => "hover",
            ScrollbarShow::Always => "always",
            ScrollbarShow::Never => "never",
        }
    }

    /// Reads a word of the state file. The words are case-sensitive.
    pub fn from_name(name: &str) -> (show: Option<ScrollbarShow>)
        ensures
            show == Self::spec_from_name(name@),
    {
        if same_text(name, "scrolling") {
            Some(ScrollbarShow::Scrolling)
        } else if same_text(name, "hover") {
            Some(ScrollbarShow::Hover)
        } else if same_text(name, "always") {
            Some(ScrollbarShow::Always)
        } else if same_text(name, "never") {
            Some(ScrollbarShow::Never)
        } else {
            None
        }
    }

    /// Every value is read back from its own word.
    pub proof fn lemma_name_round_trip(self)
        ensures
            Self::spec_from_name(self.spec_name()) == Some(self),
    {
        reveal_strlit("scrolling");
        reveal_strlit("hover");
        reveal_strlit("always");
        reveal_strlit("never");
        assert("scrolling"@.len() == 9);
        assert("hover"@.len() == 5);
        assert("always"@.len() == 6);
        assert("never"@[0] == 'n');
        assert("hover"@[0] == 'h');
    }
}

/// The record that is kept in the state file.
#[derive(Debug, Clone, PartialEq, Eq)]
pub struct PersistedState {
    /// The name of the theme, as the theme registry knows it.
    pub theme: String,
    /// The scrollbar preference; `None` leaves it to the theme.
    pub scrollbar_show: Option<ScrollbarShow>,
}

/// The mathematical value of a [`PersistedState`].
pub struct PersistedStateView {
    pub theme: Seq<char>,
    pub scrollbar_show: Option<ScrollbarShow>,
}

impl View for PersistedState {
    type V = PersistedStateView;

    open spec fn view(&self) -> PersistedStateView {
        PersistedStateView { theme: self.theme@, scrollbar_show: self.scrollbar_show }
    }
}

/// The record of a first start: the light default theme, no scrollbar
/// preference.
pub open spec fn default_state() -> PersistedStateView {
    PersistedStateView { theme: "Default Light"@, scrollbar_show: None }
}

/// The theme that a JSON object names: the string under `theme`, the default
/// theme where the member is missing, and `None` where it is no string.
pub open spec fn theme_of(members: Seq<MemberView>) -> Option<Seq<char>> {
    match member_value(members, "theme"@) {
        None => Some("Default Light"@),
        Some(JsonValueView::Text(theme)) => Some(theme),
        Some(_) => None,
    }
}

/// The scrollbar preference that a JSON object names: none where
/// `scrollbar_show` is missing or `null`, the value of its word where it is a
/// string, and `None` where it is neither or the word is unknown.
pub open spec fn scrollbar_show_of(members: Seq<MemberView>) -> Option<Option<ScrollbarShow>> {
    match member_value(members, "scrollbar_show"@) {
        None => Some(None),
        Some(JsonValueView::Null) => Some(None),
        Some(JsonValueView::Text(word)) => match ScrollbarShow::spec_from_name(word) {
            Some(show) => Some(Some(show)),
            None => None,
        },
        Some(JsonValueView::Other) => None,
    }
}

/// The record that a JSON object holds, or `None` where one of the two
/// members is malformed.
pub open spec fn record_of(members: Seq<MemberView>) -> Option<PersistedStateView> {
    match (theme_of(members), scrollbar_show_of(members)) {
        (Some(theme), Some(scrollbar_show)) => Some(PersistedStateView { theme, scrollbar_show }),
        _ => None,
    }
}

/// The JSON object that is written for a record: `theme` first, then
/// `scrollbar_show`, which is `null` where there is no preference.
pub open spec fn members_of(state: PersistedStateView) -> Seq<MemberView> {
    seq![
        MemberView { name: "theme"@, value: JsonValueView::Text(state.theme) },
        MemberView {
            name: "scrollbar_show"@,
            value: match state.scrollbar_show {
                Some(show) => JsonValueView::Text(show.spec_name()),
                None => JsonValueView::Null,
            },
        },
    ]
}

/// The record that is taken from what was read of a document: the default
/// record where the text was no JSON object or the object no record.
pub open spec fn decoded(parsed: Option<Seq<MemberView>>) -> PersistedStateView {
    match parsed {
        Some(members) => match record_of(members) {
            Some(state) => state,
            None => default_state(),
        },
        None => default_state(),
    }
}

/// The record that is taken from the state file: the default record where the
/// file could not be read.
pub open spec fn loaded(file: Option<Seq<char>>) -> PersistedStateView {
    match file {
        Some(text) => decoded(json_object(text)),
        None => default_state(),
    }
}

/// Writing a record as a JSON object and reading the object back gives the
/// record again, whatever its theme and its scrollbar preference are.
pub proof fn lemma_record_round_trip(state: PersistedStateView)
    ensures
        record_of(members_of(state)) == Some(state),
        decoded(Some(members_of(state))) == state,
{
    let members = members_of(state);
    reveal_strlit("theme");
    reveal_strlit("scrollbar_show");
    assert("theme"@.len() != "scrollbar_show"@.len());
    assert(member_value(members, "theme"@) == Some(JsonValueView::Text(state.theme)));
    let rest = members.skip(1);
    assert(rest[0] == members[1]);
    assert(member_value(rest, "scrollbar_show"@) == Some(members[1].value));
    assert(member_value(members, "scrollbar_show"@) == member_value(rest, "scrollbar_show"@));
    if let Some(show) = state.scrollbar_show {
        show.lemma_name_round_trip();
    }
}

/// Loading what was saved gives the record again, wherever the JSON reader
/// finds in the saved text the members that were written into it.
pub proof fn lemma_saved_state_loads_back(state: PersistedStateView, text: Seq<char>)
    ensures
        json_text(members_of(state)) == Some(text) && json_object(text) == Some(members_of(state))
            ==> loaded(Some(text)) == state,
{
    lemma_record_round_trip(state);
}

/// A member whose name is neither `theme` nor `scrollbar_show` is passed
/// over: with it, at any place of the object, the same record is read as
/// without it.
pub proof fn lemma_unknown_member_ignored(members: Seq<MemberView>, at: int, extra: MemberView)
    requires
        0 <= at <= members.len(),
        extra.name != "theme"@,
        extra.name != "scrollbar_show"@,
    ensures
        record_of(members.insert(at, extra)) == record_of(members),
{
    lemma_member_value_insert(members, at, extra, "theme"@);
    lemma_member_value_insert(members, at, extra, "scrollbar_show"@);
}

/// An object without the two members is read as the default record, and an
/// object that lacks only `theme` takes the default theme.
pub proof fn lemma_missing_members_take_defaults(members: Seq<MemberView>)
    requires
        member_value(members, "theme"@) is None,
    ensures
        theme_of(members) == Some(default_state().theme),
        member_value(members, "scrollbar_show"@) is None ==> record_of(members) == Some(
            default_state(),
        ),
{
}

impl Default for PersistedState {
    fn default() -> (state: PersistedState)
        ensures
            state@ == default_state(),
    {
        PersistedState { theme: String::from_str("Default Light"), scrollbar_show: None }
    }
}

impl PersistedState {
    /// Takes the record from the members of a JSON object. Members of other
    /// names are passed over, of members with the same name the first counts.
    /// `None` where `theme` is no string, or `scrollbar_show` is neither
    /// `null` nor one of the four words.
    pub fn from_members(members: &Vec<Member>) -> (state: Option<PersistedState>)
        ensures
            match state {
                Some(state) => record_of(members_view(members@)) == Some(state@),
                None => record_of(members_view(members@)) is None,
            },
    {
        let theme = match find_member(members, "theme") {
            None => String::from_str("Default Light"),
            Some(JsonValue::Text(theme)) => theme.clone(),
            Some(_) => {
                return None;
            },
        };
        let scrollbar_show = match find_member(members, "scrollbar_show") {
            None => None,
            Some(JsonValue::Null) => None,
            Some(JsonValue::Text(word)) => match ScrollbarShow::from_name(word.as_str()) {
                Some(show) => Some(show),
                None => {
                    return None;
                },
            },
            Some(JsonValue::Other) => {
                return None;
            },
        };
        Some(PersistedState { theme, scrollbar_show })
    }

    /// The members of the JSON object that is written for this record.
    pub fn to_members(&self) -> (members: Vec<Member>)
        ensures
            members_view(members@) == members_of(self@),
    {
        let scrollbar_show = match self.scrollbar_show {
            Some(show) => JsonValue::Text(String::from_str(show.name())),
            None => JsonValue::Null,
        };
        let mut members: Vec<Member> = Vec::new();
        members.push(Member { name: String::from_str("theme"), value: JsonValue::Text(self.theme.clone()) });
        members.push(Member { name: String::from_str("scrollbar_show"), value: scrollbar_show });
        assert(members_view(members@) =~= members_of(self@));
        members
    }

    /// Takes the record from what was read of a document: the default record
    /// where nothing was read, or where what was read is no record.
    pub fn from_parsed(parsed: Option<Vec<Member>>) -> (state: PersistedState)
        ensures
            state@ == decoded(parsed_view(parsed)),
    {
        match parsed {
            Some(members) => match PersistedState::from_members(&members) {
                Some(state) => state,
                None => PersistedState::default(),
            },
            None => PersistedState::default(),
        }
    }

    /// Reads the record from the text of a state file. Never fails: a text
    /// that is no JSON object, or an object that is no record, gives the
    /// default record.
    pub fn decode(text: &str) -> (state: PersistedState)
        ensures
            state@ == decoded(json_object(text@)),
    {
        PersistedState::from_parsed(parse_object(text))
    }

    /// The pretty-printed text of this record, as it goes into the state
    /// file. It is always there: a record holds nothing that the JSON writer
    /// cannot print.
    pub fn encode(&self) -> (text: Option<String>)
        ensures
            text is Some,
            text_view(text) == json_text(members_of(self@)),
    {
        let members = self.to_members();
        print_object(&members)
    }
}

/// Takes the record from the state file. `file` is the text of the file, or
/// `None` where it could not be read. Never fails: a file that is missing,
/// unreadable or malformed gives the default record.
pub fn load(file: Option<String>) -> (state: PersistedState)
    ensures
        state@ == loaded(text_view(file)),
{
    match file {
        Some(text) => PersistedState::decode(text.as_str()),
        None => PersistedState::default(),
    }
}

} // verus!
