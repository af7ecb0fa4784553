use theme_state::json::{JsonValue, Member};
use theme_state::{load, PersistedState, ScrollbarShow};

fn state(theme: &str, scrollbar_show: Option<ScrollbarShow>) -> PersistedState {
    PersistedState { theme: theme.to_string(), scrollbar_show }
}

fn member(name: &str, value: JsonValue) -> Member {
    Member { name: name.to_string(), value }
}

#[test]
fn default_state_is_light_without_preference() {
    assert_eq!(PersistedState::default(), state("Default Light", None));
}

#[test]
fn missing_file_gives_the_default() {
    assert_eq!(load(None), state("Default Light", None));
}

#[test]
fn file_that_is_no_json_gives_the_default() {
    assert_eq!(load(Some("not json".to_string())), state("Default Light", None));
    assert_eq!(PersistedState::decode("not json"), state("Default Light", None));
}

#[test]
fn empty_file_gives_the_default() {
    assert_eq!(load(Some(String::new())), state("Default Light", None));
}

#[test]
fn unknown_fields_are_ignored() {
    let text = "{\"theme\":\"X\",\"scrollbar_show\":null,\"extra\":true}";
    assert_eq!(load(Some(text.to_string())), state("X", None));
}

#[test]
fn unknown_fields_of_any_kind_and_place_are_ignored() {
    let text = "{\"a\":[1,{\"theme\":\"no\"}],\"theme\":\"X\",\"b\":{\"scrollbar_show\":\"never\"},\
        \"scrollbar_show\":\"always\",\"c\":1.5,\"d\":\"theme\"}";
    assert_eq!(PersistedState::decode(text), state("X", Some(ScrollbarShow::Always)));
}

#[test]
fn warm_start_record_is_read() {
    let text = "{\"theme\":\"Ocean\",\"scrollbar_show\":\"hover\"}";
    assert_eq!(load(Some(text.to_string())), state("Ocean", Some(ScrollbarShow::Hover)));
}

#[test]
fn pretty_printed_record_is_read() {
    let text = "{\n  \"theme\": \"Ocean\",\n  \"scrollbar_show\": \"scrolling\"\n}\n";
    assert_eq!(PersistedState::decode(text), state("Ocean", Some(ScrollbarShow::Scrolling)));
}

#[test]
fn every_scrollbar_word_is_read() {
    for (word, show) in [
        ("scrolling", ScrollbarShow::Scrolling),
        ("hover", ScrollbarShow::Hover),
        ("always", ScrollbarShow::Always),
        ("never", ScrollbarShow::Never),
    ] {
        let text = format!("{{\"theme\":\"T\",\"scrollbar_show\":\"{}\"}}", word);
        assert_eq!(PersistedState::decode(&text), state("T", Some(show)));
        assert_eq!(ScrollbarShow::from_name(word), Some(show));
        assert_eq!(show.name(), word);
    }
}

#[test]
fn scrollbar_words_are_case_sensitive() {
    assert_eq!(ScrollbarShow::from_name("Hover"), None);
    assert_eq!(ScrollbarShow::from_name("ALWAYS"), None);
    assert_eq!(ScrollbarShow::from_name(""), None);
    assert_eq!(ScrollbarShow::from_name("hover "), None);
}

#[test]
fn unknown_scrollbar_word_gives_the_default() {
    let text = "{\"theme\":\"Ocean\",\"scrollbar_show\":\"sometimes\"}";
    assert_eq!(PersistedState::decode(text), state("Default Light", None));
}

#[test]
fn scrollbar_of_the_wrong_kind_gives_the_default() {
    let text = "{\"theme\":\"Ocean\",\"scrollbar_show\":1}";
    assert_eq!(PersistedState::decode(text), state("Default Light", None));
    let text = "{\"theme\":\"Ocean\",\"scrollbar_show\":[\"hover\"]}";
    assert_eq!(PersistedState::decode(text), state("Default Light", None));
}

#[test]
fn theme_of_the_wrong_kind_gives_the_default() {
    for text in [
        "{\"theme\":5,\"scrollbar_show\":\"hover\"}",
        "{\"theme\":null,\"scrollbar_show\":\"hover\"}",
        "{\"theme\":true}",
        "{\"theme\":{\"name\":\"Ocean\"}}",
    ] {
        assert_eq!(PersistedState::decode(text), state("Default Light", None), "{}", text);
    }
}

#[test]
fn missing_scrollbar_is_no_preference() {
    assert_eq!(PersistedState::decode("{\"theme\":\"Ocean\"}"), state("Ocean", None));
}

#[test]
fn missing_theme_takes_the_default_theme() {
    assert_eq!(
        PersistedState::decode("{\"scrollbar_show\":\"hover\"}"),
        state("Default Light", Some(ScrollbarShow::Hover)),
    );
    assert_eq!(PersistedState::decode("{}"), state("Default Light", None));
}

#[test]
fn documents_that_are_no_object_give_the_default() {
    for text in ["[\"Ocean\",null]", "\"Ocean\"", "42", "true", "null", "{\"theme\":\"Ocean\"", "{\"theme\":\"Ocean\"} x"] {
        assert_eq!(PersistedState::decode(text), state("Default Light", None), "{}", text);
    }
}

#[test]
fn theme_names_are_case_sensitive_and_free_form() {
    assert_eq!(PersistedState::decode("{\"theme\":\"ocean\"}"), state("ocean", None));
    assert_eq!(PersistedState::decode("{\"theme\":\"\"}"), state("", None));
    assert_eq!(
        PersistedState::decode("{\"theme\":\"Caf\\u00e9 \\\"Noir\\\"\"}"),
        state("Café \"Noir\"", None),
    );
}

#[test]
fn record_is_printed_pretty_with_theme_first() {
    assert_eq!(
        state("Default Dark", None).encode(),
        Some("{\n  \"theme\": \"Default Dark\",\n  \"scrollbar_show\": null\n}".to_string()),
    );
    assert_eq!(
        state("Solar", Some(ScrollbarShow::Hover)).encode(),
        Some("{\n  \"theme\": \"Solar\",\n  \"scrollbar_show\": \"hover\"\n}".to_string()),
    );
}

#[test]
fn printed_record_escapes_the_theme() {
    assert_eq!(
        state("a\"b\\c\n", Some(ScrollbarShow::Never)).encode(),
        Some("{\n  \"theme\": \"a\\\"b\\\\c\\n\",\n  \"scrollbar_show\": \"never\"\n}".to_string()),
    );
}

#[test]
fn save_then_load_gives_the_record_back() {
    let themes = ["Default Light", "Ocean", "", "ümlaut ✓ 日本", "quo\"te", "back\\slash", "line\nbreak\ttab", "{\"theme\":\"x\"}"];
    let shows = [
        None,
        Some(ScrollbarShow::Scrolling),
        Some(ScrollbarShow::Hover),
        Some(ScrollbarShow::Always),
        Some(ScrollbarShow::Never),
    ];
    for theme in themes {
        for show in shows {
            let saved = state(theme, show);
            let text = saved.encode();
            assert!(text.is_some());
            assert_eq!(load(text), saved);
        }
    }
}

#[test]
fn members_of_a_record() {
    assert_eq!(
        state("Ocean", Some(ScrollbarShow::Always)).to_members(),
        vec![
            member("theme", JsonValue::Text("Ocean".to_string())),
            member("scrollbar_show", JsonValue::Text("always".to_string())),
        ],
    );
    assert_eq!(
        state("Ocean", None).to_members(),
        vec![member("theme", JsonValue::Text("Ocean".to_string())), member("scrollbar_show", JsonValue::Null)],
    );
}

#[test]
fn record_of_members() {
    let members = vec![
        member("extra", JsonValue::Other),
        member("scrollbar_show", JsonValue::Text("never".to_string())),
        member("theme", JsonValue::Text("Ocean".to_string())),
    ];
    assert_eq!(PersistedState::from_members(&members), Some(state("Ocean", Some(ScrollbarShow::Never))));
    assert_eq!(PersistedState::from_members(&Vec::new()), Some(state("Default Light", None)));
}

#[test]
fn malformed_members_are_no_record() {
    assert_eq!(PersistedState::from_members(&vec![member("theme", JsonValue::Null)]), None);
    assert_eq!(PersistedState::from_members(&vec![member("theme", JsonValue::Other)]), None);
    assert_eq!(
        PersistedState::from_members(&vec![
            member("theme", JsonValue::Text("Ocean".to_string())),
            member("scrollbar_show", JsonValue::Other),
        ]),
        None,
    );
    assert_eq!(
        PersistedState::from_members(&vec![member("scrollbar_show", JsonValue::Text("Hover".to_string()))]),
        None,
    );
}

#[test]
fn first_member_of_a_name_counts() {
    let members = vec![
        member("theme", JsonValue::Text("First".to_string())),
        member("theme", JsonValue::Text("Second".to_string())),
    ];
    assert_eq!(PersistedState::from_members(&members), Some(state("First", None)));
}

#[test]
fn nothing_parsed_gives_the_default() {
    assert_eq!(PersistedState::from_parsed(None), state("Default Light", None));
    assert_eq!(
        PersistedState::from_parsed(Some(vec![member("theme", JsonValue::Other)])),
        state("Default Light", None),
    );
    assert_eq!(
        PersistedState::from_parsed(Some(vec![member("theme", JsonValue::Text("Ocean".to_string()))])),
        state("Ocean", None),
    );
}
