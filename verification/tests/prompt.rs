use aichat::client::prompt::{
    can_set_value, create_config, set_config_value, to_json, try_create_config, PromptAnswer,
    PromptKind,
};
use serde_json::Value;

fn json(text: &str) -> Value {
    match serde_json::from_str(text) {
        Ok(value) => value,
        Err(error) => panic!("{error}"),
    }
}

fn answer(path: &str, kind: PromptKind, value: &str) -> PromptAnswer {
    PromptAnswer { path: path.to_string(), kind, value: value.to_string() }
}

#[test]
fn an_empty_answer_is_null() {
    assert_eq!(to_json(PromptKind::Text, ""), Value::Null);
    assert_eq!(to_json(PromptKind::Integer, ""), Value::Null);
}

#[test]
fn a_text_answer_is_its_text() {
    assert_eq!(to_json(PromptKind::Text, "sk-1"), json(r#""sk-1""#));
    assert_eq!(to_json(PromptKind::Text, "42"), json(r#""42""#));
}

#[test]
fn an_integer_answer_is_its_number_where_it_writes_one() {
    assert_eq!(to_json(PromptKind::Integer, "4096"), json("4096"));
    assert_eq!(to_json(PromptKind::Integer, "-1"), json("-1"));
    assert_eq!(to_json(PromptKind::Integer, "+7"), json("7"));
    assert_eq!(to_json(PromptKind::Integer, "4k"), json(r#""4k""#));
    assert_eq!(to_json(PromptKind::Integer, "2147483648"), json(r#""2147483648""#));
}

#[test]
fn a_path_of_one_segment_sets_a_member() {
    let mut config = json("{}");
    set_config_value(&mut config, "api_key", PromptKind::Text, "one");
    assert_eq!(config, json(r#"{"api_key": "one"}"#));
    set_config_value(&mut config, "api_key", PromptKind::Text, "two");
    assert_eq!(config, json(r#"{"api_key": "two"}"#));
    set_config_value(&mut config, "", PromptKind::Integer, "3");
    assert_eq!(config, json(r#"{"api_key": "two", "": 3}"#));
}

#[test]
fn null_becomes_an_object_when_a_member_is_set() {
    let mut config = Value::Null;
    set_config_value(&mut config, "name", PromptKind::Text, "n");
    assert_eq!(config, json(r#"{"name": "n"}"#));
    let mut config = Value::Null;
    set_config_value(&mut config, "extra.proxy", PromptKind::Text, "p");
    assert_eq!(config, json(r#"{"extra": {"proxy": "p"}}"#));
}

#[test]
fn a_path_of_two_segments_sets_a_member_under_the_scope() {
    let mut config = json(r#"{"type": "openai"}"#);
    set_config_value(&mut config, "extra.proxy", PromptKind::Text, "http://p");
    assert_eq!(config, json(r#"{"type": "openai", "extra": {"proxy": "http://p"}}"#));
    set_config_value(&mut config, "extra.connect_timeout", PromptKind::Integer, "5");
    set_config_value(&mut config, "extra.proxy", PromptKind::Text, "");
    assert_eq!(
        config,
        json(r#"{"type": "openai", "extra": {"proxy": null, "connect_timeout": 5}}"#)
    );
}

#[test]
fn a_bracket_in_the_scope_makes_an_array_of_one_object() {
    let mut config = json("{}");
    set_config_value(&mut config, "models[].name", PromptKind::Text, "m");
    assert_eq!(config, json(r#"{"models": [{"name": "m"}]}"#));
    set_config_value(&mut config, "models[].max_tokens", PromptKind::Integer, "4096");
    assert_eq!(config, json(r#"{"models": [{"name": "m", "max_tokens": 4096}]}"#));
    set_config_value(&mut config, "models[0].name", PromptKind::Text, "other");
    assert_eq!(config, json(r#"{"models": [{"name": "other", "max_tokens": 4096}]}"#));
}

#[test]
fn only_the_first_element_of_an_array_is_written() {
    let mut config = json(r#"{"models": [{"name": "a"}, {"name": "b"}, 3]}"#);
    set_config_value(&mut config, "models[].name", PromptKind::Text, "c");
    assert_eq!(config, json(r#"{"models": [{"name": "c"}, {"name": "b"}, 3]}"#));
    let mut config = json(r#"{"models": [null]}"#);
    set_config_value(&mut config, "models[].name", PromptKind::Text, "c");
    assert_eq!(config, json(r#"{"models": [{"name": "c"}]}"#));
}

#[test]
fn a_member_that_holds_null_becomes_an_object() {
    let mut config = json("{}");
    set_config_value(&mut config, "extra", PromptKind::Text, "");
    assert_eq!(config, json(r#"{"extra": null}"#));
    assert!(can_set_value(&config, "extra.proxy"));
    set_config_value(&mut config, "extra.proxy", PromptKind::Text, "p");
    assert_eq!(config, json(r#"{"extra": {"proxy": "p"}}"#));
}

#[test]
fn a_longer_path_changes_nothing() {
    let mut config = json(r#"{"a": 1}"#);
    set_config_value(&mut config, "a.b.c", PromptKind::Text, "v");
    assert_eq!(config, json(r#"{"a": 1}"#));
    let mut config = json("7");
    assert!(can_set_value(&config, "a.b.c"));
    set_config_value(&mut config, "a.b.c", PromptKind::Text, "v");
    assert_eq!(config, json("7"));
}

#[test]
fn a_value_fits_only_where_the_scope_allows() {
    let config = json(
        r#"{"name": "n", "extra": {"proxy": "p"}, "models": [{"name": "m"}], "none": [], "nums": [1]}"#,
    );
    assert!(can_set_value(&config, "name"));
    assert!(can_set_value(&config, "a.b.c"));
    assert!(can_set_value(&config, "fresh.x"));
    assert!(can_set_value(&config, "fresh[].x"));
    assert!(can_set_value(&config, "extra.x"));
    assert!(can_set_value(&config, "models[].x"));
    assert!(!can_set_value(&config, "name.x"));
    assert!(!can_set_value(&config, "name[].x"));
    assert!(!can_set_value(&config, "extra[].x"));
    assert!(!can_set_value(&config, "models.x"));
    assert!(!can_set_value(&config, "none[].x"));
    assert!(!can_set_value(&config, "nums[].x"));
}

#[test]
fn only_objects_and_null_take_members() {
    for text in ["{}", "null"] {
        assert!(can_set_value(&json(text), "a"));
        assert!(can_set_value(&json(text), "a.b"));
        assert!(can_set_value(&json(text), "a[].b"));
    }
    for text in ["1", "\"text\"", "true", "[]", "[{}]", "1.5"] {
        assert!(!can_set_value(&json(text), "a"));
        assert!(!can_set_value(&json(text), "a.b"));
        assert!(!can_set_value(&json(text), "a[].b"));
    }
}

#[test]
fn create_config_puts_every_answer_in_its_place() {
    let answers = vec![
        answer("api_key", PromptKind::Text, "sk-1"),
        answer("organization_id", PromptKind::Text, ""),
        answer("extra.proxy", PromptKind::Text, "http://p"),
        answer("models[].name", PromptKind::Text, "m"),
        answer("models[].max_tokens", PromptKind::Integer, "4096"),
    ];
    let expected = json(
        r#"[{
            "type": "openai",
            "api_key": "sk-1",
            "organization_id": null,
            "extra": {"proxy": "http://p"},
            "models": [{"name": "m", "max_tokens": 4096}]
        }]"#,
    );
    assert_eq!(create_config(&answers, "openai"), expected);
    assert_eq!(try_create_config(&answers, "openai"), Some(expected));
}

#[test]
fn create_config_without_answers_holds_the_kind_alone() {
    assert_eq!(create_config(&[], "localai"), json(r#"[{"type": "localai"}]"#));
    assert_eq!(create_config(&[], ""), json(r#"[{"type": ""}]"#));
}

#[test]
fn an_answer_can_replace_the_kind() {
    let clients = create_config(&[answer("type", PromptKind::Text, "other")], "openai");
    assert_eq!(clients, json(r#"[{"type": "other"}]"#));
}

#[test]
fn answers_that_do_not_fit_give_no_configuration() {
    let answers = vec![
        answer("api_key", PromptKind::Text, "sk-1"),
        answer("api_key.part", PromptKind::Text, "x"),
    ];
    assert_eq!(try_create_config(&answers, "openai"), None);
    let answers = vec![answer("type[].x", PromptKind::Text, "x")];
    assert_eq!(try_create_config(&answers, "openai"), None);
    let answers = vec![
        answer("extra.proxy", PromptKind::Text, "p"),
        answer("extra[].proxy", PromptKind::Text, "p"),
    ];
    assert_eq!(try_create_config(&answers, "openai"), None);
}
