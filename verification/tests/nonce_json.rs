use discord_rpc::errors::DiscordRPCError;
use discord_rpc::utils::{create_json, insert_nonce, nonce};
use serde_json::Value;

fn object(members: Vec<(&str, Value)>) -> Value {
    let mut map = serde_json::Map::new();
    for (key, member) in members {
        map.insert(key.to_string(), member);
    }
    Value::Object(map)
}

fn is_nonce(text: &str) -> bool {
    text.len() == 36
        && text.chars().enumerate().all(|(i, c)| {
            if i == 8 || i == 13 || i == 18 || i == 23 {
                c == '-'
            } else {
                c.is_ascii_digit() || ('a'..='f').contains(&c)
            }
        })
}

#[test]
fn nonce_has_the_shape_of_a_hyphenated_uuid() {
    for _ in 0..20 {
        let text = nonce();
        assert!(is_nonce(&text), "{}", text);
        assert_eq!(text.chars().nth(14), Some('4'));
    }
}

#[test]
fn nonces_are_distinct() {
    let mut seen = std::collections::HashSet::new();
    for _ in 0..1000 {
        assert!(seen.insert(nonce()));
    }
    assert_eq!(seen.len(), 1000);
}

#[test]
fn insert_nonce_adds_the_member_and_prints_the_object() {
    let mut value = object(vec![("cmd", Value::from("SET_ACTIVITY")), ("args", object(vec![("pid", Value::from(7u64))]))]);
    let text = insert_nonce(&mut value, "abc".to_string()).unwrap();
    assert_eq!(text, r#"{"args":{"pid":7},"cmd":"SET_ACTIVITY","nonce":"abc"}"#);
    assert_eq!(
        value,
        object(vec![
            ("cmd", Value::from("SET_ACTIVITY")),
            ("args", object(vec![("pid", Value::from(7u64))])),
            ("nonce", Value::from("abc")),
        ])
    );
}

#[test]
fn insert_nonce_replaces_a_nonce_that_was_there() {
    let mut value = object(vec![("nonce", Value::from(1u64)), ("a", Value::Null)]);
    let text = insert_nonce(&mut value, "new".to_string()).unwrap();
    assert_eq!(text, r#"{"a":null,"nonce":"new"}"#);
}

#[test]
fn insert_nonce_on_an_empty_object() {
    let mut value = object(vec![]);
    assert_eq!(insert_nonce(&mut value, "n".to_string()), Ok(r#"{"nonce":"n"}"#.to_string()));
}

#[test]
fn insert_nonce_escapes_as_json_does() {
    let mut value = object(vec![]);
    let text = insert_nonce(&mut value, "a\"b\\c\n".to_string()).unwrap();
    assert_eq!(text, r#"{"nonce":"a\"b\\c\n"}"#);
}

#[test]
fn insert_nonce_refuses_what_is_no_object() {
    for before in [
        Value::Null,
        Value::from(true),
        Value::from(3u64),
        Value::from("text"),
        Value::Array(vec![Value::from(1u64)]),
    ] {
        let mut value = before.clone();
        assert_eq!(insert_nonce(&mut value, "n".to_string()), Err(DiscordRPCError::PayloadNotObject));
        assert_eq!(value, before);
    }
}

#[test]
fn create_json_adds_a_nonce_and_changes_nothing_else() {
    let before = object(vec![
        ("cmd", Value::from("SET_ACTIVITY")),
        ("args", object(vec![("pid", Value::from(99u64)), ("activity", object(vec![("state", Value::from("x"))]))])),
    ]);
    let mut value = before.clone();
    let text = create_json(&mut value).unwrap();

    let after = value.as_object().unwrap();
    assert_eq!(after.len(), 3);
    assert_eq!(after.get("cmd"), before.get("cmd"));
    assert_eq!(after.get("args"), before.get("args"));
    assert!(is_nonce(after.get("nonce").unwrap().as_str().unwrap()));

    let printed: Value = serde_json::from_str(&text).unwrap();
    assert_eq!(printed, value);
    assert_eq!(text, value.to_string());
}

#[test]
fn create_json_gives_each_payload_its_own_nonce() {
    let mut seen = std::collections::HashSet::new();
    for _ in 0..200 {
        let mut value = object(vec![("cmd", Value::from("X"))]);
        create_json(&mut value).unwrap();
        let nonce = value.get("nonce").unwrap().as_str().unwrap().to_string();
        assert!(seen.insert(nonce));
    }
}

#[test]
fn create_json_refuses_what_is_no_object() {
    let mut value = Value::Array(vec![]);
    assert_eq!(create_json(&mut value), Err(DiscordRPCError::PayloadNotObject));
    assert_eq!(value, Value::Array(vec![]));
    let mut text = Value::from("payload");
    assert_eq!(create_json(&mut text), Err(DiscordRPCError::PayloadNotObject));
    assert_eq!(text, Value::from("payload"));
}
