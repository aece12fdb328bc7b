use supermarket::credentials::{Credentials, Lookup};

fn text(value: &str) -> serde_json::Value {
    serde_json::Value::String(value.to_string())
}

fn found<'a>(lookup: Lookup<'a>) -> Option<&'a serde_json::Value> {
    match lookup {
        Lookup::Found(value) => value,
        Lookup::Unloaded => panic!("the store has been loaded"),
    }
}

#[test]
fn a_new_store_has_yet_to_read_its_file() {
    let store = Credentials::new();
    assert!(!store.is_loaded());
    assert!(matches!(store.get("jumbo"), Lookup::Unloaded));
    assert!(!Credentials::default().is_loaded());
}

#[test]
fn a_store_without_a_file_is_empty_once_loaded() {
    let mut store = Credentials::new();
    store.load(None);
    assert!(store.is_loaded());
    assert_eq!(found(store.get("jumbo")), None);
}

#[test]
fn load_takes_the_members_of_a_json_object() {
    let mut store = Credentials::new();
    store.load(Some(r#"{"jumbo": {"refresh_token": "r"}, "albert_heijn": null}"#));
    assert!(store.is_loaded());
    let kept = found(store.get("jumbo")).unwrap();
    assert_eq!(kept.get("refresh_token"), Some(&text("r")));
    assert_eq!(found(store.get("albert_heijn")), Some(&serde_json::Value::Null));
    assert_eq!(found(store.get("other")), None);
}

#[test]
fn load_replaces_all_that_was_kept() {
    let mut store = Credentials::new();
    store.set("old", text("o"));
    store.load(Some(r#"{"new": "n"}"#));
    assert_eq!(found(store.get("old")), None);
    assert_eq!(found(store.get("new")), Some(&text("n")));
}

#[test]
fn load_of_anything_but_a_json_object_changes_nothing() {
    for contents in ["", "not json", "[1, 2]", "\"text\"", "{\"open\": "] {
        let mut store = Credentials::new();
        store.set("kept", text("k"));
        store.load(Some(contents));
        assert!(store.is_loaded());
        assert_eq!(found(store.get("kept")), Some(&text("k")));
    }
}

#[test]
fn of_two_members_of_one_name_the_later_counts() {
    let mut store = Credentials::new();
    store.load(Some(r#"{"a": 1, "a": 2}"#));
    assert_eq!(found(store.get("a")), Some(&serde_json::Value::from(2)));
}

#[test]
fn set_keeps_a_value_and_get_finds_it() {
    let mut store = Credentials::new();
    store.load(None);
    store.set("jumbo", text("j"));
    store.set("albert_heijn", text("a"));
    assert_eq!(found(store.get("jumbo")), Some(&text("j")));
    assert_eq!(found(store.get("albert_heijn")), Some(&text("a")));
    assert_eq!(found(store.get("Jumbo")), None);
}

#[test]
fn set_replaces_what_was_kept_under_the_name() {
    let mut store = Credentials::new();
    store.load(None);
    store.set("jumbo", text("first"));
    store.set("albert_heijn", text("a"));
    store.set("jumbo", text("second"));
    assert_eq!(found(store.get("jumbo")), Some(&text("second")));
    assert_eq!(found(store.get("albert_heijn")), Some(&text("a")));
}

#[test]
fn set_does_not_count_as_reading_the_file() {
    let mut store = Credentials::new();
    store.set("jumbo", text("j"));
    assert!(!store.is_loaded());
}

#[test]
fn set_returns_the_store_as_json() {
    let mut store = Credentials::new();
    let written = store.set("jumbo", text("j")).unwrap();
    assert_eq!(written, r#"{"jumbo":"j"}"#);
    let written = store.set("albert_heijn", serde_json::Value::from(3)).unwrap();
    assert_eq!(written, r#"{"albert_heijn":3,"jumbo":"j"}"#);
    let written = store.set("jumbo", serde_json::Value::Null).unwrap();
    assert_eq!(written, r#"{"albert_heijn":3,"jumbo":null}"#);
}

#[test]
fn save_writes_the_members_in_the_order_of_their_names() {
    let mut store = Credentials::new();
    assert_eq!(store.save(), Some("{}".to_string()));
    store.set("b", text("2"));
    store.set("c", text("3"));
    store.set("a", text("1"));
    assert_eq!(store.save(), Some(r#"{"a":"1","b":"2","c":"3"}"#.to_string()));
    let mut other = Credentials::new();
    other.load(Some(r#"{"c": "3", "a": "1", "b": "2"}"#));
    assert_eq!(other.save(), store.save());
}

#[test]
fn save_writes_names_and_texts_as_json_strings() {
    let mut store = Credentials::new();
    store.set("a \"quoted\" name", text("line\nbreak"));
    assert_eq!(store.save(), Some(r#"{"a \"quoted\" name":"line\nbreak"}"#.to_string()));
}

#[test]
fn what_was_written_can_be_loaded_again() {
    let mut store = Credentials::new();
    store.set("jumbo", text("j"));
    let written = store.set("albert_heijn", text("a")).unwrap();
    assert_eq!(store.save(), Some(written.clone()));
    let mut again = Credentials::new();
    again.load(Some(&written));
    assert_eq!(found(again.get("jumbo")), Some(&text("j")));
    assert_eq!(found(again.get("albert_heijn")), Some(&text("a")));
}
