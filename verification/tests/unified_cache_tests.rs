use aeron_cache_embedded_client::json::{
    deep_merge, json_is_wf, number_is_wf, update_object_local, value_to_string, JsonNumber, JsonValue,
};
use aeron_cache_embedded_client::mirror::LocalMirror;
use aeron_cache_embedded_client::model::{CacheUpdateEvent, CounterUpdateEvent};
use aeron_cache_embedded_client::unified_cache::{update_cache_local, update_counter_local};

fn num(i: i64) -> JsonValue {
    JsonValue::Number(JsonNumber { text: i.to_string(), int_value: Some(i), truncated: i })
}

fn obj(fields: Vec<(&str, JsonValue)>) -> JsonValue {
    JsonValue::Object(fields.into_iter().map(|(k, v)| (k.to_string(), v)).collect())
}

/// Structural equality of JSON values, objects compared as maps.
fn same(a: &JsonValue, b: &JsonValue) -> bool {
    match (a, b) {
        (JsonValue::Null, JsonValue::Null) => true,
        (JsonValue::Bool(x), JsonValue::Bool(y)) => x == y,
        (JsonValue::Number(x), JsonValue::Number(y)) => x.text == y.text,
        (JsonValue::Str(x), JsonValue::Str(y)) => x == y,
        (JsonValue::Array(x), JsonValue::Array(y)) => {
            x.len() == y.len() && x.iter().zip(y.iter()).all(|(p, q)| same(p, q))
        }
        (JsonValue::Object(x), JsonValue::Object(y)) => {
            x.len() == y.len()
                && x.iter().all(|(k, v)| y.iter().any(|(k2, v2)| k == k2 && same(v, v2)))
        }
        _ => false,
    }
}

fn event(event_type: &str, key: Option<&str>, value: Option<&str>) -> CacheUpdateEvent {
    CacheUpdateEvent {
        cache_id: "test-cache".to_string(),
        event_type: event_type.to_string(),
        item_key: key.map(|s| s.to_string()),
        item_value: value.map(|s| s.to_string()),
        request_id: "123".to_string(),
    }
}

fn counter_event(event_type: &str, key: Option<&str>, value: Option<i64>) -> CounterUpdateEvent {
    CounterUpdateEvent {
        cache_id: "counters".to_string(),
        event_type: event_type.to_string(),
        item_key: key.map(|s| s.to_string()),
        item_value: value,
        request_id: "1".to_string(),
    }
}

#[test]
fn deep_merge_recurses_and_preserves_untouched_fields() {
    let merged = deep_merge(
        obj(vec![("a", num(1)), ("b", obj(vec![("c", num(2))]))]),
        obj(vec![("b", obj(vec![("d", num(3))]))]),
    );
    assert!(same(&merged, &obj(vec![("a", num(1)), ("b", obj(vec![("c", num(2)), ("d", num(3))]))])));
}

#[test]
fn deep_merge_null_deletes_field() {
    let merged = deep_merge(obj(vec![("a", num(1)), ("b", num(2))]), obj(vec![("b", JsonValue::Null)]));
    assert!(same(&merged, &obj(vec![("a", num(1))])));
}

#[test]
fn deep_merge_replaces_scalars_and_arrays() {
    let merged = deep_merge(
        obj(vec![("n", num(1)), ("list", JsonValue::Array(vec![num(1), num(2), num(3)]))]),
        obj(vec![("n", num(9)), ("list", JsonValue::Array(vec![num(4)]))]),
    );
    assert!(same(&merged, &obj(vec![("n", num(9)), ("list", JsonValue::Array(vec![num(4)]))])));
}

#[test]
fn deep_merge_with_non_object_patch_replaces_target() {
    let merged = deep_merge(obj(vec![("a", num(1))]), num(5));
    assert!(same(&merged, &num(5)));
}

#[test]
fn deep_merge_is_idempotent_on_example() {
    let patch = || obj(vec![("b", obj(vec![("d", num(3)), ("c", JsonValue::Null)]))]);
    let once = deep_merge(obj(vec![("a", num(1)), ("b", obj(vec![("c", num(2))]))]), patch());
    let twice = deep_merge(
        deep_merge(obj(vec![("a", num(1)), ("b", obj(vec![("c", num(2))]))]), patch()),
        patch(),
    );
    assert!(same(&once, &twice));
    assert!(same(&twice, &obj(vec![("a", num(1)), ("b", obj(vec![("d", num(3))]))])));
}

#[test]
fn update_object_local_add_then_patch_merges() {
    let mut local: LocalMirror<JsonValue> = LocalMirror::new();
    update_object_local(
        &mut local,
        event("ADD_ITEM", Some("doc"), Some(r#"{"a":1,"b":{"c":2}}"#)),
        Some(obj(vec![("a", num(1)), ("b", obj(vec![("c", num(2))]))])),
    );
    update_object_local(
        &mut local,
        event("PATCH_ITEM", Some("doc"), Some(r#"{"b":{"d":3}}"#)),
        Some(obj(vec![("b", obj(vec![("d", num(3))]))])),
    );
    assert!(same(
        local.get("doc").unwrap(),
        &obj(vec![("a", num(1)), ("b", obj(vec![("c", num(2)), ("d", num(3))]))])
    ));
}

#[test]
fn update_object_local_patch_on_absent_key_starts_from_delta() {
    let mut local: LocalMirror<JsonValue> = LocalMirror::new();
    update_object_local(
        &mut local,
        event("PATCH_ITEM", Some("doc"), Some(r#"{"a":1}"#)),
        Some(obj(vec![("a", num(1))])),
    );
    assert!(same(local.get("doc").unwrap(), &obj(vec![("a", num(1))])));
}

#[test]
fn update_object_local_remove_and_clear() {
    let mut local: LocalMirror<JsonValue> = LocalMirror::new();
    update_object_local(&mut local, event("ADD_ITEM", Some("doc"), Some(r#"{"a":1}"#)), Some(obj(vec![("a", num(1))])));
    update_object_local(&mut local, event("REMOVE_ITEM", Some("doc"), None), None);
    assert!(local.get("doc").is_none());
    update_object_local(&mut local, event("ADD_ITEM", Some("doc"), Some(r#"{"a":1}"#)), Some(obj(vec![("a", num(1))])));
    update_object_local(&mut local, event("CLEAR_CACHE", None, None), None);
    assert_eq!(local.len(), 0);
}

#[test]
fn update_object_local_ignores_non_object_values() {
    let mut local: LocalMirror<JsonValue> = LocalMirror::new();
    update_object_local(&mut local, event("ADD_ITEM", Some("doc"), Some("7")), Some(num(7)));
    update_object_local(&mut local, event("ADD_ITEM", Some("bad"), Some("{")), None);
    assert_eq!(local.len(), 0);
}

#[test]
fn update_cache_local_ignores_patch_item() {
    let mut local: LocalMirror<String> = LocalMirror::new();
    update_cache_local(&mut local, event("ADD_ITEM", Some("doc"), Some(r#"{"a":1,"b":2}"#)));
    // A stray PATCH_ITEM delta must NOT clobber the full stored value in the string mirror.
    update_cache_local(&mut local, event("PATCH_ITEM", Some("doc"), Some(r#"{"b":3}"#)));
    assert_eq!(local.get("doc").unwrap(), r#"{"a":1,"b":2}"#);
}

#[test]
fn update_cache_local_add_remove_and_clear() {
    let mut local: LocalMirror<String> = LocalMirror::new();
    update_cache_local(&mut local, event("ADD_ITEM", Some("a"), Some("1")));
    update_cache_local(&mut local, event("ADD_ITEM", Some("b"), Some("2")));
    update_cache_local(&mut local, event("ADD_ITEM", Some("c"), None));
    assert_eq!(local.get("a").unwrap(), "1");
    assert!(local.get("c").is_none());
    update_cache_local(&mut local, event("REMOVE_ITEM", Some("a"), None));
    assert!(local.get("a").is_none());
    assert_eq!(local.get("b").unwrap(), "2");
    update_cache_local(&mut local, event("DELETE_CACHE", None, None));
    assert_eq!(local.len(), 0);
}

#[test]
fn update_counter_local_applies_counter_events() {
    let mut local: LocalMirror<i64> = LocalMirror::new();
    update_counter_local(&mut local, counter_event("ADD_ITEM", Some("hits"), Some(3)));
    update_counter_local(&mut local, counter_event("ADD_ITEM", Some("hits"), Some(5)));
    update_counter_local(&mut local, counter_event("UPDATE_ITEM", Some("hits"), Some(9)));
    assert_eq!(*local.get("hits").unwrap(), 5);
    update_counter_local(&mut local, counter_event("REMOVE_ITEM", Some("hits"), None));
    assert!(local.get("hits").is_none());
    update_counter_local(&mut local, counter_event("ADD_ITEM", Some("x"), Some(1)));
    update_counter_local(&mut local, counter_event("CLEAR_CACHE", None, None));
    assert_eq!(local.len(), 0);
}

#[test]
fn local_mirror_read_after_write_and_remove() {
    let mut m: LocalMirror<String> = LocalMirror::new();
    m.insert("k".to_string(), "v1".to_string());
    m.insert("k".to_string(), "v2".to_string());
    m.insert("j".to_string(), "w".to_string());
    assert_eq!(m.len(), 2);
    assert_eq!(m.get("k").unwrap(), "v2");
    assert!(m.contains_key("j"));
    assert_eq!(m.remove("k"), Some("v2".to_string()));
    assert_eq!(m.remove("k"), None);
    assert_eq!(m.len(), 1);
    let snapshot = m.into_entries();
    assert_eq!(snapshot, vec![("j".to_string(), "w".to_string())]);
    assert_eq!(value_to_string(&num(3)), "3");
}

#[test]
fn well_formedness_checks_names_and_numbers_at_every_depth() {
    assert!(json_is_wf(&obj(vec![("a", num(-12)), ("b", JsonValue::Array(vec![num(0), obj(vec![])]))])));
    assert!(!json_is_wf(&obj(vec![("a", num(1)), ("a", num(1))])));
    let nested_dup = JsonValue::Array(vec![obj(vec![("x", JsonValue::Null), ("x", JsonValue::Null)])]);
    assert!(!json_is_wf(&nested_dup));
    let float = JsonNumber { text: "1.5".to_string(), int_value: None, truncated: 1 };
    assert!(number_is_wf(&float));
    let big = JsonNumber { text: "18446744073709551615".to_string(), int_value: None, truncated: i64::MAX };
    assert!(number_is_wf(&big));
    let wrong_text = JsonNumber { text: "07".to_string(), int_value: Some(7), truncated: 7 };
    assert!(!number_is_wf(&wrong_text));
    let missing_int = JsonNumber { text: "7".to_string(), int_value: None, truncated: 7 };
    assert!(!number_is_wf(&missing_int));
    let wrong_trunc = JsonNumber { text: "7".to_string(), int_value: Some(7), truncated: 6 };
    assert!(!number_is_wf(&wrong_trunc));
}
