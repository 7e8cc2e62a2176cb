use aeron_cache_embedded_client::error::CacheError;
use aeron_cache_embedded_client::json::{JsonNumber, JsonValue};
use aeron_cache_embedded_client::model::{
    CacheUpdateEvent, CounterUpdateEvent, CounterResponse, CreateResponse, DeleteCacheResponse, DeleteItemResponse,
    GetItemResponse, PatchItemResponse, PutItemResponse,
};
use aeron_cache_embedded_client::transport::{
    CacheSubscription, CacheTransport, TransportCall, TransportReply,
};
use aeron_cache_embedded_client::unified_cache::{EmbeddedCache, EmbeddedCounters, EmbeddedObjects};
use std::cell::RefCell;

/// A subscription that hands over the events queued in it.
struct NoSubscription {
    cache_events: Vec<CacheUpdateEvent>,
    counter_events: Vec<CounterUpdateEvent>,
}

impl CacheSubscription for NoSubscription {
    fn take_cache_events(&mut self) -> Vec<CacheUpdateEvent> {
        std::mem::take(&mut self.cache_events)
    }

    fn take_counter_events(&mut self) -> Vec<CounterUpdateEvent> {
        std::mem::take(&mut self.counter_events)
    }
}

fn no_events() -> NoSubscription {
    NoSubscription { cache_events: Vec::new(), counter_events: Vec::new() }
}

/// A transport that records each call as text and answers with success.
struct Recorder {
    calls: RefCell<Vec<String>>,
}

impl Recorder {
    fn new() -> Self {
        Recorder { calls: RefCell::new(Vec::new()) }
    }

    fn log(&self, s: String) {
        self.calls.borrow_mut().push(s);
    }

    fn put(&self, cache_id: &str, key: &str) -> Result<PutItemResponse, CacheError> {
        Ok(PutItemResponse {
            cache_id: cache_id.to_string(),
            key: key.to_string(),
            status: "OK".to_string(),
            operation_status: "SUCCESS".to_string(),
        })
    }

    fn counter(&self, cache_id: &str, key: &str, value: i64) -> Result<CounterResponse, CacheError> {
        Ok(CounterResponse {
            cache_id: cache_id.to_string(),
            key: key.to_string(),
            value,
            operation_status: "SUCCESS".to_string(),
        })
    }

    fn deleted(&self, cache_id: &str, key: &str) -> Result<DeleteItemResponse, CacheError> {
        Ok(DeleteItemResponse {
            cache_id: cache_id.to_string(),
            key: key.to_string(),
            operation_status: "SUCCESS".to_string(),
        })
    }

    fn dropped(&self, cache_id: &str) -> Result<DeleteCacheResponse, CacheError> {
        Ok(DeleteCacheResponse { cache_id: cache_id.to_string(), operation_status: "SUCCESS".to_string() })
    }
}

impl CacheTransport for Recorder {
    type Subscription = NoSubscription;

    fn served(&self, _call: TransportCall, _reply: TransportReply) -> bool {
        true
    }

    fn subscribed(&self, _call: TransportCall, _r: Result<NoSubscription, CacheError>) -> bool {
        true
    }

    fn put_item(&self, cache_id: &str, key: &str, value: &str) -> Result<PutItemResponse, CacheError> {
        self.log(format!("put {} {} {}", cache_id, key, value));
        self.put(cache_id, key)
    }

    fn put_timed_item(&self, cache_id: &str, key: &str, value: &str, ttl: i64) -> Result<PutItemResponse, CacheError> {
        self.log(format!("put_timed {} {} {} {}", cache_id, key, value, ttl));
        self.put(cache_id, key)
    }

    fn patch_item(&self, cache_id: &str, key: &str, value: &str) -> Result<PatchItemResponse, CacheError> {
        self.log(format!("patch {} {} {}", cache_id, key, value));
        Ok(PatchItemResponse {
            cache_id: cache_id.to_string(),
            key: key.to_string(),
            operation_status: "SUCCESS".to_string(),
        })
    }

    fn get_item(&self, cache_id: &str, key: &str) -> Result<GetItemResponse, CacheError> {
        self.log(format!("get {} {}", cache_id, key));
        Ok(GetItemResponse {
            cache_id: cache_id.to_string(),
            key: key.to_string(),
            value: "{}".to_string(),
            operation_status: "SUCCESS".to_string(),
        })
    }

    fn delete_item(&self, cache_id: &str, key: &str) -> Result<DeleteItemResponse, CacheError> {
        self.log(format!("delete {} {}", cache_id, key));
        self.deleted(cache_id, key)
    }

    fn delete_cache(&self, cache_id: &str) -> Result<DeleteCacheResponse, CacheError> {
        self.log(format!("delete_cache {}", cache_id));
        self.dropped(cache_id)
    }

    fn create_counter_cache(&self, cache_id: &str) -> Result<CreateResponse, CacheError> {
        Ok(CreateResponse { cache_id: cache_id.to_string(), operation_status: "SUCCESS".to_string() })
    }

    fn put_counter(&self, cache_id: &str, key: &str, _value: i64) -> Result<PutItemResponse, CacheError> {
        self.put(cache_id, key)
    }

    fn put_timed_counter(&self, cache_id: &str, key: &str, _value: i64, _ttl: i64) -> Result<PutItemResponse, CacheError> {
        self.put(cache_id, key)
    }

    fn get_counter(&self, cache_id: &str, key: &str) -> Result<CounterResponse, CacheError> {
        self.counter(cache_id, key, 0)
    }

    fn increment_counter(&self, cache_id: &str, key: &str, amount: i64) -> Result<CounterResponse, CacheError> {
        self.counter(cache_id, key, amount)
    }

    fn decrement_counter(&self, cache_id: &str, key: &str, amount: i64) -> Result<CounterResponse, CacheError> {
        self.counter(cache_id, key, -amount)
    }

    fn set_counter(&self, cache_id: &str, key: &str, value: i64) -> Result<CounterResponse, CacheError> {
        self.counter(cache_id, key, value)
    }

    fn delete_counter(&self, cache_id: &str, key: &str) -> Result<DeleteItemResponse, CacheError> {
        self.deleted(cache_id, key)
    }

    fn delete_counter_cache(&self, cache_id: &str) -> Result<DeleteCacheResponse, CacheError> {
        self.dropped(cache_id)
    }

    fn subscribe_cache_updates(&self, cache_id: &str, hydrate: bool) -> Result<NoSubscription, CacheError> {
        self.log(format!("subscribe {} {}", cache_id, hydrate));
        Ok(no_events())
    }

    fn subscribe_counter_updates(&self, cache_id: &str, hydrate: bool) -> Result<NoSubscription, CacheError> {
        self.log(format!("subscribe_counters {} {}", cache_id, hydrate));
        Ok(no_events())
    }
}

fn num(i: i64) -> JsonValue {
    JsonValue::Number(JsonNumber { text: i.to_string(), int_value: Some(i), truncated: i })
}

fn obj(fields: Vec<(&str, JsonValue)>) -> JsonValue {
    JsonValue::Object(fields.into_iter().map(|(k, v)| (k.to_string(), v)).collect())
}

fn event(event_type: &str, key: Option<&str>, value: Option<&str>) -> CacheUpdateEvent {
    CacheUpdateEvent {
        cache_id: "docs".to_string(),
        event_type: event_type.to_string(),
        item_key: key.map(|s| s.to_string()),
        item_value: value.map(|s| s.to_string()),
        request_id: "1".to_string(),
    }
}

fn field<'a>(v: &'a JsonValue, name: &str) -> Option<&'a JsonValue> {
    match v {
        JsonValue::Object(fields) => fields.iter().find(|(k, _)| k == name).map(|(_, v)| v),
        _ => None,
    }
}

fn int_of(v: Option<&JsonValue>) -> Option<i64> {
    match v {
        Some(JsonValue::Number(n)) => n.int_value,
        _ => None,
    }
}

#[test]
fn object_view_sends_compact_json_text() {
    let t = Recorder::new();
    let view = EmbeddedObjects::new(&t, "docs".to_string());
    let doc = obj(vec![("a", num(1)), ("s", JsonValue::Str("x\"y".to_string()))]);
    view.insert("k", &doc).unwrap();
    view.insert_timed("k", &doc, 50).unwrap();
    view.patch("k", &obj(vec![("b", JsonValue::Null)])).unwrap();
    view.get("k").unwrap();
    view.remove("k").unwrap();
    view.clear().unwrap();
    let _ = view.subscribe_ext(true).unwrap();
    assert_eq!(
        *t.calls.borrow(),
        vec![
            r#"put docs k {"a":1,"s":"x\"y"}"#.to_string(),
            r#"put_timed docs k {"a":1,"s":"x\"y"} 50"#.to_string(),
            r#"patch docs k {"b":null}"#.to_string(),
            "get docs k".to_string(),
            "delete docs k".to_string(),
            "delete_cache docs".to_string(),
            "subscribe docs true".to_string(),
        ]
    );
}

#[test]
fn object_view_deep_merges_patch_events() {
    let t = Recorder::new();
    let mut view = EmbeddedObjects::new(&t, "docs".to_string());
    view.apply_update(
        event("ADD_ITEM", Some("doc"), Some(r#"{"a":1,"b":{"c":2}}"#)),
        Some(obj(vec![("a", num(1)), ("b", obj(vec![("c", num(2))]))])),
    );
    view.apply_update(
        event("PATCH_ITEM", Some("doc"), Some(r#"{"b":{"d":3},"a":null}"#)),
        Some(obj(vec![("b", obj(vec![("d", num(3))])), ("a", JsonValue::Null)])),
    );
    let doc = view.get_local("doc").unwrap();
    assert!(field(doc, "a").is_none());
    let b = field(doc, "b").unwrap();
    assert_eq!(int_of(field(b, "c")), Some(2));
    assert_eq!(int_of(field(b, "d")), Some(3));
    assert_eq!(view.local_snapshot().len(), 1);
    view.apply_update(event("REMOVE_ITEM", Some("doc"), None), None);
    assert!(view.get_local("doc").is_none());
}

#[test]
fn object_view_ignores_values_that_are_not_well_formed() {
    let t = Recorder::new();
    let mut view = EmbeddedObjects::new(&t, "docs".to_string());
    // A duplicated field name is not a well-formed object.
    view.apply_update(
        event("ADD_ITEM", Some("doc"), Some(r#"{"a":1,"a":2}"#)),
        Some(obj(vec![("a", num(1)), ("a", num(2))])),
    );
    assert!(view.get_local("doc").is_none());
    // A number whose parts disagree is not well formed either.
    let bad = JsonValue::Number(JsonNumber { text: "7".to_string(), int_value: Some(8), truncated: 8 });
    view.apply_update(event("ADD_ITEM", Some("doc"), Some(r#"{"n":7}"#)), Some(obj(vec![("n", bad)])));
    assert!(view.get_local("doc").is_none());
    // A non-object value is not stored.
    view.apply_update(event("ADD_ITEM", Some("doc"), Some("5")), Some(num(5)));
    assert!(view.get_local("doc").is_none());
}

fn counter_event(event_type: &str, key: Option<&str>, value: Option<i64>) -> CounterUpdateEvent {
    CounterUpdateEvent {
        cache_id: "n".to_string(),
        event_type: event_type.to_string(),
        item_key: key.map(|s| s.to_string()),
        item_value: value,
        request_id: "1".to_string(),
    }
}

#[test]
fn cache_view_sync_applies_received_events_in_order() {
    let t = Recorder::new();
    let mut view = EmbeddedCache::new(&t, "docs".to_string());
    let mut sub = view.subscribe_ext(true).unwrap();
    assert_eq!(*t.calls.borrow(), vec!["subscribe docs true".to_string()]);
    sub.cache_events = vec![
        event("ADD_ITEM", Some("a"), Some("1")),
        event("ADD_ITEM", Some("b"), Some("2")),
        event("REMOVE_ITEM", Some("a"), None),
        event("ADD_ITEM", Some("b"), Some("3")),
        event("PATCH_ITEM", Some("b"), Some("{}")),
    ];
    view.sync(&mut sub);
    assert_eq!(view.get_local("a"), None);
    assert_eq!(view.get_local("b"), Some("3".to_string()));
    // Events already taken are not applied again.
    view.apply_update(event("ADD_ITEM", Some("c"), Some("9")));
    view.sync(&mut sub);
    assert_eq!(view.local_snapshot().len(), 2);
    view.apply_updates(vec![event("CLEAR_CACHE", None, None), event("ADD_ITEM", Some("z"), Some("0"))]);
    assert_eq!(view.local_snapshot(), vec![("z".to_string(), "0".to_string())]);
}

#[test]
fn counter_view_sync_applies_counter_events() {
    let t = Recorder::new();
    let mut view = EmbeddedCounters::new(&t, "n".to_string());
    let mut sub = view.subscribe().unwrap();
    assert_eq!(*t.calls.borrow(), vec!["subscribe_counters n false".to_string()]);
    sub.counter_events = vec![
        counter_event("ADD_ITEM", Some("hits"), Some(5)),
        counter_event("ADD_ITEM", Some("miss"), Some(1)),
        counter_event("REMOVE_ITEM", Some("miss"), None),
        counter_event("ADD_ITEM", Some("hits"), Some(6)),
    ];
    view.sync(&mut sub);
    assert_eq!(view.get_local("hits"), Some(6));
    assert_eq!(view.get_local("miss"), None);
    sub.counter_events = vec![counter_event("DELETE_CACHE", None, None)];
    view.sync(&mut sub);
    assert!(view.local_snapshot().is_empty());
}
