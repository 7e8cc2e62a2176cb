use aeron_cache_embedded_client::stream::{counter_socket_step, CloseOnce, CounterSocketStep, ReadOutcome};
use aeron_cache_embedded_client::bidi::frames::{
    bulk_frame, command_frame, counter_response, delete_item_response, put_item_response,
    subscribe_frame, subscribe_wire_frame, unsubscribe_frame,
};
use aeron_cache_embedded_client::bidi::router::{BidiDelivery, BidiRouter, RequestKind};
use aeron_cache_embedded_client::json::{sv, value_to_i64, value_to_string, JsonNumber, JsonValue};
use aeron_cache_embedded_client::model::{BulkOperationType, CacheOperationRequest};

fn s(x: &str) -> JsonValue {
    JsonValue::Str(x.to_string())
}

fn num(i: i64) -> JsonValue {
    JsonValue::Number(JsonNumber { text: i.to_string(), int_value: Some(i), truncated: i })
}

fn obj(fields: Vec<(&str, JsonValue)>) -> JsonValue {
    JsonValue::Object(fields.into_iter().map(|(k, v)| (k.to_string(), v)).collect())
}

fn item_value<'a>(items: &'a [(String, JsonValue)], key: &str) -> Option<&'a JsonValue> {
    items.iter().find(|(k, _)| k == key).map(|(_, v)| v)
}

#[test]
fn value_to_string_unquotes_strings_and_stringifies_others() {
    assert_eq!(value_to_string(&s("hello")), "hello");
    assert_eq!(value_to_string(&num(42)), "42");
    assert_eq!(value_to_string(&JsonValue::Null), "");
}

#[test]
fn value_to_i64_parses_numbers_and_numeric_strings() {
    assert_eq!(value_to_i64(&num(15)), 15);
    assert_eq!(value_to_i64(&s("100")), 100);
    assert_eq!(value_to_i64(&s("nope")), 0);
    assert_eq!(value_to_i64(&JsonValue::Null), 0);
}

#[test]
fn command_response_maps_status_and_fields() {
    let r = obj(vec![("cacheId", s("c1")), ("key", s("k1")), ("value", s("v1")), ("status", s("SUCCESS"))]);
    let put = put_item_response(&r);
    assert_eq!(put.cache_id, "c1");
    assert_eq!(put.key, "k1");
    assert_eq!(put.operation_status, "SUCCESS");
    let ctr = counter_response(&obj(vec![
        ("cacheId", s("c1")),
        ("key", s("hits")),
        ("value", num(12)),
        ("status", s("SUCCESS")),
    ]));
    assert_eq!(ctr.value, 12);
}

#[test]
fn dispatch_command_response_routes_by_correlation_id() {
    let mut router = BidiRouter::new();
    router.register(RequestKind::Command, "abc".to_string());
    let out = router.dispatch(obj(vec![
        ("type", s("commandResponse")),
        ("correlationId", s("abc")),
        ("status", s("SUCCESS")),
        ("cacheId", s("c1")),
    ]));
    assert_eq!(out.len(), 1);
    match &out[0] {
        BidiDelivery::Reply { correlation_id, frame } => {
            assert_eq!(correlation_id, "abc");
            assert_eq!(sv(frame, "status"), "SUCCESS");
        }
        other => panic!("unexpected delivery {:?}", other),
    }
}

#[test]
fn entries_accumulate_until_end_of_batch() {
    let mut router = BidiRouter::new();
    router.register(RequestKind::Entries, "e1".to_string());
    let first = router.dispatch(obj(vec![
        ("type", s("entries")),
        ("correlationId", s("e1")),
        ("status", s("SUCCESS")),
        ("cacheId", s("c1")),
        ("items", obj(vec![("a", s("1"))])),
        ("endOfBatch", JsonValue::Bool(false)),
    ]));
    assert!(first.is_empty(), "must not deliver before endOfBatch");
    let second = router.dispatch(obj(vec![
        ("type", s("entries")),
        ("correlationId", s("e1")),
        ("status", s("SUCCESS")),
        ("cacheId", s("c1")),
        ("items", obj(vec![("b", s("2"))])),
        ("endOfBatch", JsonValue::Bool(true)),
    ]));
    assert_eq!(second.len(), 1);
    match &second[0] {
        BidiDelivery::Entries { correlation_id, items, cache_id, status } => {
            assert_eq!(correlation_id, "e1");
            assert_eq!(cache_id, "c1");
            assert_eq!(status, "SUCCESS");
            assert_eq!(items.len(), 2);
            assert_eq!(value_to_string(item_value(items, "a").unwrap()), "1");
            assert_eq!(value_to_string(item_value(items, "b").unwrap()), "2");
        }
        other => panic!("unexpected delivery {:?}", other),
    }
}

#[test]
fn entries_are_delivered_in_ascending_key_order() {
    let mut router = BidiRouter::new();
    router.register(RequestKind::Entries, "e2".to_string());
    let _ = router.dispatch(obj(vec![
        ("type", s("entries")),
        ("correlationId", s("e2")),
        ("items", obj(vec![("pear", s("3")), ("apple", s("1"))])),
        ("endOfBatch", JsonValue::Bool(false)),
    ]));
    let out = router.dispatch(obj(vec![
        ("type", s("entries")),
        ("correlationId", s("e2")),
        ("items", obj(vec![("banana", s("2")), ("Zed", s("0"))])),
        ("endOfBatch", JsonValue::Bool(true)),
    ]));
    match &out[0] {
        BidiDelivery::Entries { items, .. } => {
            let keys: Vec<&str> = items.iter().map(|(k, _)| k.as_str()).collect();
            assert_eq!(keys, vec!["Zed", "apple", "banana", "pear"]);
        }
        other => panic!("unexpected delivery {:?}", other),
    }
}

#[test]
fn stats_frame_deserializes_stat_entries() {
    let mut router = BidiRouter::new();
    router.register(RequestKind::Stats, "s1".to_string());
    let out = router.dispatch(obj(vec![
        ("type", s("stats")),
        ("correlationId", s("s1")),
        ("status", s("SUCCESS")),
        ("endOfBatch", JsonValue::Bool(true)),
        (
            "stats",
            JsonValue::Array(vec![obj(vec![
                ("cacheId", s("c1")),
                ("addedCount", num(3)),
                ("removedCount", num(1)),
                ("clearedCount", num(0)),
                ("size", num(2)),
            ])]),
        ),
    ]));
    assert_eq!(out.len(), 1);
    match &out[0] {
        BidiDelivery::Stats { correlation_id, stats } => {
            assert_eq!(correlation_id, "s1");
            assert_eq!(stats.len(), 1);
            assert_eq!(stats[0].cache_id, "c1");
            assert_eq!(stats[0].added_count, 3);
            assert_eq!(stats[0].size, 2);
        }
        other => panic!("unexpected delivery {:?}", other),
    }
}

#[test]
fn stream_update_routes_to_cache_listener_by_cache_id() {
    let mut router = BidiRouter::new();
    router.add_listener(false, "c1".to_string(), "sub-1".to_string());
    // The stream update's correlation id names the causing command, not the subscription.
    let out = router.dispatch(obj(vec![
        ("type", s("streamUpdate")),
        ("correlationId", s("cmd-99")),
        ("eventType", s("ADD_ITEM")),
        ("cacheId", s("c1")),
        ("key", s("sk")),
        ("value", s("sv")),
    ]));
    assert_eq!(out.len(), 1);
    match &out[0] {
        BidiDelivery::CacheEvent { subscription, event } => {
            assert_eq!(subscription, "sub-1");
            assert_eq!(event.event_type, "ADD_ITEM");
            assert_eq!(event.item_key.as_deref(), Some("sk"));
            assert_eq!(event.item_value.as_deref(), Some("sv"));
            assert_eq!(event.request_id, "cmd-99");
        }
        other => panic!("unexpected delivery {:?}", other),
    }
}

#[test]
fn stream_update_parses_counter_values_as_numbers() {
    let mut router = BidiRouter::new();
    router.add_listener(true, "cc".to_string(), "sub-2".to_string());
    let out = router.dispatch(obj(vec![
        ("type", s("streamUpdate")),
        ("correlationId", s("cmd-1")),
        ("eventType", s("ADD_ITEM")),
        ("cacheId", s("cc")),
        ("key", s("hits")),
        ("value", num(15)),
    ]));
    assert_eq!(out.len(), 1);
    match &out[0] {
        BidiDelivery::CounterEvent { subscription, event } => {
            assert_eq!(subscription, "sub-2");
            assert_eq!(event.item_value, Some(15));
        }
        other => panic!("unexpected delivery {:?}", other),
    }
}

#[test]
fn error_frame_fails_the_matching_pending_command() {
    let mut router = BidiRouter::new();
    router.register(RequestKind::Command, "x".to_string());
    let out = router.dispatch(obj(vec![
        ("type", s("error")),
        ("correlationId", s("x")),
        ("status", s("BAD_REQUEST")),
        ("message", s("boom")),
    ]));
    assert_eq!(out.len(), 1);
    match &out[0] {
        BidiDelivery::Failed { kind, correlation_id, message } => {
            assert_eq!(*kind, RequestKind::Command);
            assert_eq!(correlation_id, "x");
            assert_eq!(message, "bidi error [BAD_REQUEST]: boom");
        }
        other => panic!("unexpected delivery {:?}", other),
    }
}

#[test]
fn reply_is_delivered_only_once() {
    let mut router = BidiRouter::new();
    router.register(RequestKind::Command, "once".to_string());
    let frame = || obj(vec![("type", s("commandResponse")), ("correlationId", s("once"))]);
    assert_eq!(router.dispatch(frame()).len(), 1);
    assert!(router.dispatch(frame()).is_empty());
}

#[test]
fn error_without_status_reads_error_and_fails_a_batch() {
    let mut router = BidiRouter::new();
    router.register(RequestKind::Timers, "t1".to_string());
    let out = router.dispatch(obj(vec![("type", s("error")), ("correlationId", s("t1"))]));
    assert_eq!(out.len(), 1);
    match &out[0] {
        BidiDelivery::Failed { kind, message, .. } => {
            assert_eq!(*kind, RequestKind::Timers);
            assert_eq!(message, "bidi error [ERROR]: ");
        }
        other => panic!("unexpected delivery {:?}", other),
    }
    assert!(!router.withdraw(RequestKind::Timers, "t1"));
}

#[test]
fn error_without_correlation_id_is_ignored() {
    let mut router = BidiRouter::new();
    router.register(RequestKind::Command, "".to_string());
    let out = router.dispatch(obj(vec![("type", s("error")), ("message", s("boom"))]));
    assert!(out.is_empty());
    assert!(router.withdraw(RequestKind::Command, ""));
}

#[test]
fn unknown_frames_and_unmatched_ids_deliver_nothing() {
    let mut router = BidiRouter::new();
    router.register(RequestKind::Command, "a".to_string());
    assert!(router.dispatch(obj(vec![("type", s("pong")), ("correlationId", s("a"))])).is_empty());
    assert!(router
        .dispatch(obj(vec![("type", s("commandResponse")), ("correlationId", s("b"))]))
        .is_empty());
    assert!(router.withdraw(RequestKind::Command, "a"));
}

#[test]
fn subscribe_ack_releases_the_waiting_subscriber() {
    let mut router = BidiRouter::new();
    router.register(RequestKind::SubscribeAck, "sub".to_string());
    let out = router.dispatch(obj(vec![("type", s("subscribed")), ("correlationId", s("sub"))]));
    assert_eq!(out.len(), 1);
    assert!(matches!(&out[0], BidiDelivery::Subscribed { correlation_id } if correlation_id == "sub"));
}

#[test]
fn bulk_responses_accumulate_and_skip_unreadable_items() {
    let mut router = BidiRouter::new();
    router.register(RequestKind::Bulk, "b1".to_string());
    let op = |rid: &str| {
        obj(vec![("requestId", s(rid)), ("status", s("SUCCESS")), ("cacheId", s("c")), ("key", s("k"))])
    };
    let first = router.dispatch(obj(vec![
        ("type", s("bulkResponse")),
        ("correlationId", s("b1")),
        ("operationResponses", JsonValue::Array(vec![op("r1"), num(7)])),
    ]));
    assert!(first.is_empty());
    let second = router.dispatch(obj(vec![
        ("type", s("bulkResponse")),
        ("correlationId", s("b1")),
        ("endOfBatch", JsonValue::Bool(true)),
        ("operationResponses", JsonValue::Array(vec![op("r2")])),
    ]));
    match &second[0] {
        BidiDelivery::Bulk { responses, .. } => {
            assert_eq!(responses.len(), 2);
            assert_eq!(responses[0].request_id, "r1");
            assert_eq!(responses[0].key.as_deref(), Some("k"));
            assert_eq!(responses[0].value, None);
            assert_eq!(responses[1].request_id, "r2");
        }
        other => panic!("unexpected delivery {:?}", other),
    }
}

#[test]
fn removed_listener_receives_no_more_updates() {
    let mut router = BidiRouter::new();
    router.add_listener(false, "c1".to_string(), "keep".to_string());
    router.add_listener(false, "c1".to_string(), "drop".to_string());
    router.add_listener(false, "c2".to_string(), "other".to_string());
    router.remove_listener(false, "c1", "drop");
    let out = router.dispatch(obj(vec![
        ("type", s("streamUpdate")),
        ("cacheId", s("c1")),
        ("eventType", s("REMOVE_ITEM")),
        ("key", s("k")),
    ]));
    assert_eq!(out.len(), 1);
    match &out[0] {
        BidiDelivery::CacheEvent { subscription, event } => {
            assert_eq!(subscription, "keep");
            assert_eq!(event.item_value, None);
            assert_eq!(event.request_id, "");
        }
        other => panic!("unexpected delivery {:?}", other),
    }
}

#[test]
fn fail_all_fails_every_pending_request_once() {
    let mut router = BidiRouter::new();
    router.register(RequestKind::Command, "c".to_string());
    router.register(RequestKind::Entries, "e".to_string());
    router.register(RequestKind::SubscribeAck, "s".to_string());
    let out = router.fail_all("bidi connection closed");
    assert_eq!(out.len(), 3);
    for d in &out {
        match d {
            BidiDelivery::Failed { message, .. } => assert_eq!(message, "bidi connection closed"),
            other => panic!("unexpected delivery {:?}", other),
        }
    }
    assert!(router.fail_all("again").is_empty());
}

#[test]
fn command_frame_lists_fields_in_key_order() {
    let f = command_frame("id1", "ADD_CACHE_ENTRY", Some("c1"), Some("k"), None, 0, 5);
    assert_eq!(
        f,
        r#"{"cacheId":"c1","correlationId":"id1","counterValue":5,"key":"k","op":"ADD_CACHE_ENTRY","ttl":0,"type":"command","value":null}"#
    );
}

#[test]
fn subscribe_and_unsubscribe_frames() {
    let f = subscribe_frame("id2", "c1", false, true, Some("k1"), Some("patch"));
    assert_eq!(
        f,
        r#"{"caches":[{"cacheId":"c1","key":"k1","mode":"PATCH"}],"correlationId":"id2","counters":false,"sendSnapshot":true,"type":"subscribe"}"#
    );
    let u = unsubscribe_frame("id3", "c1", true);
    assert_eq!(u, r#"{"cacheId":"c1","correlationId":"id3","counters":true,"type":"unsubscribe"}"#);
}

#[test]
fn subscribe_wire_frame_keeps_mode_as_given() {
    let f = subscribe_wire_frame("id4", "c2", true, false, None, Some("Patch"));
    assert_eq!(
        f,
        r#"{"caches":[{"cacheId":"c2","mode":"Patch"}],"correlationId":"id4","counters":true,"sendSnapshot":false,"type":"subscribe"}"#
    );
    let g = subscribe_wire_frame("id5", "c2", false, false, None, None);
    assert_eq!(
        g,
        r#"{"caches":[{"cacheId":"c2"}],"correlationId":"id5","counters":false,"sendSnapshot":false,"type":"subscribe"}"#
    );
}

#[test]
fn bulk_frame_omits_absent_fields() {
    let ops = vec![CacheOperationRequest {
        operation_type: BulkOperationType::AddItem,
        request_id: "r1".to_string(),
        cache_id: "c1".to_string(),
        key: Some("k1".to_string()),
        value: Some("v\"1".to_string()),
        ttl: None,
        counter_value: None,
    }];
    assert_eq!(
        bulk_frame("b", &ops),
        r#"{"correlationId":"b","operations":[{"cacheId":"c1","key":"k1","operationType":"ADD_ITEM","requestId":"r1","value":"v\"1"}],"type":"bulk"}"#
    );
}

#[test]
fn delete_item_response_reads_missing_fields_as_empty() {
    let d = delete_item_response(&obj(vec![("status", s("SUCCESS"))]));
    assert_eq!(d.cache_id, "");
    assert_eq!(d.key, "");
    assert_eq!(d.operation_status, "SUCCESS");
}

#[test]
fn stats_entries_may_be_written_as_arrays() {
    let mut router = BidiRouter::new();
    router.register(RequestKind::Stats, "s2".to_string());
    let out = router.dispatch(obj(vec![
        ("type", s("stats")),
        ("correlationId", s("s2")),
        ("endOfBatch", JsonValue::Bool(true)),
        (
            "stats",
            JsonValue::Array(vec![
                JsonValue::Array(vec![s("c2"), num(5)]),
                JsonValue::Array(vec![s("c3"), num(1), num(2), num(3), num(4), num(5)]),
                obj(vec![("cacheId", s("c4")), ("size", s("big"))]),
                obj(vec![("cacheId", s("c5")), ("unknown", num(1))]),
            ]),
        ),
    ]));
    match &out[0] {
        BidiDelivery::Stats { stats, .. } => {
            assert_eq!(stats.len(), 2);
            assert_eq!(stats[0].cache_id, "c2");
            assert_eq!(stats[0].added_count, 5);
            assert_eq!(stats[0].size, 0);
            assert_eq!(stats[1].cache_id, "c5");
        }
        other => panic!("unexpected delivery {:?}", other),
    }
}

#[test]
fn close_once_acts_only_the_first_time() {
    let mut latch = CloseOnce::new();
    assert!(latch.close());
    assert!(!latch.close());
    assert!(!latch.close());
}

#[test]
fn counter_socket_returns_messages_and_reconnects_on_errors() {
    assert_eq!(counter_socket_step(ReadOutcome::Text), CounterSocketStep::ApplyAndReturn);
    assert_eq!(counter_socket_step(ReadOutcome::Other), CounterSocketStep::Return);
    assert_eq!(counter_socket_step(ReadOutcome::Close), CounterSocketStep::Return);
    assert_eq!(counter_socket_step(ReadOutcome::Idle), CounterSocketStep::Reconnect);
    assert_eq!(counter_socket_step(ReadOutcome::Closed), CounterSocketStep::Reconnect);
    assert_eq!(counter_socket_step(ReadOutcome::Failed), CounterSocketStep::Reconnect);
}
