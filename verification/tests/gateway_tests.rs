use aeron_cache_embedded_client::gateway::{
    counter_response, event_type_name, map_bool, map_bulk_op, map_mode, status_name,
    CommandResponse,
};
use aeron_cache_embedded_client::messages::{
    BooleanType, BulkOperationType as WireBulkOp, OperationStatus, SubscriptionMode, UpdateEventType,
};
use aeron_cache_embedded_client::model::BulkOperationType;

#[test]
fn map_mode_recognizes_patch_case_insensitively() {
    assert_eq!(map_mode(Some("patch")), SubscriptionMode::PATCH);
    assert_eq!(map_mode(Some("PATCH")), SubscriptionMode::PATCH);
    assert_eq!(map_mode(Some("full")), SubscriptionMode::FULL);
    assert_eq!(map_mode(None), SubscriptionMode::FULL);
}

#[test]
fn map_mode_ignores_ascii_case_only() {
    assert_eq!(map_mode(Some("Patch")), SubscriptionMode::PATCH);
    assert_eq!(map_mode(Some("patches")), SubscriptionMode::FULL);
    assert_eq!(map_mode(Some("")), SubscriptionMode::FULL);
}

#[test]
fn bulk_ops_map_by_name_not_ordinal() {
    assert_eq!(map_bulk_op(&BulkOperationType::AddItem), WireBulkOp::ADD_ITEM);
    assert_eq!(map_bulk_op(&BulkOperationType::IncrementCounter), WireBulkOp::INCREMENT_COUNTER);
    assert_eq!(map_bulk_op(&BulkOperationType::NoOp), WireBulkOp::NONE);
    assert_eq!(map_bulk_op(&BulkOperationType::PatchItem), WireBulkOp::PATCH_ITEM);
}

#[test]
fn booleans_and_names_map_onto_the_wire() {
    assert_eq!(map_bool(true), BooleanType::T);
    assert_eq!(map_bool(false), BooleanType::F);
    assert_eq!(status_name(OperationStatus::SUCCESS), "SUCCESS");
    assert_eq!(event_type_name(UpdateEventType::ADD_ITEM), "ADD_ITEM");
}

#[test]
fn wire_codes_round_trip() {
    for v in 0u8..=255 {
        let m = SubscriptionMode::from(v);
        if m != SubscriptionMode::NullVal {
            assert_eq!(m.code(), v);
        }
        let s = OperationStatus::from(v);
        if s != OperationStatus::NullVal {
            assert_eq!(s.code(), v);
        }
        let e = UpdateEventType::from(v);
        if e != UpdateEventType::NullVal {
            assert_eq!(e.code(), v);
        }
    }
    assert_eq!(BooleanType::from(BooleanType::T.code()), BooleanType::T);
}

#[test]
fn counter_response_parses_value_or_zero() {
    let r = CommandResponse {
        status: "SUCCESS".to_string(),
        cache_id: "c".to_string(),
        key: "k".to_string(),
        value: "42".to_string(),
    };
    assert_eq!(counter_response(&r).value, 42);
    let r = CommandResponse { value: "x".to_string(), ..r };
    assert_eq!(counter_response(&r).value, 0);
}

use aeron_cache_embedded_client::bidi::router::RequestKind;
use aeron_cache_embedded_client::gateway::router::{
    DecodedOp, GatewayDelivery, GatewayFrame, GatewayRouter,
};
use aeron_cache_embedded_client::model::{CacheItem, GatewayStat};

fn item(k: &str, v: &str) -> CacheItem {
    CacheItem { key: k.to_string(), value: v.to_string() }
}

#[test]
fn gateway_bulk_response_routes_to_pending_request() {
    let mut router = GatewayRouter::new();
    router.register(RequestKind::Bulk, "batch-1".to_string());
    let out = router.dispatch(GatewayFrame::BulkResponse {
        operations: vec![
            DecodedOp {
                status: OperationStatus::SUCCESS,
                request_id: "r1".to_string(),
                cache_id: "c1".to_string(),
                key: "k1".to_string(),
                value: "".to_string(),
            },
            DecodedOp {
                status: OperationStatus::UNKNOWN_KEY,
                request_id: "r2".to_string(),
                cache_id: "c2".to_string(),
                key: "".to_string(),
                value: "v".to_string(),
            },
        ],
        correlation_id: "batch-1".to_string(),
    });
    assert_eq!(out.len(), 1);
    match &out[0] {
        GatewayDelivery::Bulk { correlation_id, response } => {
            assert_eq!(correlation_id, "batch-1");
            assert_eq!(response.request_id, "batch-1");
            assert_eq!(response.operation_responses.len(), 2);
            assert_eq!(response.operation_responses[0].status, "SUCCESS");
            assert_eq!(response.operation_responses[0].key.as_deref(), Some("k1"));
            assert_eq!(response.operation_responses[0].value, None);
            assert_eq!(response.operation_responses[1].status, "UNKNOWN_KEY");
            assert_eq!(response.operation_responses[1].key, None);
        }
        other => panic!("unexpected delivery {:?}", other),
    }
    assert!(!router.withdraw(RequestKind::Bulk, "batch-1"));
}

#[test]
fn gateway_subscribe_ack_completes_the_barrier() {
    let mut router = GatewayRouter::new();
    router.register(RequestKind::SubscribeAck, "sub-1".to_string());
    let out = router.dispatch(GatewayFrame::SubscribeAck { correlation_id: "sub-1".to_string() });
    assert_eq!(out.len(), 1);
    assert!(matches!(&out[0], GatewayDelivery::Subscribed { correlation_id } if correlation_id == "sub-1"));
    assert!(router.dispatch(GatewayFrame::SubscribeAck { correlation_id: "sub-1".to_string() }).is_empty());
}

#[test]
fn gateway_entries_and_stats_accumulate_until_end_of_batch() {
    let mut router = GatewayRouter::new();
    router.register(RequestKind::Entries, "e".to_string());
    router.register(RequestKind::Stats, "s".to_string());
    assert!(router
        .dispatch(GatewayFrame::Entries {
            status: OperationStatus::SUCCESS,
            end_of_batch: BooleanType::F,
            items: vec![item("a", "1")],
            correlation_id: "e".to_string(),
            cache_id: "c1".to_string(),
        })
        .is_empty());
    let out = router.dispatch(GatewayFrame::Entries {
        status: OperationStatus::SUCCESS,
        end_of_batch: BooleanType::T,
        items: vec![item("b", "2")],
        correlation_id: "e".to_string(),
        cache_id: "c1".to_string(),
    });
    match &out[0] {
        GatewayDelivery::Entries { response, .. } => {
            assert_eq!(response.cache_id, "c1");
            assert_eq!(response.operation_status, "SUCCESS");
            assert_eq!(response.items.len(), 2);
            assert_eq!(response.items[0].key, "a");
            assert_eq!(response.items[1].value, "2");
        }
        other => panic!("unexpected delivery {:?}", other),
    }
    let stat = GatewayStat { cache_id: "c1".to_string(), added_count: 3, removed_count: 1, cleared_count: 0, size: 2 };
    let out = router.dispatch(GatewayFrame::Stats {
        end_of_batch: BooleanType::T,
        stats: vec![stat],
        correlation_id: "s".to_string(),
    });
    match &out[0] {
        GatewayDelivery::Stats { stats, .. } => {
            assert_eq!(stats.len(), 1);
            assert_eq!(stats[0].added_count, 3);
        }
        other => panic!("unexpected delivery {:?}", other),
    }
}

#[test]
fn gateway_stream_update_reaches_listeners_by_cache_id() {
    let mut router = GatewayRouter::new();
    router.add_listener(false, "c1".to_string(), 1);
    router.add_listener(false, "c2".to_string(), 2);
    router.add_listener(true, "c1".to_string(), 3);
    let out = router.dispatch(GatewayFrame::StreamUpdate {
        event_type: UpdateEventType::ADD_ITEM,
        cache_id: "c1".to_string(),
        key: "k".to_string(),
        value: "15".to_string(),
        correlation_id: "cmd".to_string(),
    });
    assert_eq!(out.len(), 2);
    match &out[0] {
        GatewayDelivery::CacheEvent { listener, event } => {
            assert_eq!(*listener, 1);
            assert_eq!(event.event_type, "ADD_ITEM");
            assert_eq!(event.item_value.as_deref(), Some("15"));
        }
        other => panic!("unexpected delivery {:?}", other),
    }
    match &out[1] {
        GatewayDelivery::CounterEvent { listener, event } => {
            assert_eq!(*listener, 3);
            assert_eq!(event.item_value, Some(15));
            assert_eq!(event.item_key.as_deref(), Some("k"));
        }
        other => panic!("unexpected delivery {:?}", other),
    }
    router.remove_listeners(false, "c1");
    let out = router.dispatch(GatewayFrame::StreamUpdate {
        event_type: UpdateEventType::CLEAR_CACHE,
        cache_id: "c1".to_string(),
        key: "".to_string(),
        value: "".to_string(),
        correlation_id: "".to_string(),
    });
    assert_eq!(out.len(), 1);
    match &out[0] {
        GatewayDelivery::CounterEvent { event, .. } => {
            assert_eq!(event.item_key, None);
            assert_eq!(event.item_value, None);
        }
        other => panic!("unexpected delivery {:?}", other),
    }
}

#[test]
fn patch_event_type_decodes_and_is_named() {
    let e = UpdateEventType::from(UpdateEventType::PATCH_ITEM.code());
    assert_eq!(e, UpdateEventType::PATCH_ITEM);
    assert_eq!(event_type_name(e), "PATCH_ITEM");
    assert_eq!(event_type_name(UpdateEventType::DELETE_CACHE), "DELETE_CACHE");
}

#[test]
fn gateway_patch_delta_reaches_patch_listener_as_patch_item() {
    let mut router = GatewayRouter::new();
    router.add_listener(false, "docs".to_string(), 7);
    let out = router.dispatch(GatewayFrame::StreamUpdate {
        event_type: UpdateEventType::PATCH_ITEM,
        cache_id: "docs".to_string(),
        key: "pk".to_string(),
        value: "{\"b\":2}".to_string(),
        correlation_id: "".to_string(),
    });
    assert_eq!(out.len(), 1);
    match &out[0] {
        GatewayDelivery::CacheEvent { listener, event } => {
            assert_eq!(*listener, 7);
            assert_eq!(event.event_type, "PATCH_ITEM");
            assert_eq!(event.item_key.as_deref(), Some("pk"));
            assert_eq!(event.item_value.as_deref(), Some("{\"b\":2}"));
        }
        other => panic!("unexpected delivery {:?}", other),
    }
}

#[test]
fn gateway_error_fails_first_pending_request() {
    let mut router = GatewayRouter::new();
    router.register(RequestKind::Stats, "x".to_string());
    let out = router.dispatch(GatewayFrame::Error {
        status: OperationStatus::ERROR,
        correlation_id: "x".to_string(),
        message: "boom".to_string(),
    });
    match &out[0] {
        GatewayDelivery::Failed { kind, message, .. } => {
            assert_eq!(*kind, RequestKind::Stats);
            assert_eq!(message, "gateway error [ERROR]: boom");
        }
        other => panic!("unexpected delivery {:?}", other),
    }
    assert!(router.dispatch(GatewayFrame::Other).is_empty());
}

use aeron_cache_embedded_client::gateway::{bulk_plan, subscribe_plan};
use aeron_cache_embedded_client::model::CacheOperationRequest;

#[test]
fn subscribe_plan_carries_patch_mode_and_key() {
    let s = subscribe_plan("c1", true, false, Some("patch"), Some("k1"));
    assert_eq!(s.send_snapshot, BooleanType::T);
    assert_eq!(s.counters, BooleanType::F);
    assert_eq!(s.mode, SubscriptionMode::PATCH);
    assert_eq!(s.cache_id, "c1");
    assert_eq!(s.key, "k1");
}

#[test]
fn subscribe_plan_defaults_to_full_mode_and_empty_key() {
    let s = subscribe_plan("c1", false, false, None, None);
    assert_eq!(s.mode, SubscriptionMode::FULL);
    assert_eq!(s.key, "");
    let c = subscribe_plan("n1", false, true, Some("patch"), Some("k"));
    assert_eq!(c.counters, BooleanType::T);
    assert_eq!(c.mode, SubscriptionMode::FULL);
    assert_eq!(c.key, "");
}

#[test]
fn bulk_plan_maps_operations_by_name_with_defaults() {
    let ops = vec![
        CacheOperationRequest {
            operation_type: BulkOperationType::AddItem,
            request_id: "r1".to_string(),
            cache_id: "c1".to_string(),
            key: Some("k1".to_string()),
            value: Some("v1".to_string()),
            ttl: Some(1234),
            counter_value: None,
        },
        CacheOperationRequest {
            operation_type: BulkOperationType::IncrementCounter,
            request_id: "r2".to_string(),
            cache_id: "c2".to_string(),
            key: Some("k2".to_string()),
            value: None,
            ttl: None,
            counter_value: Some(7),
        },
    ];
    let plan = bulk_plan(&ops);
    assert_eq!(plan.len(), 2);
    assert_eq!(plan[0].operation_type, WireBulkOp::ADD_ITEM);
    assert_eq!(plan[0].ttl, 1234);
    assert_eq!(plan[0].counter_value, 0);
    assert_eq!(plan[0].value, "v1");
    assert_eq!(plan[1].operation_type, WireBulkOp::INCREMENT_COUNTER);
    assert_eq!(plan[1].counter_value, 7);
    assert_eq!(plan[1].value, "");
}
