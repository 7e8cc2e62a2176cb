use aeron_cache_embedded_client::correlation::CorrelationIds;
use aeron_cache_embedded_client::correlation::new_correlation_id;
use aeron_cache_embedded_client::endpoints::{
    bidi_url, counter_subscription_url, default_status, stream_url, subscription_url, ws_query,
    ApiCall, HttpMethod,
};
use aeron_cache_embedded_client::text::{i64_string, parse_i64};

#[test]
fn test_ws_query_neither() {
    assert_eq!(ws_query(None, None), "");
}

#[test]
fn test_ws_query_keys_only() {
    assert_eq!(ws_query(Some("key1"), None), "?keys=key1");
}

#[test]
fn test_ws_query_mode_only() {
    assert_eq!(ws_query(None, Some("patch")), "?mode=patch");
}

#[test]
fn test_ws_query_both() {
    assert_eq!(ws_query(Some("key1"), Some("patch")), "?keys=key1&mode=patch");
}

#[test]
fn test_ws_query_encodes_colon_and_comma() {
    // cacheId:key tokens and comma separators must be percent-encoded.
    assert_eq!(ws_query(Some("c1:key1,c1:key2"), None), "?keys=c1%3Akey1%2Cc1%3Akey2");
}

#[test]
fn ws_query_encodes_spaces_as_plus() {
    assert_eq!(ws_query(Some("a b"), None), "?keys=a+b");
}

#[test]
fn subscription_urls_pick_path_by_hydrate_and_comma() {
    assert_eq!(
        subscription_url("ws://h:7071/", "c1", false, None, None),
        "ws://h:7071/api/ws/v1/cache/c1"
    );
    assert_eq!(
        subscription_url("ws://h:7071", "c1,c2", true, Some("k"), Some("full")),
        "ws://h:7071/api/ws/v1/caches/hydrate/c1,c2?keys=k&mode=full"
    );
    assert_eq!(
        counter_subscription_url("ws://h//", "n1", true, None),
        "ws://h/api/ws/v1/counter/hydrate/n1"
    );
    assert_eq!(
        counter_subscription_url("ws://h", "n1,n2", false, Some("x")),
        "ws://h/api/ws/v1/counters/n1,n2?keys=x"
    );
    assert_eq!(stream_url("ws://h", "c9", true), "ws://h/api/ws/v1/counter/c9");
    assert_eq!(stream_url("ws://h", "c9", false), "ws://h/api/ws/v1/cache/c9");
    assert_eq!(bidi_url("ws://h:7071/"), "ws://h:7071/api/ws/v1/bidi");
}

#[test]
fn api_calls_plan_method_and_url() {
    let r = ApiCall::GetItem { cache_id: "c1", key: "k1" }.request("http://h");
    assert_eq!(r.method, HttpMethod::Get);
    assert_eq!(r.url, "http://h/api/v1/cache/c1/k1");
    let r = ApiCall::ClearCache { cache_id: "c1" }.request("http://h");
    assert_eq!(r.method, HttpMethod::Patch);
    assert_eq!(r.url, "http://h/api/v1/cache/c1");
    let r = ApiCall::CancelCounterItemRemoval { cache_id: "n", key: "k" }.request("http://h");
    assert_eq!(r.method, HttpMethod::Post);
    assert_eq!(r.url, "http://h/api/v1/counters/n/k/cancel-removal");
    let r = ApiCall::IncrementCounter { cache_id: "n" }.request("http://h");
    assert_eq!(r.url, "http://h/api/v1/counters/increment/n");
}

#[test]
fn status_acceptance_follows_business_errors() {
    assert!(ApiCall::CreateCache.accepts(200));
    assert!(ApiCall::CreateCache.accepts(404));
    assert!(ApiCall::CreateCache.accepts(401));
    assert!(!ApiCall::CreateCache.accepts(500));
    assert!(!ApiCall::GetCacheItems { cache_id: "c" }.accepts(401));
    assert!(ApiCall::GetCacheItems { cache_id: "c" }.accepts(400));
    assert!(!ApiCall::ClearCache { cache_id: "c" }.accepts(302));
}

#[test]
fn default_status_is_ok() {
    assert_eq!(default_status(), "OK");
}

#[test]
fn correlation_ids_are_hex_time_and_sequence() {
    assert_eq!(new_correlation_id(255, 16), "ff-10");
    assert_eq!(new_correlation_id(0, 0), "0-0");
}

#[test]
fn integers_round_trip_through_text() {
    for i in [0i64, 7, -7, 10, 1234567890, i64::MAX, i64::MIN] {
        assert_eq!(parse_i64(&i64_string(i)), Some(i));
    }
    assert_eq!(i64_string(-42), "-42");
    assert_eq!(parse_i64("+5"), Some(5));
    assert_eq!(parse_i64("-"), None);
    assert_eq!(parse_i64("9223372036854775808"), None);
    assert_eq!(parse_i64("12a"), None);
}

use aeron_cache_embedded_client::stream::{
    bidi_reader_step, stream_reader_step, BidiReaderStep, ReadOutcome, StreamReaderStep,
};

#[test]
fn readers_decide_by_read_outcome() {
    assert_eq!(bidi_reader_step(ReadOutcome::Text), BidiReaderStep::Dispatch);
    assert_eq!(bidi_reader_step(ReadOutcome::Close), BidiReaderStep::FailAllAndStop);
    assert_eq!(bidi_reader_step(ReadOutcome::Closed), BidiReaderStep::FailAllAndStop);
    assert_eq!(bidi_reader_step(ReadOutcome::Failed), BidiReaderStep::Continue);
    assert_eq!(stream_reader_step(ReadOutcome::Text, false), StreamReaderStep::Deliver);
    assert_eq!(stream_reader_step(ReadOutcome::Idle, true), StreamReaderStep::Continue);
    assert_eq!(stream_reader_step(ReadOutcome::Failed, false), StreamReaderStep::Reconnect);
    assert_eq!(stream_reader_step(ReadOutcome::Closed, true), StreamReaderStep::Stop);
}

#[test]
fn correlation_ids_with_different_sequence_numbers_differ() {
    let mut seen = std::collections::HashSet::new();
    for n in 0u64..64 {
        // A clock that goes backwards or repeats still yields distinct ids.
        let id = new_correlation_id(0x1a2b - (n as u128 % 3), n);
        assert!(seen.insert(id.clone()), "duplicate id {}", id);
        let (head, tail) = id.split_once('-').unwrap();
        assert!(!head.is_empty() && head.chars().all(|c| c.is_ascii_hexdigit() && !c.is_ascii_uppercase()));
        assert!(!tail.is_empty() && tail.chars().all(|c| c.is_ascii_hexdigit() && !c.is_ascii_uppercase()));
    }
    assert_ne!(new_correlation_id(1, 0x10), new_correlation_id(0x11, 0));
}

#[test]
fn correlation_id_sequence_advances() {
    let mut ids = CorrelationIds::new();
    assert_eq!(ids.mint(0xab), "ab-0");
    assert_eq!(ids.mint(0xab), "ab-1");
    assert_eq!(ids.mint(0x10), "10-2");
}
