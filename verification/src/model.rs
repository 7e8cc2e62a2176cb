//! The request, response and event types shared by all transports.

use vstd::prelude::*;

verus! {

/// One key/value item of a cache.
#[derive(Clone, Debug)]
pub struct CacheItem {
    pub key: String,
    pub value: String,
}

/// The items of a cache, as returned by a full-snapshot request.
#[derive(Clone, Debug)]
pub struct GetCacheResponse {
    pub cache_id: String,
    pub operation_status: String,
    pub items: Vec<CacheItem>,
}

/// The reply to clearing a cache.
#[derive(Clone, Debug)]
pub struct ClearCacheResponse {
    pub cache_id: String,
    pub operation_status: String,
}

/// The body of a create-cache request.
#[derive(Clone, Debug)]
pub struct CreateRequest {
    pub cache_id: String,
}

/// The reply to creating a cache or counter cache.
#[derive(Clone, Debug)]
pub struct CreateResponse {
    pub cache_id: String,
    pub operation_status: String,
}

/// The body of a put-item request.
#[derive(Clone, Debug)]
pub struct PutItemRequest {
    pub key: String,
    pub value: String,
}

/// The body of a put-item request with a time to live.
#[derive(Clone, Debug)]
pub struct PutTimedItemRequest {
    pub key: String,
    pub value: String,
    pub ttl: i64,
}

/// The reply to putting an item or a counter.
#[derive(Clone, Debug)]
pub struct PutItemResponse {
    pub cache_id: String,
    pub key: String,
    pub status: String,
    pub operation_status: String,
}

/// The reply to reading an item.
#[derive(Clone, Debug)]
pub struct GetItemResponse {
    pub cache_id: String,
    pub key: String,
    pub value: String,
    pub operation_status: String,
}

/// The reply to removing an item or a counter.
#[derive(Clone, Debug)]
pub struct DeleteItemResponse {
    pub cache_id: String,
    pub key: String,
    pub operation_status: String,
}

/// The reply to deleting a cache or counter cache.
#[derive(Clone, Debug)]
pub struct DeleteCacheResponse {
    pub cache_id: String,
    pub operation_status: String,
}

/// A streamed update of a cache.
#[derive(Clone, Debug)]
pub struct CacheUpdateEvent {
    pub cache_id: String,
    pub event_type: String,
    pub item_key: Option<String>,
    pub item_value: Option<String>,
    pub request_id: String,
}

/// The reply to reading or changing a counter.
#[derive(Clone, Debug)]
pub struct CounterResponse {
    pub cache_id: String,
    pub key: String,
    pub value: i64,
    pub operation_status: String,
}

/// A streamed update of a counter cache.
#[derive(Clone, Debug)]
pub struct CounterUpdateEvent {
    pub cache_id: String,
    pub event_type: String,
    pub item_key: Option<String>,
    pub item_value: Option<i64>,
    pub request_id: String,
}

/// The body of a put-counter or set-counter request.
#[derive(Clone, Debug)]
pub struct PutCounterRequest {
    pub key: String,
    pub value: i64,
}

/// The body of a put-counter request with a time to live.
#[derive(Clone, Debug)]
pub struct PutTimedCounterRequest {
    pub key: String,
    pub value: i64,
    pub ttl: i64,
}

/// The body of an increment or decrement request.
#[derive(Clone, Debug)]
pub struct CounterAmountRequest {
    pub key: String,
    pub amount: i64,
}

/// The kind of one operation inside a bulk request. `NoOp` is the operation named `NONE` on the
/// wire.
#[derive(Clone, Copy, Debug, PartialEq, Eq, Structural)]
pub enum BulkOperationType {
    NoOp,
    CreateCache,
    AddItem,
    RemoveItem,
    ClearCache,
    GetItem,
    DeleteCache,
    PatchItem,
    CreateCounterCache,
    AddCounter,
    RemoveCounter,
    ClearCounterCache,
    GetCounter,
    DeleteCounterCache,
    IncrementCounter,
    DecrementCounter,
    SetCounter,
    CancelItem,
    CancelCounter,
}

/// One operation of a bulk request.
#[derive(Clone, Debug)]
pub struct CacheOperationRequest {
    pub operation_type: BulkOperationType,
    pub request_id: String,
    pub cache_id: String,
    pub key: Option<String>,
    pub value: Option<String>,
    pub ttl: Option<i64>,
    pub counter_value: Option<i64>,
}

/// A batch of cache and counter operations.
#[derive(Clone, Debug)]
pub struct BulkCacheOpsRequest {
    pub request_id: String,
    pub operations: Vec<CacheOperationRequest>,
}

/// The result of one operation of a bulk request.
#[derive(Clone, Debug)]
pub struct CacheOperationResponse {
    pub request_id: String,
    pub status: String,
    pub cache_id: String,
    pub key: Option<String>,
    pub value: Option<String>,
}

/// The results of a bulk request, one per operation.
#[derive(Clone, Debug)]
pub struct BulkCacheOpsResponse {
    pub request_id: String,
    pub operation_responses: Vec<CacheOperationResponse>,
}

/// The body of a patch-item request: a JSON fragment to deep-merge.
#[derive(Clone, Debug)]
pub struct PatchItemRequest {
    pub value: String,
}

/// The reply to patching an item.
#[derive(Clone, Debug)]
pub struct PatchItemResponse {
    pub cache_id: String,
    pub key: String,
    pub operation_status: String,
}

/// The reply to cancelling the scheduled removal of an item or counter.
#[derive(Clone, Debug)]
pub struct CancelItemRemovalResponse {
    pub cache_id: String,
    pub key: String,
    pub operation_status: String,
}

/// The identity and size of one cache.
#[derive(Clone, Debug)]
pub struct CacheDetails {
    pub cache_id: String,
    pub item_count: i64,
}

/// Server-wide statistics.
#[derive(Clone, Debug)]
pub struct CacheStatsResponse {
    pub total_ops_count: i32,
    pub total_caches_count: i32,
    pub total_items_count: i32,
    pub error_count: i32,
}

/// A pending removal timer: `timer_type` is `CACHE` or `COUNTER`; `deadline` is the epoch time in milliseconds at which removal is scheduled.
#[derive(Clone, Debug)]
pub struct TimerInfo {
    pub timer_type: String,
    pub cache_id: String,
    pub key: String,
    pub deadline: i64,
}

/// All pending removal timers across caches and counter caches.
#[derive(Clone, Debug)]
pub struct GetTimersResponse {
    pub operation_status: String,
    pub timers: Vec<TimerInfo>,
}

/// One key/value entry of a counter cache.
#[derive(Clone, Debug)]
pub struct CounterItem {
    pub key: String,
    pub value: i64,
}

/// The entries of a counter cache, as returned by a full-snapshot request.
#[derive(Clone, Debug)]
pub struct GetCountersResponse {
    pub cache_id: String,
    pub operation_status: String,
    pub items: Vec<CounterItem>,
}

/// The statistics of one cache, as carried by a per-cache stats frame.
#[derive(Clone, Debug)]
pub struct StatEntry {
    pub cache_id: String,
    pub added_count: i64,
    pub removed_count: i64,
    pub cleared_count: i64,
    pub size: i64,
}

/// The statistics of one cache, as streamed by the gateway.
#[derive(Clone, Debug)]
pub struct GatewayStat {
    pub cache_id: String,
    pub added_count: i64,
    pub removed_count: i64,
    pub cleared_count: i64,
    pub size: i64,
}

} // verus!
