//! The transport-neutral view of the cache and counter operations that embedded caches use.
//!
//! A transport performs each operation remotely; what it answers depends on the server, so each
//! method states only that its reply is one that the transport `served` for exactly the request
//! that was made. Streaming updates are delivered through a subscription, whose received events
//! an embedded cache takes and applies to its local mirror.

use vstd::prelude::*;
use crate::error::CacheError;
use crate::unified_cache::{EmbeddedCache, EmbeddedCounters};
use crate::model::{
    CacheUpdateEvent, CounterUpdateEvent, CounterResponse, CreateResponse, DeleteCacheResponse, DeleteItemResponse, GetItemResponse,
    PatchItemResponse, PutItemResponse,
};

verus! {

/// A remote cache or counter operation, with the arguments handed to the transport.
pub enum TransportCall {
    PutItem { cache_id: Seq<char>, key: Seq<char>, value: Seq<char> },
    PutTimedItem { cache_id: Seq<char>, key: Seq<char>, value: Seq<char>, ttl: i64 },
    PatchItem { cache_id: Seq<char>, key: Seq<char>, value: Seq<char> },
    GetItem { cache_id: Seq<char>, key: Seq<char> },
    DeleteItem { cache_id: Seq<char>, key: Seq<char> },
    DeleteCache { cache_id: Seq<char> },
    CreateCounterCache { cache_id: Seq<char> },
    PutCounter { cache_id: Seq<char>, key: Seq<char>, value: i64 },
    PutTimedCounter { cache_id: Seq<char>, key: Seq<char>, value: i64, ttl: i64 },
    GetCounter { cache_id: Seq<char>, key: Seq<char> },
    IncrementCounter { cache_id: Seq<char>, key: Seq<char>, amount: i64 },
    DecrementCounter { cache_id: Seq<char>, key: Seq<char>, amount: i64 },
    SetCounter { cache_id: Seq<char>, key: Seq<char>, value: i64 },
    DeleteCounter { cache_id: Seq<char>, key: Seq<char> },
    DeleteCounterCache { cache_id: Seq<char> },
    SubscribeCacheUpdates { cache_id: Seq<char>, hydrate: bool },
    SubscribeCounterUpdates { cache_id: Seq<char>, hydrate: bool },
}

/// The reply of a transport to a [`TransportCall`].
pub enum TransportReply {
    Create(Result<CreateResponse, CacheError>),
    Put(Result<PutItemResponse, CacheError>),
    Patch(Result<PatchItemResponse, CacheError>),
    Get(Result<GetItemResponse, CacheError>),
    Delete(Result<DeleteItemResponse, CacheError>),
    DeleteCache(Result<DeleteCacheResponse, CacheError>),
    Counter(Result<CounterResponse, CacheError>),
}

/// A handle to an active subscription. Dropping it unsubscribes.
pub trait CacheSubscription {
    /// Takes the cache update events received since the last call, in the order they arrived.
    fn take_cache_events(&mut self) -> Vec<CacheUpdateEvent>;

    /// Takes the counter update events received since the last call, in the order they arrived.
    fn take_counter_events(&mut self) -> Vec<CounterUpdateEvent>;
}

/// The operations that an embedded cache needs from a transport.
pub trait CacheTransport {
    /// The handle of a streaming subscription opened by this transport.
    type Subscription: CacheSubscription;

    /// `reply` is an answer this transport gives to `call`.
    spec fn served(&self, call: TransportCall, reply: TransportReply) -> bool;

    /// `r` is an outcome this transport gives to the subscription request `call`.
    spec fn subscribed(&self, call: TransportCall, r: Result<Self::Subscription, CacheError>) -> bool;

    fn put_item(&self, cache_id: &str, key: &str, value: &str) -> (r: Result<PutItemResponse, CacheError>)
        ensures
            self.served(TransportCall::PutItem { cache_id: cache_id@, key: key@, value: value@ }, TransportReply::Put(r)),
    ;

    fn put_timed_item(&self, cache_id: &str, key: &str, value: &str, ttl: i64) -> (r: Result<
        PutItemResponse,
        CacheError,
    >)
        ensures
            self.served(
                TransportCall::PutTimedItem { cache_id: cache_id@, key: key@, value: value@, ttl },
                TransportReply::Put(r),
            ),
    ;

    /// Deep-merges the JSON fragment `value` into the stored item.
    fn patch_item(&self, cache_id: &str, key: &str, value: &str) -> (r: Result<PatchItemResponse, CacheError>)
        ensures
            self.served(
                TransportCall::PatchItem { cache_id: cache_id@, key: key@, value: value@ },
                TransportReply::Patch(r),
            ),
    ;

    fn get_item(&self, cache_id: &str, key: &str) -> (r: Result<GetItemResponse, CacheError>)
        ensures
            self.served(TransportCall::GetItem { cache_id: cache_id@, key: key@ }, TransportReply::Get(r)),
    ;

    fn delete_item(&self, cache_id: &str, key: &str) -> (r: Result<DeleteItemResponse, CacheError>)
        ensures
            self.served(
                TransportCall::DeleteItem { cache_id: cache_id@, key: key@ },
                TransportReply::Delete(r),
            ),
    ;

    fn delete_cache(&self, cache_id: &str) -> (r: Result<DeleteCacheResponse, CacheError>)
        ensures
            self.served(TransportCall::DeleteCache { cache_id: cache_id@ }, TransportReply::DeleteCache(r)),
    ;

    fn create_counter_cache(&self, cache_id: &str) -> (r: Result<CreateResponse, CacheError>)
        ensures
            self.served(TransportCall::CreateCounterCache { cache_id: cache_id@ }, TransportReply::Create(r)),
    ;

    fn put_counter(&self, cache_id: &str, key: &str, value: i64) -> (r: Result<PutItemResponse, CacheError>)
        ensures
            self.served(
                TransportCall::PutCounter { cache_id: cache_id@, key: key@, value },
                TransportReply::Put(r),
            ),
    ;

    fn put_timed_counter(&self, cache_id: &str, key: &str, value: i64, ttl: i64) -> (r: Result<
        PutItemResponse,
        CacheError,
    >)
        ensures
            self.served(
                TransportCall::PutTimedCounter { cache_id: cache_id@, key: key@, value, ttl },
                TransportReply::Put(r),
            ),
    ;

    fn get_counter(&self, cache_id: &str, key: &str) -> (r: Result<CounterResponse, CacheError>)
        ensures
            self.served(
                TransportCall::GetCounter { cache_id: cache_id@, key: key@ },
                TransportReply::Counter(r),
            ),
    ;

    fn increment_counter(&self, cache_id: &str, key: &str, amount: i64) -> (r: Result<CounterResponse, CacheError>)
        ensures
            self.served(
                TransportCall::IncrementCounter { cache_id: cache_id@, key: key@, amount },
                TransportReply::Counter(r),
            ),
    ;

    fn decrement_counter(&self, cache_id: &str, key: &str, amount: i64) -> (r: Result<CounterResponse, CacheError>)
        ensures
            self.served(
                TransportCall::DecrementCounter { cache_id: cache_id@, key: key@, amount },
                TransportReply::Counter(r),
            ),
    ;

    fn set_counter(&self, cache_id: &str, key: &str, value: i64) -> (r: Result<CounterResponse, CacheError>)
        ensures
            self.served(
                TransportCall::SetCounter { cache_id: cache_id@, key: key@, value },
                TransportReply::Counter(r),
            ),
    ;

    fn delete_counter(&self, cache_id: &str, key: &str) -> (r: Result<DeleteItemResponse, CacheError>)
        ensures
            self.served(
                TransportCall::DeleteCounter { cache_id: cache_id@, key: key@ },
                TransportReply::Delete(r),
            ),
    ;

    fn delete_counter_cache(&self, cache_id: &str) -> (r: Result<DeleteCacheResponse, CacheError>)
        ensures
            self.served(
                TransportCall::DeleteCounterCache { cache_id: cache_id@ },
                TransportReply::DeleteCache(r),
            ),
    ;

    /// Subscribes to streaming updates of a cache.
    fn subscribe_cache_updates(&self, cache_id: &str, hydrate: bool) -> (r: Result<
        Self::Subscription,
        CacheError,
    >)
        ensures
            self.subscribed(TransportCall::SubscribeCacheUpdates { cache_id: cache_id@, hydrate }, r),
    ;

    /// Subscribes to streaming updates of a counter cache.
    fn subscribe_counter_updates(&self, cache_id: &str, hydrate: bool) -> (r: Result<
        Self::Subscription,
        CacheError,
    >)
        ensures
            self.subscribed(TransportCall::SubscribeCounterUpdates { cache_id: cache_id@, hydrate }, r),
    ;

}

/// Local-mirroring views over any [`CacheTransport`].
pub trait EmbeddedCaches: CacheTransport + Sized {
    /// A local-mirroring view of the cache `cache_id` backed by this transport.
    fn embedded_cache(&self, cache_id: &str) -> (c: EmbeddedCache<'_, Self>)
        ensures
            c.transport() == self,
            c.cache_id() == cache_id@,
            c.local() == Map::<Seq<char>, String>::empty(),
    {
        EmbeddedCache::new(self, cache_id.to_owned())
    }

    /// A local-mirroring view of the counter cache `cache_id` backed by this transport.
    fn embedded_counter_cache(&self, cache_id: &str) -> (c: EmbeddedCounters<'_, Self>)
        ensures
            c.transport() == self,
            c.cache_id() == cache_id@,
            c.local() == Map::<Seq<char>, i64>::empty(),
    {
        EmbeddedCounters::new(self, cache_id.to_owned())
    }
}

impl<T: CacheTransport> EmbeddedCaches for T {
}

} // verus!
