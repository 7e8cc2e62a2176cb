//! Transport-neutral embedded caches: remote operations go through any [`CacheTransport`], and a
//! local mirror is kept in sync by applying the streamed update events, so that local reads need
//! no network round-trip.

use vstd::prelude::*;
use crate::error::CacheError;
use crate::text::text_is;
use crate::json::{
    json_is_wf, json_text, json_wf, object_update_ok, to_json_string, update_object_local, values_wf,
    JsonValue,
};
use crate::mirror::{entries_map, keys_distinct, LocalMirror};
use crate::model::{
    CacheUpdateEvent, CounterResponse, CounterUpdateEvent, DeleteCacheResponse, DeleteItemResponse,
    GetItemResponse, PatchItemResponse, PutItemResponse,
};
use crate::transport::{CacheSubscription, CacheTransport, TransportCall, TransportReply};

verus! {

/// The local mirror after applying one cache update event: `ADD_ITEM` stores the item (when the
/// event carries both key and value), `REMOVE_ITEM` removes the key (when present in the event),
/// `CLEAR_CACHE` and `DELETE_CACHE` empty the mirror, and every other event (`PATCH_ITEM`
/// included, whose value is only a fragment) leaves it unchanged.
pub open spec fn cache_update_effect(m: Map<Seq<char>, String>, e: CacheUpdateEvent) -> Map<
    Seq<char>,
    String,
> {
    if e.event_type@ == "ADD_ITEM"@ {
        match (e.item_key, e.item_value) {
            (Some(k), Some(v)) => m.insert(k@, v),
            _ => m,
        }
    } else if e.event_type@ == "REMOVE_ITEM"@ {
        match e.item_key {
            Some(k) => m.remove(k@),
            None => m,
        }
    } else if e.event_type@ == "CLEAR_CACHE"@ || e.event_type@ == "DELETE_CACHE"@ {
        Map::empty()
    } else {
        m
    }
}

/// The local counter mirror after applying one counter update event, with the same rules as
/// [`cache_update_effect`].
pub open spec fn counter_update_effect(m: Map<Seq<char>, i64>, e: CounterUpdateEvent) -> Map<
    Seq<char>,
    i64,
> {
    if e.event_type@ == "ADD_ITEM"@ {
        match (e.item_key, e.item_value) {
            (Some(k), Some(v)) => m.insert(k@, v),
            _ => m,
        }
    } else if e.event_type@ == "REMOVE_ITEM"@ {
        match e.item_key {
            Some(k) => m.remove(k@),
            None => m,
        }
    } else if e.event_type@ == "CLEAR_CACHE"@ || e.event_type@ == "DELETE_CACHE"@ {
        Map::empty()
    } else {
        m
    }
}

/// The local mirror after applying the events `es` one after another, in order.
pub open spec fn cache_updates_effect(m: Map<Seq<char>, String>, es: Seq<CacheUpdateEvent>) -> Map<
    Seq<char>,
    String,
>
    decreases es.len(),
{
    if es.len() == 0 {
        m
    } else {
        cache_update_effect(cache_updates_effect(m, es.drop_last()), es.last())
    }
}

/// The local counter mirror after applying the events `es` one after another, in order.
pub open spec fn counter_updates_effect(m: Map<Seq<char>, i64>, es: Seq<CounterUpdateEvent>) -> Map<
    Seq<char>,
    i64,
>
    decreases es.len(),
{
    if es.len() == 0 {
        m
    } else {
        counter_update_effect(counter_updates_effect(m, es.drop_last()), es.last())
    }
}

/// Applies cache update events to a local mirror, one after another in order.
pub fn update_cache_local_all(local: &mut LocalMirror<String>, events: Vec<CacheUpdateEvent>)
    ensures
        final(local).view() == cache_updates_effect(old(local).view(), events@),
{
    let ghost m0 = local.view();
    let ghost es = events@;
    let ghost n = events.len() as int;
    let mut rest = events;
    let ghost mut i: int = 0;
    while rest.len() > 0
        invariant
            n == es.len(),
            0 <= i <= n,
            rest@ == es.subrange(i, n),
            local.view() == cache_updates_effect(m0, es.subrange(0, i)),
        decreases rest.len(),
    {
        let e = rest.remove(0);
        assert(es.subrange(0, i + 1).drop_last() =~= es.subrange(0, i));
        update_cache_local(local, e);
        proof {
            i = i + 1;
        }
        assert(rest@ =~= es.subrange(i, n));
    }
    assert(es.subrange(0, n) =~= es);
}

/// Applies counter update events to a local counter mirror, one after another in order.
pub fn update_counter_local_all(local: &mut LocalMirror<i64>, events: Vec<CounterUpdateEvent>)
    ensures
        final(local).view() == counter_updates_effect(old(local).view(), events@),
{
    let ghost m0 = local.view();
    let ghost es = events@;
    let ghost n = events.len() as int;
    let mut rest = events;
    let ghost mut i: int = 0;
    while rest.len() > 0
        invariant
            n == es.len(),
            0 <= i <= n,
            rest@ == es.subrange(i, n),
            local.view() == counter_updates_effect(m0, es.subrange(0, i)),
        decreases rest.len(),
    {
        let e = rest.remove(0);
        assert(es.subrange(0, i + 1).drop_last() =~= es.subrange(0, i));
        update_counter_local(local, e);
        proof {
            i = i + 1;
        }
        assert(rest@ =~= es.subrange(i, n));
    }
    assert(es.subrange(0, n) =~= es);
}

/// Applies one cache update event to a local mirror.
pub fn update_cache_local(local: &mut LocalMirror<String>, event: CacheUpdateEvent)
    ensures
        final(local).view() == cache_update_effect(old(local).view(), event),
{
    let ghost e = event;
    if text_is(&event.event_type, "ADD_ITEM") {
        match (event.item_key, event.item_value) {
            (Some(k), Some(v)) => local.insert(k, v),
            _ => {},
        }
    } else if text_is(&event.event_type, "REMOVE_ITEM") {
        match event.item_key {
            Some(k) => {
                local.remove(k.as_str());
            },
            None => {},
        }
    } else if text_is(&event.event_type, "CLEAR_CACHE") || text_is(&event.event_type, "DELETE_CACHE") {
        local.clear();
    }
}

/// Applies one counter update event to a local counter mirror.
pub fn update_counter_local(local: &mut LocalMirror<i64>, event: CounterUpdateEvent)
    ensures
        final(local).view() == counter_update_effect(old(local).view(), event),
{
    if text_is(&event.event_type, "ADD_ITEM") {
        match (event.item_key, event.item_value) {
            (Some(k), Some(v)) => local.insert(k, v),
            _ => {},
        }
    } else if text_is(&event.event_type, "REMOVE_ITEM") {
        match event.item_key {
            Some(k) => {
                local.remove(k.as_str());
            },
            None => {},
        }
    } else if text_is(&event.event_type, "CLEAR_CACHE") || text_is(&event.event_type, "DELETE_CACHE") {
        local.clear();
    }
}

/// A cache view that mirrors remote updates into a local map, backed by any [`CacheTransport`].
pub struct EmbeddedCache<'a, T: CacheTransport> {
    transport: &'a T,
    cache_id: String,
    local: LocalMirror<String>,
}

impl<'a, T: CacheTransport> EmbeddedCache<'a, T> {
    /// The cache this view works on.
    pub closed spec fn cache_id(&self) -> Seq<char> {
        self.cache_id@
    }

    /// The transport this view works through.
    pub closed spec fn transport(&self) -> &'a T {
        self.transport
    }

    /// The contents of the local mirror.
    pub closed spec fn local(&self) -> Map<Seq<char>, String> {
        self.local.view()
    }

    /// A view of `cache_id` over `transport`, with an empty local mirror.
    pub fn new(transport: &'a T, cache_id: String) -> (c: Self)
        ensures
            c.transport() == transport,
            c.cache_id() == cache_id@,
            c.local() == Map::<Seq<char>, String>::empty(),
    {
        EmbeddedCache { transport, cache_id, local: LocalMirror::new() }
    }

    /// Reads a value from the local mirror (no network round-trip).
    pub fn get_local(&self, key: &str) -> (r: Option<String>)
        ensures
            match r {
                Some(v) => self.local().contains_key(key@) && v == self.local()[key@],
                None => !self.local().contains_key(key@),
            },
    {
        match self.local.get(key) {
            Some(v) => Some(v.clone()),
            None => None,
        }
    }

    /// A snapshot of the local mirror: its entries, with pairwise distinct keys.
    pub fn local_snapshot(&self) -> (r: Vec<(String, String)>)
        ensures
            keys_distinct(r@),
            entries_map(r@) == self.local(),
    {
        let entries = self.local.entries();
        let mut out: Vec<(String, String)> = Vec::new();
        let n = entries.len();
        let mut i: usize = 0;
        while i < n
            invariant
                n == entries@.len(),
                i <= n,
                out@ =~= entries@.subrange(0, i as int),
            decreases n - i,
        {
            let k = entries[i].0.clone();
            let v = entries[i].1.clone();
            out.push((k, v));
            i = i + 1;
        }
        assert(out@ =~= entries@);
        out
    }

    /// Puts an item into the remote cache.
    pub fn insert(&self, key: &str, value: &str) -> (r: Result<PutItemResponse, CacheError>)
        ensures
            self.transport().served(
                TransportCall::PutItem { cache_id: self.cache_id(), key: key@, value: value@ },
                TransportReply::Put(r),
            ),
    {
        self.transport.put_item(self.cache_id.as_str(), key, value)
    }

    /// Puts an item into the remote cache, to be removed after `ttl` milliseconds.
    pub fn insert_timed(&self, key: &str, value: &str, ttl: i64) -> (r: Result<PutItemResponse, CacheError>)
        ensures
            self.transport().served(
                TransportCall::PutTimedItem { cache_id: self.cache_id(), key: key@, value: value@, ttl },
                TransportReply::Put(r),
            ),
    {
        self.transport.put_timed_item(self.cache_id.as_str(), key, value, ttl)
    }

    /// Reads an item from the remote cache.
    pub fn get(&self, key: &str) -> (r: Result<GetItemResponse, CacheError>)
        ensures
            self.transport().served(
                TransportCall::GetItem { cache_id: self.cache_id(), key: key@ },
                TransportReply::Get(r),
            ),
    {
        self.transport.get_item(self.cache_id.as_str(), key)
    }

    /// Removes an item from the remote cache.
    pub fn remove(&self, key: &str) -> (r: Result<DeleteItemResponse, CacheError>)
        ensures
            self.transport().served(
                TransportCall::DeleteItem { cache_id: self.cache_id(), key: key@ },
                TransportReply::Delete(r),
            ),
    {
        self.transport.delete_item(self.cache_id.as_str(), key)
    }

    /// Deletes the remote cache.
    pub fn clear(&self) -> (r: Result<DeleteCacheResponse, CacheError>)
        ensures
            self.transport().served(
                TransportCall::DeleteCache { cache_id: self.cache_id() },
                TransportReply::DeleteCache(r),
            ),
    {
        self.transport.delete_cache(self.cache_id.as_str())
    }

    /// Subscribes to the streaming updates of this cache; applying each delivered event with
    /// [`Self::apply_update`] keeps the local mirror in sync.
    pub fn subscribe(&self) -> (r: Result<T::Subscription, CacheError>)
        ensures
            self.transport().subscribed(
                TransportCall::SubscribeCacheUpdates { cache_id: self.cache_id(), hydrate: false },
                r,
            ),
    {
        self.subscribe_ext(false)
    }

    /// Subscribes to the streaming updates of this cache, first receiving the current contents
    /// when `hydrate`.
    pub fn subscribe_ext(&self, hydrate: bool) -> (r: Result<T::Subscription, CacheError>)
        ensures
            self.transport().subscribed(
                TransportCall::SubscribeCacheUpdates { cache_id: self.cache_id(), hydrate },
                r,
            ),
    {
        self.transport.subscribe_cache_updates(self.cache_id.as_str(), hydrate)
    }

    /// Applies one streamed update event to the local mirror.
    pub fn apply_update(&mut self, event: CacheUpdateEvent)
        ensures
            final(self).local() == cache_update_effect(old(self).local(), event),
            final(self).cache_id() == old(self).cache_id(),
            final(self).transport() == old(self).transport(),
    {
        update_cache_local(&mut self.local, event);
    }

    /// Applies streamed update events to the local mirror, one after another in order.
    pub fn apply_updates(&mut self, events: Vec<CacheUpdateEvent>)
        ensures
            final(self).local() == cache_updates_effect(old(self).local(), events@),
            final(self).cache_id() == old(self).cache_id(),
            final(self).transport() == old(self).transport(),
    {
        update_cache_local_all(&mut self.local, events);
    }

    /// Brings the local mirror up to date with a subscription of this cache: applies, in order,
    /// the events it has received since it was last synced. Which events those are rests on the
    /// server; whatever they are, the mirror changes exactly as applying them in order says.
    pub fn sync(&mut self, subscription: &mut T::Subscription)
        ensures
            exists|es: Seq<CacheUpdateEvent>| final(self).local() == cache_updates_effect(old(self).local(), es),
            final(self).cache_id() == old(self).cache_id(),
            final(self).transport() == old(self).transport(),
    {
        let events = subscription.take_cache_events();
        let ghost es = events@;
        self.apply_updates(events);
        assert(self.local() == cache_updates_effect(old(self).local(), es));
    }
}

/// A counter-cache view that mirrors remote updates into a local map, backed by any
/// [`CacheTransport`].
pub struct EmbeddedCounters<'a, T: CacheTransport> {
    transport: &'a T,
    cache_id: String,
    local: LocalMirror<i64>,
}

impl<'a, T: CacheTransport> EmbeddedCounters<'a, T> {
    /// The counter cache this view works on.
    pub closed spec fn cache_id(&self) -> Seq<char> {
        self.cache_id@
    }

    /// The transport this view works through.
    pub closed spec fn transport(&self) -> &'a T {
        self.transport
    }

    /// The contents of the local mirror.
    pub closed spec fn local(&self) -> Map<Seq<char>, i64> {
        self.local.view()
    }

    /// A view of the counter cache `cache_id` over `transport`, with an empty local mirror.
    pub fn new(transport: &'a T, cache_id: String) -> (c: Self)
        ensures
            c.transport() == transport,
            c.cache_id() == cache_id@,
            c.local() == Map::<Seq<char>, i64>::empty(),
    {
        EmbeddedCounters { transport, cache_id, local: LocalMirror::new() }
    }

    /// Reads a counter from the local mirror (no network round-trip).
    pub fn get_local(&self, key: &str) -> (r: Option<i64>)
        ensures
            match r {
                Some(v) => self.local().contains_key(key@) && v == self.local()[key@],
                None => !self.local().contains_key(key@),
            },
    {
        match self.local.get(key) {
            Some(v) => Some(*v),
            None => None,
        }
    }

    /// A snapshot of the local mirror: its entries, with pairwise distinct keys.
    pub fn local_snapshot(&self) -> (r: Vec<(String, i64)>)
        ensures
            keys_distinct(r@),
            entries_map(r@) == self.local(),
    {
        let entries = self.local.entries();
        let mut out: Vec<(String, i64)> = Vec::new();
        let n = entries.len();
        let mut i: usize = 0;
        while i < n
            invariant
                n == entries@.len(),
                i <= n,
                out@ =~= entries@.subrange(0, i as int),
            decreases n - i,
        {
            let k = entries[i].0.clone();
            let v = entries[i].1;
            out.push((k, v));
            i = i + 1;
        }
        assert(out@ =~= entries@);
        out
    }

    /// Puts a counter into the remote counter cache.
    pub fn insert(&self, key: &str, value: i64) -> (r: Result<PutItemResponse, CacheError>)
        ensures
            self.transport().served(
                TransportCall::PutCounter { cache_id: self.cache_id(), key: key@, value },
                TransportReply::Put(r),
            ),
    {
        self.transport.put_counter(self.cache_id.as_str(), key, value)
    }

    /// Puts a counter into the remote counter cache, to be removed after `ttl` milliseconds.
    pub fn insert_timed(&self, key: &str, value: i64, ttl: i64) -> (r: Result<PutItemResponse, CacheError>)
        ensures
            self.transport().served(
                TransportCall::PutTimedCounter { cache_id: self.cache_id(), key: key@, value, ttl },
                TransportReply::Put(r),
            ),
    {
        self.transport.put_timed_counter(self.cache_id.as_str(), key, value, ttl)
    }

    /// Reads a counter from the remote counter cache.
    pub fn get(&self, key: &str) -> (r: Result<CounterResponse, CacheError>)
        ensures
            self.transport().served(
                TransportCall::GetCounter { cache_id: self.cache_id(), key: key@ },
                TransportReply::Counter(r),
            ),
    {
        self.transport.get_counter(self.cache_id.as_str(), key)
    }

    /// Adds `amount` to a remote counter.
    pub fn increment(&self, key: &str, amount: i64) -> (r: Result<CounterResponse, CacheError>)
        ensures
            self.transport().served(
                TransportCall::IncrementCounter { cache_id: self.cache_id(), key: key@, amount },
                TransportReply::Counter(r),
            ),
    {
        self.transport.increment_counter(self.cache_id.as_str(), key, amount)
    }

    /// Subtracts `amount` from a remote counter.
    pub fn decrement(&self, key: &str, amount: i64) -> (r: Result<CounterResponse, CacheError>)
        ensures
            self.transport().served(
                TransportCall::DecrementCounter { cache_id: self.cache_id(), key: key@, amount },
                TransportReply::Counter(r),
            ),
    {
        self.transport.decrement_counter(self.cache_id.as_str(), key, amount)
    }

    /// Sets a remote counter to `value`.
    pub fn set(&self, key: &str, value: i64) -> (r: Result<CounterResponse, CacheError>)
        ensures
            self.transport().served(
                TransportCall::SetCounter { cache_id: self.cache_id(), key: key@, value },
                TransportReply::Counter(r),
            ),
    {
        self.transport.set_counter(self.cache_id.as_str(), key, value)
    }

    /// Removes a counter from the remote counter cache.
    pub fn remove(&self, key: &str) -> (r: Result<DeleteItemResponse, CacheError>)
        ensures
            self.transport().served(
                TransportCall::DeleteCounter { cache_id: self.cache_id(), key: key@ },
                TransportReply::Delete(r),
            ),
    {
        self.transport.delete_counter(self.cache_id.as_str(), key)
    }

    /// Deletes the remote counter cache.
    pub fn clear(&self) -> (r: Result<DeleteCacheResponse, CacheError>)
        ensures
            self.transport().served(
                TransportCall::DeleteCounterCache { cache_id: self.cache_id() },
                TransportReply::DeleteCache(r),
            ),
    {
        self.transport.delete_counter_cache(self.cache_id.as_str())
    }

    /// Subscribes to the streaming updates of this counter cache; applying each delivered event
    /// with [`Self::apply_update`] keeps the local mirror in sync.
    pub fn subscribe(&self) -> (r: Result<T::Subscription, CacheError>)
        ensures
            self.transport().subscribed(
                TransportCall::SubscribeCounterUpdates { cache_id: self.cache_id(), hydrate: false },
                r,
            ),
    {
        self.subscribe_ext(false)
    }

    /// Subscribes to the streaming updates of this counter cache, first receiving the current
    /// contents when `hydrate`.
    pub fn subscribe_ext(&self, hydrate: bool) -> (r: Result<T::Subscription, CacheError>)
        ensures
            self.transport().subscribed(
                TransportCall::SubscribeCounterUpdates { cache_id: self.cache_id(), hydrate },
                r,
            ),
    {
        self.transport.subscribe_counter_updates(self.cache_id.as_str(), hydrate)
    }

    /// Applies one streamed update event to the local mirror.
    pub fn apply_update(&mut self, event: CounterUpdateEvent)
        ensures
            final(self).local() == counter_update_effect(old(self).local(), event),
            final(self).cache_id() == old(self).cache_id(),
            final(self).transport() == old(self).transport(),
    {
        update_counter_local(&mut self.local, event);
    }

    /// Applies streamed update events to the local mirror, one after another in order.
    pub fn apply_updates(&mut self, events: Vec<CounterUpdateEvent>)
        ensures
            final(self).local() == counter_updates_effect(old(self).local(), events@),
            final(self).cache_id() == old(self).cache_id(),
            final(self).transport() == old(self).transport(),
    {
        update_counter_local_all(&mut self.local, events);
    }

    /// Brings the local mirror up to date with a subscription of this counter cache: applies, in
    /// order, the counter events it has received since it was last synced. Which events those
    /// are rests on the server; whatever they are, the mirror changes exactly as applying them in
    /// order says.
    pub fn sync(&mut self, subscription: &mut T::Subscription)
        ensures
            exists|es: Seq<CounterUpdateEvent>| final(self).local() == counter_updates_effect(old(self).local(), es),
            final(self).cache_id() == old(self).cache_id(),
            final(self).transport() == old(self).transport(),
    {
        let events = subscription.take_counter_events();
        let ghost es = events@;
        self.apply_updates(events);
        assert(self.local() == counter_updates_effect(old(self).local(), es));
    }
}

/// What of a parsed item value an object view uses: the value when it is well formed (see
/// [`json_wf`]), and nothing otherwise.
pub open spec fn usable_value(parsed: Option<JsonValue>) -> Option<JsonValue> {
    match parsed {
        Some(v) => if json_wf(v) {
            Some(v)
        } else {
            None
        },
        None => None,
    }
}

/// A cache view whose values are JSON objects, backed by any [`CacheTransport`]: `PATCH_ITEM`
/// updates are deep-merged into the stored object (RFC 7386), so a patch-mode subscription, which
/// streams only the changed fields, rebuilds full objects locally.
pub struct EmbeddedObjects<'a, T: CacheTransport> {
    transport: &'a T,
    cache_id: String,
    local: LocalMirror<JsonValue>,
}

impl<'a, T: CacheTransport> EmbeddedObjects<'a, T> {
    /// Every stored object is well formed.
    #[verifier::type_invariant]
    closed spec fn inv(&self) -> bool {
        values_wf(self.local.view())
    }

    /// The cache this view works on.
    pub closed spec fn cache_id(&self) -> Seq<char> {
        self.cache_id@
    }

    /// The transport this view works through.
    pub closed spec fn transport(&self) -> &'a T {
        self.transport
    }

    /// The contents of the local mirror.
    pub closed spec fn local(&self) -> Map<Seq<char>, JsonValue> {
        self.local.view()
    }

    /// A view of `cache_id` over `transport`, with an empty local mirror.
    pub fn new(transport: &'a T, cache_id: String) -> (c: Self)
        ensures
            c.transport() == transport,
            c.cache_id() == cache_id@,
            c.local() == Map::<Seq<char>, JsonValue>::empty(),
    {
        EmbeddedObjects { transport, cache_id, local: LocalMirror::new() }
    }

    /// Reads an object from the local mirror (no network round-trip).
    pub fn get_local(&self, key: &str) -> (r: Option<&JsonValue>)
        ensures
            match r {
                Some(v) => self.local().contains_key(key@) && *v == self.local()[key@],
                None => !self.local().contains_key(key@),
            },
    {
        self.local.get(key)
    }

    /// The entries of the local mirror, with pairwise distinct keys.
    pub fn local_snapshot(&self) -> (r: &Vec<(String, JsonValue)>)
        ensures
            keys_distinct(r@),
            entries_map(r@) == self.local(),
    {
        self.local.entries()
    }

    /// Puts an object into the remote cache, as its compact JSON text.
    pub fn insert(&self, key: &str, value: &JsonValue) -> (r: Result<PutItemResponse, CacheError>)
        ensures
            self.transport().served(
                TransportCall::PutItem { cache_id: self.cache_id(), key: key@, value: json_text(*value) },
                TransportReply::Put(r),
            ),
    {
        let text = to_json_string(value);
        self.transport.put_item(self.cache_id.as_str(), key, text.as_str())
    }

    /// Puts an object into the remote cache, to be removed after `ttl` milliseconds.
    pub fn insert_timed(&self, key: &str, value: &JsonValue, ttl: i64) -> (r: Result<
        PutItemResponse,
        CacheError,
    >)
        ensures
            self.transport().served(
                TransportCall::PutTimedItem {
                    cache_id: self.cache_id(),
                    key: key@,
                    value: json_text(*value),
                    ttl,
                },
                TransportReply::Put(r),
            ),
    {
        let text = to_json_string(value);
        self.transport.put_timed_item(self.cache_id.as_str(), key, text.as_str(), ttl)
    }

    /// Deep-merges a JSON fragment into the stored object on the server (a `null` field deletes
    /// that field).
    pub fn patch(&self, key: &str, fragment: &JsonValue) -> (r: Result<PatchItemResponse, CacheError>)
        ensures
            self.transport().served(
                TransportCall::PatchItem {
                    cache_id: self.cache_id(),
                    key: key@,
                    value: json_text(*fragment),
                },
                TransportReply::Patch(r),
            ),
    {
        let text = to_json_string(fragment);
        self.transport.patch_item(self.cache_id.as_str(), key, text.as_str())
    }

    /// Reads an item from the remote cache.
    pub fn get(&self, key: &str) -> (r: Result<GetItemResponse, CacheError>)
        ensures
            self.transport().served(
                TransportCall::GetItem { cache_id: self.cache_id(), key: key@ },
                TransportReply::Get(r),
            ),
    {
        self.transport.get_item(self.cache_id.as_str(), key)
    }

    /// Removes an item from the remote cache.
    pub fn remove(&self, key: &str) -> (r: Result<DeleteItemResponse, CacheError>)
        ensures
            self.transport().served(
                TransportCall::DeleteItem { cache_id: self.cache_id(), key: key@ },
                TransportReply::Delete(r),
            ),
    {
        self.transport.delete_item(self.cache_id.as_str(), key)
    }

    /// Deletes the remote cache.
    pub fn clear(&self) -> (r: Result<DeleteCacheResponse, CacheError>)
        ensures
            self.transport().served(
                TransportCall::DeleteCache { cache_id: self.cache_id() },
                TransportReply::DeleteCache(r),
            ),
    {
        self.transport.delete_cache(self.cache_id.as_str())
    }

    /// Subscribes to the streaming updates of this cache; applying each delivered event with
    /// [`Self::apply_update`] keeps the local mirror in sync.
    pub fn subscribe(&self) -> (r: Result<T::Subscription, CacheError>)
        ensures
            self.transport().subscribed(
                TransportCall::SubscribeCacheUpdates { cache_id: self.cache_id(), hydrate: false },
                r,
            ),
    {
        self.subscribe_ext(false)
    }

    /// Subscribes to the streaming updates of this cache, first receiving the current contents
    /// when `hydrate`.
    pub fn subscribe_ext(&self, hydrate: bool) -> (r: Result<T::Subscription, CacheError>)
        ensures
            self.transport().subscribed(
                TransportCall::SubscribeCacheUpdates { cache_id: self.cache_id(), hydrate },
                r,
            ),
    {
        self.transport.subscribe_cache_updates(self.cache_id.as_str(), hydrate)
    }

    /// Applies one streamed update event to the local mirror; `parsed` is the event's item value
    /// parsed as JSON (`None` when it has none or it is not valid JSON). A parsed value that is
    /// not well formed is treated as no value.
    pub fn apply_update(&mut self, event: CacheUpdateEvent, parsed: Option<JsonValue>)
        ensures
            object_update_ok(old(self).local(), event, usable_value(parsed), final(self).local()),
            values_wf(final(self).local()),
            final(self).cache_id() == old(self).cache_id(),
            final(self).transport() == old(self).transport(),
    {
        proof {
            use_type_invariant(&*self);
        }
        let usable = match parsed {
            Some(v) => if json_is_wf(&v) {
                Some(v)
            } else {
                None
            },
            None => None,
        };
        let mut local = LocalMirror::new();
        std::mem::swap(&mut local, &mut self.local);
        update_object_local(&mut local, event, usable);
        self.local = local;
    }
}

/// Reading a key of the local mirror right after an `ADD_ITEM` event for it gives the event's
/// value.
pub proof fn lemma_add_then_read(m: Map<Seq<char>, String>, e: CacheUpdateEvent)
    requires
        e.event_type@ == "ADD_ITEM"@,
        e.item_key is Some,
        e.item_value is Some,
    ensures
        cache_update_effect(m, e).contains_key(e.item_key->0@),
        cache_update_effect(m, e)[e.item_key->0@] == e.item_value->0,
{
}

/// A `PATCH_ITEM` event never changes the string mirror: its value is only a fragment of the
/// item.
pub proof fn lemma_patch_ignored(m: Map<Seq<char>, String>, e: CacheUpdateEvent)
    requires
        e.event_type@ == "PATCH_ITEM"@,
    ensures
        cache_update_effect(m, e) == m,
{
    reveal_strlit("PATCH_ITEM");
    reveal_strlit("ADD_ITEM");
    reveal_strlit("REMOVE_ITEM");
    reveal_strlit("CLEAR_CACHE");
    reveal_strlit("DELETE_CACHE");
    assert("PATCH_ITEM"@.len() == 10);
    assert("ADD_ITEM"@.len() == 8);
    assert("REMOVE_ITEM"@.len() == 11);
    assert("CLEAR_CACHE"@.len() == 11);
    assert("DELETE_CACHE"@.len() == 12);
    assert(e.event_type@ != "ADD_ITEM"@);
    assert(e.event_type@ != "REMOVE_ITEM"@);
    assert(e.event_type@ != "CLEAR_CACHE"@);
    assert(e.event_type@ != "DELETE_CACHE"@);
}

/// An event that does not clear the mirror leaves every key other than its own as it was.
pub proof fn lemma_other_keys_unchanged(m: Map<Seq<char>, String>, e: CacheUpdateEvent, k: Seq<char>)
    requires
        e.event_type@ != "CLEAR_CACHE"@,
        e.event_type@ != "DELETE_CACHE"@,
        e.item_key matches Some(ek) ==> ek@ != k,
    ensures
        cache_update_effect(m, e).contains_key(k) == m.contains_key(k),
        m.contains_key(k) ==> cache_update_effect(m, e)[k] == m[k],
{
}

/// After an `ADD_ITEM` and then a `REMOVE_ITEM` event for the same key, the key is gone.
pub proof fn lemma_remove_after_add(m: Map<Seq<char>, String>, add: CacheUpdateEvent, rem: CacheUpdateEvent)
    requires
        add.event_type@ == "ADD_ITEM"@,
        rem.event_type@ == "REMOVE_ITEM"@,
        add.item_key is Some,
        rem.item_key is Some,
        add.item_key->0@ == rem.item_key->0@,
    ensures
        !cache_update_effect(cache_update_effect(m, add), rem).contains_key(rem.item_key->0@),
{
    reveal_strlit("ADD_ITEM");
    reveal_strlit("REMOVE_ITEM");
    assert("ADD_ITEM"@.len() == 8);
    assert("REMOVE_ITEM"@.len() == 11);
    assert(rem.event_type@ != "ADD_ITEM"@);
}

/// `CLEAR_CACHE` and `DELETE_CACHE` events empty the mirror, whatever it held.
pub proof fn lemma_clear_empties(m: Map<Seq<char>, String>, e: CacheUpdateEvent)
    requires
        e.event_type@ == "CLEAR_CACHE"@ || e.event_type@ == "DELETE_CACHE"@,
    ensures
        cache_update_effect(m, e) == Map::<Seq<char>, String>::empty(),
{
    reveal_strlit("ADD_ITEM");
    reveal_strlit("REMOVE_ITEM");
    reveal_strlit("CLEAR_CACHE");
    reveal_strlit("DELETE_CACHE");
    assert("ADD_ITEM"@.len() == 8);
    assert("REMOVE_ITEM"@[0] == 'R');
    assert("CLEAR_CACHE"@.len() == 11 && "CLEAR_CACHE"@[0] == 'C');
    assert("DELETE_CACHE"@.len() == 12);
    assert(e.event_type@ != "ADD_ITEM"@);
    assert(e.event_type@ != "REMOVE_ITEM"@);
}

/// Reading a counter of the local mirror right after an `ADD_ITEM` event for it gives the
/// event's value.
pub proof fn lemma_counter_add_then_read(m: Map<Seq<char>, i64>, e: CounterUpdateEvent)
    requires
        e.event_type@ == "ADD_ITEM"@,
        e.item_key is Some,
        e.item_value is Some,
    ensures
        counter_update_effect(m, e).contains_key(e.item_key->0@),
        counter_update_effect(m, e)[e.item_key->0@] == e.item_value->0,
{
}

/// A counter event that does not clear the mirror leaves every key other than its own as it was.
pub proof fn lemma_counter_other_keys_unchanged(
    m: Map<Seq<char>, i64>,
    e: CounterUpdateEvent,
    k: Seq<char>,
)
    requires
        e.event_type@ != "CLEAR_CACHE"@,
        e.event_type@ != "DELETE_CACHE"@,
        e.item_key matches Some(ek) ==> ek@ != k,
    ensures
        counter_update_effect(m, e).contains_key(k) == m.contains_key(k),
        m.contains_key(k) ==> counter_update_effect(m, e)[k] == m[k],
{
}

/// After an `ADD_ITEM` and then a `REMOVE_ITEM` counter event for the same key, the key is gone.
pub proof fn lemma_counter_remove_after_add(
    m: Map<Seq<char>, i64>,
    add: CounterUpdateEvent,
    rem: CounterUpdateEvent,
)
    requires
        add.event_type@ == "ADD_ITEM"@,
        rem.event_type@ == "REMOVE_ITEM"@,
        add.item_key is Some,
        rem.item_key is Some,
        add.item_key->0@ == rem.item_key->0@,
    ensures
        !counter_update_effect(counter_update_effect(m, add), rem).contains_key(rem.item_key->0@),
{
    reveal_strlit("ADD_ITEM");
    reveal_strlit("REMOVE_ITEM");
    assert("ADD_ITEM"@.len() == 8);
    assert("REMOVE_ITEM"@.len() == 11);
    assert(rem.event_type@ != "ADD_ITEM"@);
}

/// `CLEAR_CACHE` and `DELETE_CACHE` counter events empty the mirror, whatever it held.
pub proof fn lemma_counter_clear_empties(m: Map<Seq<char>, i64>, e: CounterUpdateEvent)
    requires
        e.event_type@ == "CLEAR_CACHE"@ || e.event_type@ == "DELETE_CACHE"@,
    ensures
        counter_update_effect(m, e) == Map::<Seq<char>, i64>::empty(),
{
    reveal_strlit("ADD_ITEM");
    reveal_strlit("REMOVE_ITEM");
    reveal_strlit("CLEAR_CACHE");
    reveal_strlit("DELETE_CACHE");
    assert("ADD_ITEM"@.len() == 8);
    assert("REMOVE_ITEM"@[0] == 'R');
    assert("CLEAR_CACHE"@.len() == 11 && "CLEAR_CACHE"@[0] == 'C');
    assert("DELETE_CACHE"@.len() == 12);
    assert(e.event_type@ != "ADD_ITEM"@);
    assert(e.event_type@ != "REMOVE_ITEM"@);
}

} // verus!
