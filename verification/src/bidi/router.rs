//! Routing of incoming bidi frames: the requests that wait on a correlation id, the batches that
//! accumulate until their end-of-batch frame, and the streaming listeners, which are found by
//! cache id. [`BidiRouter::dispatch`] turns one frame into the deliveries it causes; the
//! connection's reader performs them.

use vstd::prelude::*;
use crate::bidi::frames::{
    op_response_from_json, op_response_view, opt_string_view, parse_op_response, parse_stat,
    parse_timer, stat_entry_from_json, stat_view, timer_from_json, timer_view,
};
use crate::json::{
    bool_field, bool_field_of, field_of, into_field, json_get, json_wf, lemma_field_wf, str_field,
    sv, value_int, value_text, value_to_i64, value_to_string, JsonValue,
};
use crate::mirror::{
    entries_map, keys_distinct, lemma_entries_map_suffix, lemma_subrange_distinct, LocalMirror,
};
use crate::order::{keys_ascending, sort_by_key};
use crate::model::{
    CacheOperationResponse, CacheUpdateEvent, CounterUpdateEvent, StatEntry, TimerInfo,
};
use crate::text::{push_str, text_is};

verus! {

/// The kinds of request that wait on a correlation id.
#[derive(Clone, Copy, Debug, PartialEq, Eq, Structural)]
pub enum RequestKind {
    Command,
    Entries,
    Stats,
    Timers,
    Bulk,
    SubscribeAck,
}

/// A batched entries request being accumulated: the items received so far and the cache id and
/// status of the latest batch.
pub struct EntriesBatch {
    pub items: LocalMirror<JsonValue>,
    pub cache_id: String,
    pub status: String,
}

/// What one incoming frame asks the connection to do.
#[derive(Debug)]
pub enum BidiDelivery {
    /// Hand a command response frame to the command waiting on `correlation_id`.
    Reply { correlation_id: String, frame: JsonValue },
    /// Complete a batched entries request.
    Entries { correlation_id: String, items: Vec<(String, JsonValue)>, cache_id: String, status: String },
    /// Complete a batched stats request.
    Stats { correlation_id: String, stats: Vec<StatEntry> },
    /// Complete a batched timers request.
    Timers { correlation_id: String, timers: Vec<TimerInfo> },
    /// Complete a bulk request.
    Bulk { correlation_id: String, responses: Vec<CacheOperationResponse> },
    /// Release the subscriber waiting for the acknowledgement of `correlation_id`.
    Subscribed { correlation_id: String },
    /// Hand a cache update to the listener registered under `subscription`.
    CacheEvent { subscription: String, event: CacheUpdateEvent },
    /// Hand a counter update to the listener registered under `subscription`.
    CounterEvent { subscription: String, event: CounterUpdateEvent },
    /// Fail the request of kind `kind` waiting on `correlation_id`.
    Failed { kind: RequestKind, correlation_id: String, message: String },
}

/// The plain fields of a cache update: cache id, event type, key, value and request id.
pub open spec fn cache_event_view(e: CacheUpdateEvent) -> (
    Seq<char>,
    Seq<char>,
    Option<Seq<char>>,
    Option<Seq<char>>,
    Seq<char>,
) {
    (e.cache_id@, e.event_type@, opt_string_view(e.item_key), opt_string_view(e.item_value), e.request_id@)
}

/// The plain fields of a counter update: cache id, event type, key, value and request id.
pub open spec fn counter_event_view(e: CounterUpdateEvent) -> (
    Seq<char>,
    Seq<char>,
    Option<Seq<char>>,
    Option<i64>,
    Seq<char>,
) {
    (e.cache_id@, e.event_type@, opt_string_view(e.item_key), e.item_value, e.request_id@)
}

/// A delivery, as plain values.
pub enum Delivered {
    Reply(Seq<char>, JsonValue),
    Entries(Seq<char>, Map<Seq<char>, JsonValue>, Seq<char>, Seq<char>),
    Stats(Seq<char>, Seq<(Seq<char>, i64, i64, i64, i64)>),
    Timers(Seq<char>, Seq<(Seq<char>, Seq<char>, Seq<char>, i64)>),
    Bulk(Seq<char>, Seq<(Seq<char>, Seq<char>, Seq<char>, Option<Seq<char>>, Option<Seq<char>>)>),
    Subscribed(Seq<char>),
    CacheEvent(Seq<char>, (Seq<char>, Seq<char>, Option<Seq<char>>, Option<Seq<char>>, Seq<char>)),
    CounterEvent(Seq<char>, (Seq<char>, Seq<char>, Option<Seq<char>>, Option<i64>, Seq<char>)),
    Failed(RequestKind, Seq<char>, Seq<char>),
}

/// The stats entries of a list, as plain values.
pub open spec fn stat_views(s: Seq<StatEntry>) -> Seq<(Seq<char>, i64, i64, i64, i64)> {
    s.map_values(|e: StatEntry| stat_view(e))
}

/// The timers of a list, as plain values.
pub open spec fn timer_views(s: Seq<TimerInfo>) -> Seq<(Seq<char>, Seq<char>, Seq<char>, i64)> {
    s.map_values(|t: TimerInfo| timer_view(t))
}

/// The bulk operation responses of a list, as plain values.
pub open spec fn op_response_views(s: Seq<CacheOperationResponse>) -> Seq<
    (Seq<char>, Seq<char>, Seq<char>, Option<Seq<char>>, Option<Seq<char>>),
> {
    s.map_values(|r: CacheOperationResponse| op_response_view(r))
}

/// A delivery as plain values. The items of an entries delivery are read as a map; they are
/// listed in ascending key order (see [`delivery_wf`]).
pub open spec fn delivered(d: BidiDelivery) -> Delivered {
    match d {
        BidiDelivery::Reply { correlation_id, frame } => Delivered::Reply(correlation_id@, frame),
        BidiDelivery::Entries { correlation_id, items, cache_id, status } => Delivered::Entries(
            correlation_id@,
            entries_map(items@),
            cache_id@,
            status@,
        ),
        BidiDelivery::Stats { correlation_id, stats } => Delivered::Stats(
            correlation_id@,
            stat_views(stats@),
        ),
        BidiDelivery::Timers { correlation_id, timers } => Delivered::Timers(
            correlation_id@,
            timer_views(timers@),
        ),
        BidiDelivery::Bulk { correlation_id, responses } => Delivered::Bulk(
            correlation_id@,
            op_response_views(responses@),
        ),
        BidiDelivery::Subscribed { correlation_id } => Delivered::Subscribed(correlation_id@),
        BidiDelivery::CacheEvent { subscription, event } => Delivered::CacheEvent(
            subscription@,
            cache_event_view(event),
        ),
        BidiDelivery::CounterEvent { subscription, event } => Delivered::CounterEvent(
            subscription@,
            counter_event_view(event),
        ),
        BidiDelivery::Failed { kind, correlation_id, message } => Delivered::Failed(
            kind,
            correlation_id@,
            message@,
        ),
    }
}

/// The items of an entries delivery are listed in ascending key order (so their keys are
/// pairwise distinct).
pub open spec fn delivery_wf(d: BidiDelivery) -> bool {
    match d {
        BidiDelivery::Entries { items, .. } => keys_ascending(items@),
        _ => true,
    }
}

/// A list of deliveries, as plain values.
pub open spec fn delivered_all(s: Seq<BidiDelivery>) -> Seq<Delivered> {
    s.map_values(|d: BidiDelivery| delivered(d))
}

/// The state of a router, as plain values: the pending requests of each kind (with what the
/// batched ones have accumulated so far) and the listeners, as (cache id, subscription id) pairs
/// in registration order.
#[verifier::ext_equal]
pub struct RouterState {
    pub commands: Set<Seq<char>>,
    pub entries: Map<Seq<char>, (Map<Seq<char>, JsonValue>, Seq<char>, Seq<char>)>,
    pub stats: Map<Seq<char>, Seq<(Seq<char>, i64, i64, i64, i64)>>,
    pub timers: Map<Seq<char>, Seq<(Seq<char>, Seq<char>, Seq<char>, i64)>>,
    pub bulk: Map<
        Seq<char>,
        Seq<(Seq<char>, Seq<char>, Seq<char>, Option<Seq<char>>, Option<Seq<char>>)>,
    >,
    pub sub_acks: Set<Seq<char>>,
    pub cache_listeners: Seq<(Seq<char>, Seq<char>)>,
    pub counter_listeners: Seq<(Seq<char>, Seq<char>)>,
}

/// Whether a request of kind `kind` waits on `cid`.
pub open spec fn is_pending(s: RouterState, kind: RequestKind, cid: Seq<char>) -> bool {
    match kind {
        RequestKind::Command => s.commands.contains(cid),
        RequestKind::Entries => s.entries.contains_key(cid),
        RequestKind::Stats => s.stats.contains_key(cid),
        RequestKind::Timers => s.timers.contains_key(cid),
        RequestKind::Bulk => s.bulk.contains_key(cid),
        RequestKind::SubscribeAck => s.sub_acks.contains(cid),
    }
}

/// The state after a request of kind `kind` starts waiting on `cid` (with nothing accumulated).
pub open spec fn registered(s: RouterState, kind: RequestKind, cid: Seq<char>) -> RouterState {
    match kind {
        RequestKind::Command => RouterState { commands: s.commands.insert(cid), ..s },
        RequestKind::Entries => RouterState {
            entries: s.entries.insert(cid, (Map::empty(), Seq::empty(), Seq::empty())),
            ..s
        },
        RequestKind::Stats => RouterState { stats: s.stats.insert(cid, Seq::empty()), ..s },
        RequestKind::Timers => RouterState { timers: s.timers.insert(cid, Seq::empty()), ..s },
        RequestKind::Bulk => RouterState { bulk: s.bulk.insert(cid, Seq::empty()), ..s },
        RequestKind::SubscribeAck => RouterState { sub_acks: s.sub_acks.insert(cid), ..s },
    }
}

/// The state after the request of kind `kind` on `cid`, if any, stops waiting.
pub open spec fn withdrawn(s: RouterState, kind: RequestKind, cid: Seq<char>) -> RouterState {
    match kind {
        RequestKind::Command => RouterState { commands: s.commands.remove(cid), ..s },
        RequestKind::Entries => RouterState { entries: s.entries.remove(cid), ..s },
        RequestKind::Stats => RouterState { stats: s.stats.remove(cid), ..s },
        RequestKind::Timers => RouterState { timers: s.timers.remove(cid), ..s },
        RequestKind::Bulk => RouterState { bulk: s.bulk.remove(cid), ..s },
        RequestKind::SubscribeAck => RouterState { sub_acks: s.sub_acks.remove(cid), ..s },
    }
}

/// The listeners of `ls` other than the pair (`cache_id`, `sub`), in order.
pub open spec fn without_listener(
    ls: Seq<(Seq<char>, Seq<char>)>,
    cache_id: Seq<char>,
    sub: Seq<char>,
) -> Seq<(Seq<char>, Seq<char>)>
    decreases ls.len(),
{
    if ls.len() == 0 {
        Seq::empty()
    } else {
        let rest = without_listener(ls.drop_last(), cache_id, sub);
        if ls.last() == (cache_id, sub) {
            rest
        } else {
            rest.push(ls.last())
        }
    }
}

/// The cache updates delivered to the listeners of `ls` registered for `cache_id`, in order.
pub open spec fn cache_deliveries(
    ls: Seq<(Seq<char>, Seq<char>)>,
    cache_id: Seq<char>,
    ev: (Seq<char>, Seq<char>, Option<Seq<char>>, Option<Seq<char>>, Seq<char>),
) -> Seq<Delivered>
    decreases ls.len(),
{
    if ls.len() == 0 {
        Seq::empty()
    } else {
        let rest = cache_deliveries(ls.drop_last(), cache_id, ev);
        if ls.last().0 == cache_id {
            rest.push(Delivered::CacheEvent(ls.last().1, ev))
        } else {
            rest
        }
    }
}

/// The counter updates delivered to the listeners of `ls` registered for `cache_id`, in order.
pub open spec fn counter_deliveries(
    ls: Seq<(Seq<char>, Seq<char>)>,
    cache_id: Seq<char>,
    ev: (Seq<char>, Seq<char>, Option<Seq<char>>, Option<i64>, Seq<char>),
) -> Seq<Delivered>
    decreases ls.len(),
{
    if ls.len() == 0 {
        Seq::empty()
    } else {
        let rest = counter_deliveries(ls.drop_last(), cache_id, ev);
        if ls.last().0 == cache_id {
            rest.push(Delivered::CounterEvent(ls.last().1, ev))
        } else {
            rest
        }
    }
}

/// The listener pairs of a list, as plain values.
pub open spec fn pair_views(v: Seq<(String, String)>) -> Seq<(Seq<char>, Seq<char>)> {
    v.map_values(|p: (String, String)| (p.0@, p.1@))
}

/// An entries batch, as plain values.
pub open spec fn batch_view(b: EntriesBatch) -> (Map<Seq<char>, JsonValue>, Seq<char>, Seq<char>) {
    (b.items@, b.cache_id@, b.status@)
}

/// The `type` of a frame.
pub open spec fn frame_type(msg: JsonValue) -> Seq<char> {
    str_field(msg, "type"@)
}

/// The correlation id of a frame (empty when it has none).
pub open spec fn frame_correlation_id(msg: JsonValue) -> Seq<char> {
    str_field(msg, "correlationId"@)
}

/// Whether a frame is the last of its batch.
pub open spec fn end_of_batch(msg: JsonValue) -> bool {
    bool_field(msg, "endOfBatch"@)
}

/// The fields of the object held by the field `key` of `msg`, as a map (empty when there is no
/// such object).
pub open spec fn object_items(msg: JsonValue, key: Seq<char>) -> Map<Seq<char>, JsonValue> {
    match field_of(msg, key) {
        Some(JsonValue::Object(f)) => entries_map(f@),
        _ => Map::empty(),
    }
}

/// The items of the array held by the field `key` of `msg` (none when there is no such array).
pub open spec fn array_items(msg: JsonValue, key: Seq<char>) -> Seq<JsonValue> {
    match field_of(msg, key) {
        Some(JsonValue::Array(a)) => a@,
        _ => Seq::empty(),
    }
}

/// The stats entries that the items read as, skipping those that do not.
pub open spec fn parsed_stats(items: Seq<JsonValue>) -> Seq<(Seq<char>, i64, i64, i64, i64)>
    decreases items.len(),
{
    if items.len() == 0 {
        Seq::empty()
    } else {
        let rest = parsed_stats(items.drop_last());
        match parse_stat(items.last()) {
            Some(x) => rest.push(x),
            None => rest,
        }
    }
}

/// The timers that the items read as, skipping those that do not.
pub open spec fn parsed_timers(items: Seq<JsonValue>) -> Seq<(Seq<char>, Seq<char>, Seq<char>, i64)>
    decreases items.len(),
{
    if items.len() == 0 {
        Seq::empty()
    } else {
        let rest = parsed_timers(items.drop_last());
        match parse_timer(items.last()) {
            Some(x) => rest.push(x),
            None => rest,
        }
    }
}

/// The bulk operation responses that the items read as, skipping those that do not.
pub open spec fn parsed_op_responses(items: Seq<JsonValue>) -> Seq<
    (Seq<char>, Seq<char>, Seq<char>, Option<Seq<char>>, Option<Seq<char>>),
>
    decreases items.len(),
{
    if items.len() == 0 {
        Seq::empty()
    } else {
        let rest = parsed_op_responses(items.drop_last());
        match parse_op_response(items.last()) {
            Some(x) => rest.push(x),
            None => rest,
        }
    }
}

/// The string held by the field `key` of `msg`, if it holds one.
pub open spec fn opt_str_field(msg: JsonValue, key: Seq<char>) -> Option<Seq<char>> {
    match field_of(msg, key) {
        Some(JsonValue::Str(s)) => Some(s@),
        _ => None,
    }
}

/// The string held by the field `key` of `msg`, or `default`.
pub open spec fn str_field_or(msg: JsonValue, key: Seq<char>, default: Seq<char>) -> Seq<char> {
    match field_of(msg, key) {
        Some(JsonValue::Str(s)) => s@,
        _ => default,
    }
}

/// The `value` of a stream update (`null` when absent).
pub open spec fn stream_value(msg: JsonValue) -> JsonValue {
    match field_of(msg, "value"@) {
        Some(v) => v,
        None => JsonValue::Null,
    }
}

/// The cache update that a stream update frame carries.
pub open spec fn stream_cache_event(msg: JsonValue) -> (
    Seq<char>,
    Seq<char>,
    Option<Seq<char>>,
    Option<Seq<char>>,
    Seq<char>,
) {
    (
        str_field(msg, "cacheId"@),
        str_field(msg, "eventType"@),
        opt_str_field(msg, "key"@),
        if stream_value(msg) is Null {
            None
        } else {
            Some(value_text(stream_value(msg)))
        },
        frame_correlation_id(msg),
    )
}

/// The counter update that a stream update frame carries.
pub open spec fn stream_counter_event(msg: JsonValue) -> (
    Seq<char>,
    Seq<char>,
    Option<Seq<char>>,
    Option<i64>,
    Seq<char>,
) {
    (
        str_field(msg, "cacheId"@),
        str_field(msg, "eventType"@),
        opt_str_field(msg, "key"@),
        if stream_value(msg) is Null {
            None
        } else {
            Some(value_int(stream_value(msg)))
        },
        frame_correlation_id(msg),
    )
}

/// The text with which an error frame fails a request: `bidi error [STATUS]: MESSAGE`, the status
/// being `ERROR` when the frame carries none.
pub open spec fn error_text(msg: JsonValue) -> Seq<char> {
    "bidi error ["@ + str_field_or(msg, "status"@, "ERROR"@) + "]: "@ + str_field_or(
        msg,
        "message"@,
        Seq::empty(),
    )
}

/// A command response completes the command waiting on its correlation id.
pub open spec fn route_reply(s: RouterState, cid: Seq<char>, msg: JsonValue) -> (
    RouterState,
    Seq<Delivered>,
) {
    if s.commands.contains(cid) {
        (withdrawn(s, RequestKind::Command, cid), seq![Delivered::Reply(cid, msg)])
    } else {
        (s, Seq::empty())
    }
}

/// An entries frame adds its items to the batch waiting on its correlation id, whose cache id
/// and status become the frame's; the last frame of the batch completes it.
pub open spec fn route_entries(s: RouterState, cid: Seq<char>, msg: JsonValue) -> (
    RouterState,
    Seq<Delivered>,
) {
    if s.entries.contains_key(cid) {
        let items = s.entries[cid].0.union_prefer_right(object_items(msg, "items"@));
        let c = str_field(msg, "cacheId"@);
        let st = str_field(msg, "status"@);
        if end_of_batch(msg) {
            (withdrawn(s, RequestKind::Entries, cid), seq![Delivered::Entries(cid, items, c, st)])
        } else {
            (RouterState { entries: s.entries.insert(cid, (items, c, st)), ..s }, Seq::empty())
        }
    } else {
        (s, Seq::empty())
    }
}

/// A stats frame appends the entries it carries to the batch waiting on its correlation id; the
/// last frame of the batch completes it.
pub open spec fn route_stats(s: RouterState, cid: Seq<char>, msg: JsonValue) -> (
    RouterState,
    Seq<Delivered>,
) {
    if s.stats.contains_key(cid) {
        let acc = s.stats[cid] + parsed_stats(array_items(msg, "stats"@));
        if end_of_batch(msg) {
            (withdrawn(s, RequestKind::Stats, cid), seq![Delivered::Stats(cid, acc)])
        } else {
            (RouterState { stats: s.stats.insert(cid, acc), ..s }, Seq::empty())
        }
    } else {
        (s, Seq::empty())
    }
}

/// A timers frame appends the timers it carries to the batch waiting on its correlation id; the
/// last frame of the batch completes it.
pub open spec fn route_timers(s: RouterState, cid: Seq<char>, msg: JsonValue) -> (
    RouterState,
    Seq<Delivered>,
) {
    if s.timers.contains_key(cid) {
        let acc = s.timers[cid] + parsed_timers(array_items(msg, "timers"@));
        if end_of_batch(msg) {
            (withdrawn(s, RequestKind::Timers, cid), seq![Delivered::Timers(cid, acc)])
        } else {
            (RouterState { timers: s.timers.insert(cid, acc), ..s }, Seq::empty())
        }
    } else {
        (s, Seq::empty())
    }
}

/// A bulk response frame appends the operation results it carries to the bulk request waiting on
/// its correlation id; the last frame of the batch completes it.
pub open spec fn route_bulk(s: RouterState, cid: Seq<char>, msg: JsonValue) -> (
    RouterState,
    Seq<Delivered>,
) {
    if s.bulk.contains_key(cid) {
        let acc = s.bulk[cid] + parsed_op_responses(array_items(msg, "operationResponses"@));
        if end_of_batch(msg) {
            (withdrawn(s, RequestKind::Bulk, cid), seq![Delivered::Bulk(cid, acc)])
        } else {
            (RouterState { bulk: s.bulk.insert(cid, acc), ..s }, Seq::empty())
        }
    } else {
        (s, Seq::empty())
    }
}

/// A subscription acknowledgement releases the subscriber waiting on its correlation id.
pub open spec fn route_subscribed(s: RouterState, cid: Seq<char>) -> (RouterState, Seq<Delivered>) {
    if s.sub_acks.contains(cid) {
        (withdrawn(s, RequestKind::SubscribeAck, cid), seq![Delivered::Subscribed(cid)])
    } else {
        (s, Seq::empty())
    }
}

/// A stream update goes to every cache listener registered for its cache id, then to every
/// counter listener registered for it, each in registration order; nothing else changes.
pub open spec fn route_stream(s: RouterState, msg: JsonValue) -> (RouterState, Seq<Delivered>) {
    let c = str_field(msg, "cacheId"@);
    (
        s,
        cache_deliveries(s.cache_listeners, c, stream_cache_event(msg)) + counter_deliveries(
            s.counter_listeners,
            c,
            stream_counter_event(msg),
        ),
    )
}

/// An error frame with a correlation id fails the first request waiting on it, looking at
/// commands, entries, stats, timers, bulk requests and subscription acknowledgements in turn.
pub open spec fn route_error(s: RouterState, cid: Seq<char>, msg: JsonValue) -> (
    RouterState,
    Seq<Delivered>,
) {
    let text = error_text(msg);
    if cid.len() == 0 {
        (s, Seq::empty())
    } else if s.commands.contains(cid) {
        (withdrawn(s, RequestKind::Command, cid), seq![Delivered::Failed(RequestKind::Command, cid, text)])
    } else if s.entries.contains_key(cid) {
        (withdrawn(s, RequestKind::Entries, cid), seq![Delivered::Failed(RequestKind::Entries, cid, text)])
    } else if s.stats.contains_key(cid) {
        (withdrawn(s, RequestKind::Stats, cid), seq![Delivered::Failed(RequestKind::Stats, cid, text)])
    } else if s.timers.contains_key(cid) {
        (withdrawn(s, RequestKind::Timers, cid), seq![Delivered::Failed(RequestKind::Timers, cid, text)])
    } else if s.bulk.contains_key(cid) {
        (withdrawn(s, RequestKind::Bulk, cid), seq![Delivered::Failed(RequestKind::Bulk, cid, text)])
    } else if s.sub_acks.contains(cid) {
        (
            withdrawn(s, RequestKind::SubscribeAck, cid),
            seq![Delivered::Failed(RequestKind::SubscribeAck, cid, text)],
        )
    } else {
        (s, Seq::empty())
    }
}

/// What one incoming frame does to a router's state, and the deliveries it causes, chosen by the
/// frame's `type`; a frame of any other type does nothing.
pub open spec fn routed(s: RouterState, msg: JsonValue) -> (RouterState, Seq<Delivered>) {
    let t = frame_type(msg);
    let cid = frame_correlation_id(msg);
    if t == "commandResponse"@ {
        route_reply(s, cid, msg)
    } else if t == "entries"@ {
        route_entries(s, cid, msg)
    } else if t == "stats"@ {
        route_stats(s, cid, msg)
    } else if t == "timers"@ {
        route_timers(s, cid, msg)
    } else if t == "bulkResponse"@ {
        route_bulk(s, cid, msg)
    } else if t == "subscribed"@ {
        route_subscribed(s, cid)
    } else if t == "streamUpdate"@ {
        route_stream(s, msg)
    } else if t == "error"@ {
        route_error(s, cid, msg)
    } else {
        (s, Seq::empty())
    }
}

/// The pending requests and streaming listeners of a bidi connection.
pub struct BidiRouter {
    commands: LocalMirror<()>,
    entries: LocalMirror<EntriesBatch>,
    stats: LocalMirror<Vec<StatEntry>>,
    timers: LocalMirror<Vec<TimerInfo>>,
    bulk: LocalMirror<Vec<CacheOperationResponse>>,
    sub_acks: LocalMirror<()>,
    cache_listeners: Vec<(String, String)>,
    counter_listeners: Vec<(String, String)>,
}

impl BidiRouter {
    /// This router's state, as plain values.
    pub closed spec fn state(&self) -> RouterState {
        RouterState {
            commands: self.commands@.dom(),
            entries: self.entries@.map_values(|b: EntriesBatch| batch_view(b)),
            stats: self.stats@.map_values(|v: Vec<StatEntry>| stat_views(v@)),
            timers: self.timers@.map_values(|v: Vec<TimerInfo>| timer_views(v@)),
            bulk: self.bulk@.map_values(|v: Vec<CacheOperationResponse>| op_response_views(v@)),
            sub_acks: self.sub_acks@.dom(),
            cache_listeners: pair_views(self.cache_listeners@),
            counter_listeners: pair_views(self.counter_listeners@),
        }
    }

    /// A router with nothing pending and no listener.
    pub fn new() -> (r: Self)
        ensures
            r.state() == (RouterState {
                commands: Set::empty(),
                entries: Map::empty(),
                stats: Map::empty(),
                timers: Map::empty(),
                bulk: Map::empty(),
                sub_acks: Set::empty(),
                cache_listeners: Seq::empty(),
                counter_listeners: Seq::empty(),
            }),
    {
        let r = BidiRouter {
            commands: LocalMirror::new(),
            entries: LocalMirror::new(),
            stats: LocalMirror::new(),
            timers: LocalMirror::new(),
            bulk: LocalMirror::new(),
            sub_acks: LocalMirror::new(),
            cache_listeners: Vec::new(),
            counter_listeners: Vec::new(),
        };
        assert(r.state().commands =~= Set::empty());
        assert(r.state().sub_acks =~= Set::empty());
        assert(r.state().entries =~= Map::empty());
        assert(r.state().stats =~= Map::empty());
        assert(r.state().timers =~= Map::empty());
        assert(r.state().bulk =~= Map::empty());
        assert(r.state().cache_listeners =~= Seq::empty());
        assert(r.state().counter_listeners =~= Seq::empty());
        r
    }

    /// Starts a request of kind `kind` waiting on `cid`, with nothing accumulated; a request of
    /// the same kind already waiting on `cid` is forgotten.
    pub fn register(&mut self, kind: RequestKind, cid: String)
        ensures
            final(self).state() == registered(old(self).state(), kind, cid@),
    {
        let ghost s = self.state();
        let ghost k = cid@;
        match kind {
            RequestKind::Command => {
                self.commands.insert(cid, ());
                assert(self.state().commands =~= s.commands.insert(k));
            },
            RequestKind::Entries => {
                let batch = EntriesBatch {
                    items: LocalMirror::new(),
                    cache_id: String::new(),
                    status: String::new(),
                };
                self.entries.insert(cid, batch);
                assert(self.state().entries =~= s.entries.insert(
                    k,
                    (Map::empty(), Seq::empty(), Seq::empty()),
                ));
            },
            RequestKind::Stats => {
                self.stats.insert(cid, Vec::new());
                assert(stat_views(Seq::<StatEntry>::empty()) =~= Seq::empty());
                assert(self.state().stats =~= s.stats.insert(k, Seq::empty()));
            },
            RequestKind::Timers => {
                self.timers.insert(cid, Vec::new());
                assert(timer_views(Seq::<TimerInfo>::empty()) =~= Seq::empty());
                assert(self.state().timers =~= s.timers.insert(k, Seq::empty()));
            },
            RequestKind::Bulk => {
                self.bulk.insert(cid, Vec::new());
                assert(op_response_views(Seq::<CacheOperationResponse>::empty()) =~= Seq::empty());
                assert(self.state().bulk =~= s.bulk.insert(k, Seq::empty()));
            },
            RequestKind::SubscribeAck => {
                self.sub_acks.insert(cid, ());
                assert(self.state().sub_acks =~= s.sub_acks.insert(k));
            },
        }
    }

    /// Stops the request of kind `kind` on `cid` from waiting (after its frame could not be sent,
    /// or its wait timed out); says whether one was waiting.
    pub fn withdraw(&mut self, kind: RequestKind, cid: &str) -> (r: bool)
        ensures
            r == is_pending(old(self).state(), kind, cid@),
            final(self).state() == withdrawn(old(self).state(), kind, cid@),
    {
        let ghost s = self.state();
        let ghost k = cid@;
        match kind {
            RequestKind::Command => {
                let r = self.commands.remove(cid);
                assert(self.state().commands =~= s.commands.remove(k));
                r.is_some()
            },
            RequestKind::Entries => {
                let r = self.entries.remove(cid);
                assert(self.state().entries =~= s.entries.remove(k));
                r.is_some()
            },
            RequestKind::Stats => {
                let r = self.stats.remove(cid);
                assert(self.state().stats =~= s.stats.remove(k));
                r.is_some()
            },
            RequestKind::Timers => {
                let r = self.timers.remove(cid);
                assert(self.state().timers =~= s.timers.remove(k));
                r.is_some()
            },
            RequestKind::Bulk => {
                let r = self.bulk.remove(cid);
                assert(self.state().bulk =~= s.bulk.remove(k));
                r.is_some()
            },
            RequestKind::SubscribeAck => {
                let r = self.sub_acks.remove(cid);
                assert(self.state().sub_acks =~= s.sub_acks.remove(k));
                r.is_some()
            },
        }
    }

    /// Registers the listener `subscription` for the updates of `cache_id` (of a counter cache
    /// when `counters`).
    pub fn add_listener(&mut self, counters: bool, cache_id: String, subscription: String)
        ensures
            counters ==> final(self).state() == (RouterState {
                counter_listeners: old(self).state().counter_listeners.push(
                    (cache_id@, subscription@),
                ),
                ..old(self).state()
            }),
            !counters ==> final(self).state() == (RouterState {
                cache_listeners: old(self).state().cache_listeners.push((cache_id@, subscription@)),
                ..old(self).state()
            }),
    {
        let ghost s = self.state();
        let ghost p = (cache_id@, subscription@);
        if counters {
            self.counter_listeners.push((cache_id, subscription));
            assert(self.state().counter_listeners =~= s.counter_listeners.push(p));
        } else {
            self.cache_listeners.push((cache_id, subscription));
            assert(self.state().cache_listeners =~= s.cache_listeners.push(p));
        }
    }

    /// Removes the listener `subscription` of `cache_id` (of a counter cache when `counters`);
    /// the other listeners keep their order.
    pub fn remove_listener(&mut self, counters: bool, cache_id: &str, subscription: &str)
        ensures
            counters ==> final(self).state() == (RouterState {
                counter_listeners: without_listener(
                    old(self).state().counter_listeners,
                    cache_id@,
                    subscription@,
                ),
                ..old(self).state()
            }),
            !counters ==> final(self).state() == (RouterState {
                cache_listeners: without_listener(
                    old(self).state().cache_listeners,
                    cache_id@,
                    subscription@,
                ),
                ..old(self).state()
            }),
    {
        let ghost s = self.state();
        if counters {
            let kept = keep_others(&self.counter_listeners, cache_id, subscription);
            self.counter_listeners = kept;
            assert(self.state().counter_listeners =~= without_listener(
                s.counter_listeners,
                cache_id@,
                subscription@,
            ));
        } else {
            let kept = keep_others(&self.cache_listeners, cache_id, subscription);
            self.cache_listeners = kept;
            assert(self.state().cache_listeners =~= without_listener(
                s.cache_listeners,
                cache_id@,
                subscription@,
            ));
        }
    }
}

impl BidiRouter {
    /// Routes one incoming frame: updates the pending requests as [`routed`] says and returns the
    /// deliveries it causes.
    pub fn dispatch(&mut self, msg: JsonValue) -> (out: Vec<BidiDelivery>)
        requires
            json_wf(msg),
        ensures
            final(self).state() == routed(old(self).state(), msg).0,
            delivered_all(out@) == routed(old(self).state(), msg).1,
            forall|i: int| 0 <= i < out@.len() ==> delivery_wf(#[trigger] out@[i]),
    {
        let t = sv(&msg, "type");
        let cid = sv(&msg, "correlationId");
        if text_is(&t, "commandResponse") {
            self.on_reply(cid, msg)
        } else if text_is(&t, "entries") {
            self.on_entries(cid, msg)
        } else if text_is(&t, "stats") {
            self.on_stats(cid, &msg)
        } else if text_is(&t, "timers") {
            self.on_timers(cid, &msg)
        } else if text_is(&t, "bulkResponse") {
            self.on_bulk(cid, &msg)
        } else if text_is(&t, "subscribed") {
            self.on_subscribed(cid)
        } else if text_is(&t, "streamUpdate") {
            self.on_stream(&msg)
        } else if text_is(&t, "error") {
            self.on_error(cid, &msg)
        } else {
            let out = Vec::new();
            assert(delivered_all(out@) =~= Seq::empty());
            out
        }
    }

    fn on_reply(&mut self, cid: String, msg: JsonValue) -> (out: Vec<BidiDelivery>)
        ensures
            final(self).state() == route_reply(old(self).state(), cid@, msg).0,
            delivered_all(out@) == route_reply(old(self).state(), cid@, msg).1,
            forall|i: int| 0 <= i < out@.len() ==> delivery_wf(#[trigger] out@[i]),
    {
        let ghost s = self.state();
        let ghost k = cid@;
        let mut out = Vec::new();
        match self.commands.remove(cid.as_str()) {
            Some(_) => {
                assert(self.state().commands =~= s.commands.remove(k));
                out.push(BidiDelivery::Reply { correlation_id: cid, frame: msg });
                assert(delivered_all(out@) =~= seq![Delivered::Reply(k, msg)]);
            },
            None => {
                assert(self.state().commands =~= s.commands);
                assert(delivered_all(out@) =~= Seq::empty());
            },
        }
        out
    }

    fn on_entries(&mut self, cid: String, msg: JsonValue) -> (out: Vec<BidiDelivery>)
        requires
            json_wf(msg),
        ensures
            final(self).state() == route_entries(old(self).state(), cid@, msg).0,
            delivered_all(out@) == route_entries(old(self).state(), cid@, msg).1,
            forall|i: int| 0 <= i < out@.len() ==> delivery_wf(#[trigger] out@[i]),
    {
        let ghost s = self.state();
        let ghost k = cid@;
        let ghost m0 = msg;
        let mut out = Vec::new();
        match self.entries.remove(cid.as_str()) {
            Some(batch) => {
                let mut batch = batch;
                assert(batch_view(batch) == s.entries[k]);
                let end = bool_field_of(&msg, "endOfBatch");
                let cache_id = sv(&msg, "cacheId");
                let status = sv(&msg, "status");
                let items = into_field(msg, "items");
                match items {
                    Some(JsonValue::Object(fields)) => {
                        proof {
                            lemma_field_wf(m0, "items"@);
                        }
                        absorb(&mut batch.items, fields);
                    },
                    _ => {
                        assert(object_items(m0, "items"@) =~= Map::empty());
                        assert(batch.items@ =~= batch.items@.union_prefer_right(Map::empty()));
                    },
                }
                batch.cache_id = cache_id;
                batch.status = status;
                let ghost acc = batch_view(batch);
                assert(acc.0 == s.entries[k].0.union_prefer_right(object_items(m0, "items"@)));
                if end {
                    assert(self.state().entries =~= s.entries.remove(k));
                    let EntriesBatch { items, cache_id, status } = batch;
                    let v = sort_by_key(items.into_entries());
                    out.push(
                        BidiDelivery::Entries { correlation_id: cid, items: v, cache_id, status },
                    );
                    assert(delivered_all(out@) =~= seq![
                        Delivered::Entries(k, acc.0, acc.1, acc.2),
                    ]);
                } else {
                    self.entries.insert(cid, batch);
                    assert(self.state().entries =~= s.entries.insert(k, acc));
                    assert(delivered_all(out@) =~= Seq::empty());
                }
            },
            None => {
                assert(self.state().entries =~= s.entries);
                assert(delivered_all(out@) =~= Seq::empty());
            },
        }
        out
    }

    fn on_stats(&mut self, cid: String, msg: &JsonValue) -> (out: Vec<BidiDelivery>)
        requires
            json_wf(*msg),
        ensures
            final(self).state() == route_stats(old(self).state(), cid@, *msg).0,
            delivered_all(out@) == route_stats(old(self).state(), cid@, *msg).1,
            forall|i: int| 0 <= i < out@.len() ==> delivery_wf(#[trigger] out@[i]),
    {
        let ghost s = self.state();
        let ghost k = cid@;
        let mut out = Vec::new();
        match self.stats.remove(cid.as_str()) {
            Some(acc) => {
                let mut acc = acc;
                match json_get(msg, "stats") {
                    Some(JsonValue::Array(items)) => {
                        proof {
                            lemma_field_wf(*msg, "stats"@);
                        }
                        collect_stats(items, &mut acc);
                    },
                    _ => {
                        assert(stat_views(acc@) =~= stat_views(acc@) + parsed_stats(
                            array_items(*msg, "stats"@),
                        ));
                    },
                }
                if bool_field_of(msg, "endOfBatch") {
                    assert(self.state().stats =~= s.stats.remove(k));
                    let ghost a = stat_views(acc@);
                    out.push(BidiDelivery::Stats { correlation_id: cid, stats: acc });
                    assert(delivered_all(out@) =~= seq![Delivered::Stats(k, a)]);
                } else {
                    let ghost a = stat_views(acc@);
                    self.stats.insert(cid, acc);
                    assert(self.state().stats =~= s.stats.insert(k, a));
                    assert(delivered_all(out@) =~= Seq::empty());
                }
            },
            None => {
                assert(self.state().stats =~= s.stats);
                assert(delivered_all(out@) =~= Seq::empty());
            },
        }
        out
    }

    fn on_timers(&mut self, cid: String, msg: &JsonValue) -> (out: Vec<BidiDelivery>)
        requires
            json_wf(*msg),
        ensures
            final(self).state() == route_timers(old(self).state(), cid@, *msg).0,
            delivered_all(out@) == route_timers(old(self).state(), cid@, *msg).1,
            forall|i: int| 0 <= i < out@.len() ==> delivery_wf(#[trigger] out@[i]),
    {
        let ghost s = self.state();
        let ghost k = cid@;
        let mut out = Vec::new();
        match self.timers.remove(cid.as_str()) {
            Some(acc) => {
                let mut acc = acc;
                match json_get(msg, "timers") {
                    Some(JsonValue::Array(items)) => {
                        proof {
                            lemma_field_wf(*msg, "timers"@);
                        }
                        collect_timers(items, &mut acc);
                    },
                    _ => {
                        assert(timer_views(acc@) =~= timer_views(acc@) + parsed_timers(
                            array_items(*msg, "timers"@),
                        ));
                    },
                }
                if bool_field_of(msg, "endOfBatch") {
                    assert(self.state().timers =~= s.timers.remove(k));
                    let ghost a = timer_views(acc@);
                    out.push(BidiDelivery::Timers { correlation_id: cid, timers: acc });
                    assert(delivered_all(out@) =~= seq![Delivered::Timers(k, a)]);
                } else {
                    let ghost a = timer_views(acc@);
                    self.timers.insert(cid, acc);
                    assert(self.state().timers =~= s.timers.insert(k, a));
                    assert(delivered_all(out@) =~= Seq::empty());
                }
            },
            None => {
                assert(self.state().timers =~= s.timers);
                assert(delivered_all(out@) =~= Seq::empty());
            },
        }
        out
    }

    fn on_bulk(&mut self, cid: String, msg: &JsonValue) -> (out: Vec<BidiDelivery>)
        requires
            json_wf(*msg),
        ensures
            final(self).state() == route_bulk(old(self).state(), cid@, *msg).0,
            delivered_all(out@) == route_bulk(old(self).state(), cid@, *msg).1,
            forall|i: int| 0 <= i < out@.len() ==> delivery_wf(#[trigger] out@[i]),
    {
        let ghost s = self.state();
        let ghost k = cid@;
        let mut out = Vec::new();
        match self.bulk.remove(cid.as_str()) {
            Some(acc) => {
                let mut acc = acc;
                match json_get(msg, "operationResponses") {
                    Some(JsonValue::Array(items)) => {
                        proof {
                            lemma_field_wf(*msg, "operationResponses"@);
                        }
                        collect_op_responses(items, &mut acc);
                    },
                    _ => {
                        assert(op_response_views(acc@) =~= op_response_views(acc@)
                            + parsed_op_responses(array_items(*msg, "operationResponses"@)));
                    },
                }
                if bool_field_of(msg, "endOfBatch") {
                    assert(self.state().bulk =~= s.bulk.remove(k));
                    let ghost a = op_response_views(acc@);
                    out.push(BidiDelivery::Bulk { correlation_id: cid, responses: acc });
                    assert(delivered_all(out@) =~= seq![Delivered::Bulk(k, a)]);
                } else {
                    let ghost a = op_response_views(acc@);
                    self.bulk.insert(cid, acc);
                    assert(self.state().bulk =~= s.bulk.insert(k, a));
                    assert(delivered_all(out@) =~= Seq::empty());
                }
            },
            None => {
                assert(self.state().bulk =~= s.bulk);
                assert(delivered_all(out@) =~= Seq::empty());
            },
        }
        out
    }

    fn on_subscribed(&mut self, cid: String) -> (out: Vec<BidiDelivery>)
        ensures
            final(self).state() == route_subscribed(old(self).state(), cid@).0,
            delivered_all(out@) == route_subscribed(old(self).state(), cid@).1,
            forall|i: int| 0 <= i < out@.len() ==> delivery_wf(#[trigger] out@[i]),
    {
        let ghost s = self.state();
        let ghost k = cid@;
        let mut out = Vec::new();
        match self.sub_acks.remove(cid.as_str()) {
            Some(_) => {
                assert(self.state().sub_acks =~= s.sub_acks.remove(k));
                out.push(BidiDelivery::Subscribed { correlation_id: cid });
                assert(delivered_all(out@) =~= seq![Delivered::Subscribed(k)]);
            },
            None => {
                assert(self.state().sub_acks =~= s.sub_acks);
                assert(delivered_all(out@) =~= Seq::empty());
            },
        }
        out
    }

    fn on_stream(&self, msg: &JsonValue) -> (out: Vec<BidiDelivery>)
        requires
            json_wf(*msg),
        ensures
            delivered_all(out@) == route_stream(self.state(), *msg).1,
            forall|i: int| 0 <= i < out@.len() ==> delivery_wf(#[trigger] out@[i]),
    {
        let c = sv(msg, "cacheId");
        let ghost ce = stream_cache_event(*msg);
        let ghost ke = stream_counter_event(*msg);
        let mut out: Vec<BidiDelivery> = Vec::new();
        let n = self.cache_listeners.len();
        let mut i: usize = 0;
        while i < n
            invariant
                n == self.cache_listeners@.len(),
                i <= n,
                json_wf(*msg),
                c@ == str_field(*msg, "cacheId"@),
                ce == stream_cache_event(*msg),
                delivered_all(out@) == cache_deliveries(
                    pair_views(self.cache_listeners@.subrange(0, i as int)),
                    c@,
                    ce,
                ),
                forall|j: int| 0 <= j < out@.len() ==> delivery_wf(#[trigger] out@[j]),
            decreases n - i,
        {
            let ghost pv = pair_views(self.cache_listeners@.subrange(0, i + 1));
            assert(pv.drop_last() =~= pair_views(self.cache_listeners@.subrange(0, i as int)));
            if self.cache_listeners[i].0 == c {
                let ghost before = out@;
                let event = cache_event(msg);
                out.push(
                    BidiDelivery::CacheEvent {
                        subscription: self.cache_listeners[i].1.clone(),
                        event,
                    },
                );
                assert(delivered_all(out@) =~= delivered_all(before).push(
                    Delivered::CacheEvent(pv.last().1, ce),
                ));
            }
            i = i + 1;
        }
        assert(self.cache_listeners@.subrange(0, n as int) =~= self.cache_listeners@);
        let ghost first = delivered_all(out@);
        let m = self.counter_listeners.len();
        let mut j: usize = 0;
        while j < m
            invariant
                m == self.counter_listeners@.len(),
                j <= m,
                json_wf(*msg),
                c@ == str_field(*msg, "cacheId"@),
                ke == stream_counter_event(*msg),
                delivered_all(out@) == first + counter_deliveries(
                    pair_views(self.counter_listeners@.subrange(0, j as int)),
                    c@,
                    ke,
                ),
                forall|q: int| 0 <= q < out@.len() ==> delivery_wf(#[trigger] out@[q]),
            decreases m - j,
        {
            let ghost pv = pair_views(self.counter_listeners@.subrange(0, j + 1));
            assert(pv.drop_last() =~= pair_views(self.counter_listeners@.subrange(0, j as int)));
            if self.counter_listeners[j].0 == c {
                let ghost before = out@;
                let event = counter_event(msg);
                out.push(
                    BidiDelivery::CounterEvent {
                        subscription: self.counter_listeners[j].1.clone(),
                        event,
                    },
                );
                assert(delivered_all(out@) =~= delivered_all(before).push(
                    Delivered::CounterEvent(pv.last().1, ke),
                ));
            }
            j = j + 1;
        }
        assert(self.counter_listeners@.subrange(0, m as int) =~= self.counter_listeners@);
        out
    }

    fn on_error(&mut self, cid: String, msg: &JsonValue) -> (out: Vec<BidiDelivery>)
        requires
            json_wf(*msg),
        ensures
            final(self).state() == route_error(old(self).state(), cid@, *msg).0,
            delivered_all(out@) == route_error(old(self).state(), cid@, *msg).1,
            forall|i: int| 0 <= i < out@.len() ==> delivery_wf(#[trigger] out@[i]),
    {
        let ghost s = self.state();
        let ghost k = cid@;
        let mut out = Vec::new();
        proof {
            reveal_strlit("");
        }
        if text_is(&cid, "") {
            assert(delivered_all(out@) =~= Seq::empty());
            return out;
        }
        assert(k.len() != 0) by {
            if k.len() == 0 {
                assert(k =~= ""@);
            }
        }
        let text = error_message(msg);
        let ghost t = text@;
        if self.withdraw(RequestKind::Command, cid.as_str()) {
            return failed_one(RequestKind::Command, cid, text);
        }
        proof {
            lemma_withdraw_absent(s, RequestKind::Command, k);
        }
        if self.withdraw(RequestKind::Entries, cid.as_str()) {
            return failed_one(RequestKind::Entries, cid, text);
        }
        proof {
            lemma_withdraw_absent(s, RequestKind::Entries, k);
        }
        if self.withdraw(RequestKind::Stats, cid.as_str()) {
            return failed_one(RequestKind::Stats, cid, text);
        }
        proof {
            lemma_withdraw_absent(s, RequestKind::Stats, k);
        }
        if self.withdraw(RequestKind::Timers, cid.as_str()) {
            return failed_one(RequestKind::Timers, cid, text);
        }
        proof {
            lemma_withdraw_absent(s, RequestKind::Timers, k);
        }
        if self.withdraw(RequestKind::Bulk, cid.as_str()) {
            return failed_one(RequestKind::Bulk, cid, text);
        }
        proof {
            lemma_withdraw_absent(s, RequestKind::Bulk, k);
        }
        if self.withdraw(RequestKind::SubscribeAck, cid.as_str()) {
            return failed_one(RequestKind::SubscribeAck, cid, text);
        }
        proof {
            lemma_withdraw_absent(s, RequestKind::SubscribeAck, k);
        }
        assert(delivered_all(out@) =~= Seq::empty());
        out
    }
}

/// `d` fails a request that waits in `s`, with the text `msg`.
pub open spec fn is_failure_of(s: RouterState, msg: Seq<char>, d: Delivered) -> bool {
    match d {
        Delivered::Failed(kind, cid, m) => m == msg && is_pending(s, kind, cid),
        _ => false,
    }
}

/// `d` fails a request of kind `kind` on one of `keys`, with the text `msg`.
pub open spec fn fails_one_of(keys: Set<Seq<char>>, kind: RequestKind, msg: Seq<char>, d: Delivered) -> bool {
    match d {
        Delivered::Failed(k, cid, m) => k == kind && m == msg && keys.contains(cid),
        _ => false,
    }
}

/// The state after every pending request has been failed: nothing waits; the listeners stay.
pub open spec fn drained(s: RouterState) -> RouterState {
    RouterState {
        commands: Set::empty(),
        entries: Map::empty(),
        stats: Map::empty(),
        timers: Map::empty(),
        bulk: Map::empty(),
        sub_acks: Set::empty(),
        ..s
    }
}

/// The correlation ids on which requests of kind `kind` wait in `s`.
pub open spec fn pending_keys(s: RouterState, kind: RequestKind) -> Set<Seq<char>> {
    match kind {
        RequestKind::Command => s.commands,
        RequestKind::Entries => s.entries.dom(),
        RequestKind::Stats => s.stats.dom(),
        RequestKind::Timers => s.timers.dom(),
        RequestKind::Bulk => s.bulk.dom(),
        RequestKind::SubscribeAck => s.sub_acks,
    }
}

/// The kind of request that a failure fails.
spec fn failed_kind(d: Delivered) -> RequestKind {
    match d {
        Delivered::Failed(kind, _, _) => kind,
        _ => RequestKind::Command,
    }
}

/// `out` fails, with `msg`, exactly the requests of the kinds in `done` that wait in `s`, each
/// once.
spec fn failures_so_far(s: RouterState, msg: Seq<char>, out: Seq<BidiDelivery>, done: Set<RequestKind>) -> bool {
    &&& forall|i: int|
        0 <= i < out.len() ==> is_failure_of(s, msg, #[trigger] delivered(out[i])) && done.contains(
            failed_kind(delivered(out[i])),
        )
    &&& forall|kind: RequestKind, cid: Seq<char>|
        done.contains(kind) && #[trigger] is_pending(s, kind, cid) ==> exists|i: int|
            0 <= i < out.len() && #[trigger] delivered(out[i]) == Delivered::Failed(kind, cid, msg)
    &&& forall|i: int, j: int|
        0 <= i < j < out.len() ==> #[trigger] delivered(out[i]) != #[trigger] delivered(out[j])
    &&& forall|i: int| 0 <= i < out.len() ==> delivery_wf(#[trigger] out[i])
}

proof fn lemma_failures_step(
    s: RouterState,
    msg: Seq<char>,
    o: Seq<BidiDelivery>,
    n: Seq<BidiDelivery>,
    done: Set<RequestKind>,
    kind: RequestKind,
)
    requires
        failures_so_far(s, msg, o, done),
        !done.contains(kind),
        n.len() >= o.len(),
        n.subrange(0, o.len() as int) == o,
        forall|i: int|
            o.len() <= i < n.len() ==> fails_one_of(
                pending_keys(s, kind),
                kind,
                msg,
                #[trigger] delivered(n[i]),
            ),
        forall|c: Seq<char>|
            #[trigger] pending_keys(s, kind).contains(c) ==> exists|i: int|
                o.len() <= i < n.len() && #[trigger] delivered(n[i]) == Delivered::Failed(kind, c, msg),
        forall|i: int, j: int|
            o.len() <= i < j < n.len() ==> #[trigger] delivered(n[i]) != #[trigger] delivered(n[j]),
        forall|i: int| o.len() <= i < n.len() ==> delivery_wf(#[trigger] n[i]),
    ensures
        failures_so_far(s, msg, n, done.insert(kind)),
{
    let d2 = done.insert(kind);
    assert forall|i: int| 0 <= i < o.len() implies n[i] == o[i] by {
        assert(n.subrange(0, o.len() as int)[i] == n[i]);
    }
    assert forall|i: int| 0 <= i < n.len() implies is_failure_of(s, msg, #[trigger] delivered(n[i]))
        && d2.contains(failed_kind(delivered(n[i]))) by {
        if i < o.len() {
            assert(n[i] == o[i]);
        } else {
            assert(fails_one_of(pending_keys(s, kind), kind, msg, delivered(n[i])));
        }
    }
    assert forall|k: RequestKind, cid: Seq<char>|
        d2.contains(k) && #[trigger] is_pending(s, k, cid) implies exists|i: int|
            0 <= i < n.len() && #[trigger] delivered(n[i]) == Delivered::Failed(k, cid, msg) by {
        if k == kind {
            assert(pending_keys(s, kind).contains(cid));
        } else {
            assert(done.contains(k));
            let i = choose|i: int| 0 <= i < o.len() && #[trigger] delivered(o[i]) == Delivered::Failed(k, cid, msg);
            assert(n[i] == o[i]);
        }
    }
    assert forall|i: int, j: int| 0 <= i < j < n.len() implies #[trigger] delivered(n[i])
        != #[trigger] delivered(n[j]) by {
        if j < o.len() {
            assert(n[i] == o[i]);
            assert(n[j] == o[j]);
        } else if i < o.len() {
            assert(n[i] == o[i]);
            assert(done.contains(failed_kind(delivered(o[i]))));
            assert(fails_one_of(pending_keys(s, kind), kind, msg, delivered(n[j])));
        }
    }
    assert forall|i: int| 0 <= i < n.len() implies delivery_wf(#[trigger] n[i]) by {
        if i < o.len() {
            assert(n[i] == o[i]);
        }
    }
}

impl BidiRouter {
    /// Fails every pending request with `message` (the connection is gone): one failure per
    /// pending request, in no particular order, and nothing is left waiting.
    pub fn fail_all(&mut self, message: &str) -> (out: Vec<BidiDelivery>)
        ensures
            final(self).state() == drained(old(self).state()),
            forall|i: int|
                0 <= i < out@.len() ==> is_failure_of(
                    old(self).state(),
                    message@,
                    #[trigger] delivered(out@[i]),
                ),
            forall|kind: RequestKind, cid: Seq<char>|
                #[trigger] is_pending(old(self).state(), kind, cid) ==> exists|i: int|
                    0 <= i < out@.len() && #[trigger] delivered(out@[i]) == Delivered::Failed(
                        kind,
                        cid,
                        message@,
                    ),
            forall|i: int, j: int|
                0 <= i < j < out@.len() ==> #[trigger] delivered(out@[i]) != #[trigger] delivered(
                    out@[j],
                ),
            forall|i: int| 0 <= i < out@.len() ==> delivery_wf(#[trigger] out@[i]),
    {
        let ghost s = self.state();
        let ghost msg = message@;
        let mut out: Vec<BidiDelivery> = Vec::new();
        let ghost done = Set::<RequestKind>::empty();
        assert(failures_so_far(s, msg, out@, done));
        assert(self.commands@.dom() =~= pending_keys(s, RequestKind::Command));
        let ghost o = out@;
        append_failures(&self.commands, RequestKind::Command, message, &mut out, Ghost(pending_keys(s, RequestKind::Command)));
        proof {
            lemma_failures_step(s, msg, o, out@, done, RequestKind::Command);
            done = done.insert(RequestKind::Command);
        }
        assert(self.entries@.dom() =~= pending_keys(s, RequestKind::Entries));
        let ghost o = out@;
        append_failures(&self.entries, RequestKind::Entries, message, &mut out, Ghost(pending_keys(s, RequestKind::Entries)));
        proof {
            lemma_failures_step(s, msg, o, out@, done, RequestKind::Entries);
            done = done.insert(RequestKind::Entries);
        }
        assert(self.stats@.dom() =~= pending_keys(s, RequestKind::Stats));
        let ghost o = out@;
        append_failures(&self.stats, RequestKind::Stats, message, &mut out, Ghost(pending_keys(s, RequestKind::Stats)));
        proof {
            lemma_failures_step(s, msg, o, out@, done, RequestKind::Stats);
            done = done.insert(RequestKind::Stats);
        }
        assert(self.timers@.dom() =~= pending_keys(s, RequestKind::Timers));
        let ghost o = out@;
        append_failures(&self.timers, RequestKind::Timers, message, &mut out, Ghost(pending_keys(s, RequestKind::Timers)));
        proof {
            lemma_failures_step(s, msg, o, out@, done, RequestKind::Timers);
            done = done.insert(RequestKind::Timers);
        }
        assert(self.bulk@.dom() =~= pending_keys(s, RequestKind::Bulk));
        let ghost o = out@;
        append_failures(&self.bulk, RequestKind::Bulk, message, &mut out, Ghost(pending_keys(s, RequestKind::Bulk)));
        proof {
            lemma_failures_step(s, msg, o, out@, done, RequestKind::Bulk);
            done = done.insert(RequestKind::Bulk);
        }
        assert(self.sub_acks@.dom() =~= pending_keys(s, RequestKind::SubscribeAck));
        let ghost o = out@;
        append_failures(&self.sub_acks, RequestKind::SubscribeAck, message, &mut out, Ghost(pending_keys(s, RequestKind::SubscribeAck)));
        proof {
            lemma_failures_step(s, msg, o, out@, done, RequestKind::SubscribeAck);
            done = done.insert(RequestKind::SubscribeAck);
            assert forall|kind: RequestKind| done.contains(kind) by {
                match kind {
                    RequestKind::Command => {},
                    RequestKind::Entries => {},
                    RequestKind::Stats => {},
                    RequestKind::Timers => {},
                    RequestKind::Bulk => {},
                    RequestKind::SubscribeAck => {},
                }
            }
        }
        self.commands.clear();
        self.entries.clear();
        self.stats.clear();
        self.timers.clear();
        self.bulk.clear();
        self.sub_acks.clear();
        assert(self.state().commands =~= Set::empty());
        assert(self.state().sub_acks =~= Set::empty());
        assert(self.state().entries =~= Map::empty());
        assert(self.state().stats =~= Map::empty());
        assert(self.state().timers =~= Map::empty());
        assert(self.state().bulk =~= Map::empty());
        out
    }
}

/// Appends to `out` one failure with `message` for each key of `m`.
fn append_failures<V>(
    m: &LocalMirror<V>,
    kind: RequestKind,
    message: &str,
    out: &mut Vec<BidiDelivery>,
    Ghost(keys): Ghost<Set<Seq<char>>>,
)
    requires
        m@.dom() == keys,
    ensures
        final(out)@.len() == old(out)@.len() + m@.len(),
        final(out)@.subrange(0, old(out)@.len() as int) == old(out)@,
        forall|i: int|
            old(out)@.len() <= i < final(out)@.len() ==> fails_one_of(
                keys,
                kind,
                message@,
                #[trigger] delivered(final(out)@[i]),
            ),
        forall|c: Seq<char>|
            #[trigger] keys.contains(c) ==> exists|i: int|
                old(out)@.len() <= i < final(out)@.len() && #[trigger] delivered(final(out)@[i])
                    == Delivered::Failed(kind, c, message@),
        forall|i: int, j: int|
            old(out)@.len() <= i < j < final(out)@.len() ==> #[trigger] delivered(final(out)@[i])
                != #[trigger] delivered(final(out)@[j]),
        forall|i: int|
            old(out)@.len() <= i < final(out)@.len() ==> delivery_wf(#[trigger] final(out)@[i]),
{
    let ghost o = out@;
    let es = m.entries();
    proof {
        crate::mirror::lemma_distinct_entries_len(es@);
    }
    let n = es.len();
    let mut i: usize = 0;
    while i < n
        invariant
            n == es@.len(),
            i <= n,
            keys_distinct(es@),
            entries_map(es@) == m@,
            out@.len() == o.len() + i,
            out@.subrange(0, o.len() as int) == o,
            forall|q: int|
                0 <= q < i ==> #[trigger] delivered(out@[o.len() + q]) == Delivered::Failed(
                    kind,
                    es@[q].0@,
                    message@,
                ),
        decreases n - i,
    {
        let ghost before = out@;
        let c = es[i].0.clone();
        out.push(BidiDelivery::Failed { kind, correlation_id: c, message: message.to_owned() });
        assert(out@.subrange(0, o.len() as int) =~= before.subrange(0, o.len() as int));
        assert forall|q: int| 0 <= q < i + 1 implies #[trigger] delivered(out@[o.len() + q])
            == Delivered::Failed(kind, es@[q].0@, message@) by {
            if q < i {
                assert(out@[o.len() + q] == before[o.len() + q]);
            }
        }
        i = i + 1;
    }
    assert forall|q: int| o.len() <= q < out@.len() implies fails_one_of(
        keys,
        kind,
        message@,
        #[trigger] delivered(out@[q]),
    ) by {
        assert(delivered(out@[o.len() + (q - o.len())]) == Delivered::Failed(
            kind,
            es@[q - o.len()].0@,
            message@,
        ));
        crate::mirror::lemma_entry_in_map(es@, q - o.len());
    }
    assert forall|c: Seq<char>| #[trigger] keys.contains(c) implies exists|q: int|
        o.len() <= q < out@.len() && #[trigger] delivered(out@[q]) == Delivered::Failed(
            kind,
            c,
            message@,
        ) by {
        assert(crate::mirror::has_key(es@, c));
        let j = choose|j: int| 0 <= j < es@.len() && #[trigger] es@[j].0@ == c;
        assert(delivered(out@[o.len() + j]) == Delivered::Failed(kind, es@[j].0@, message@));
    }
    assert forall|a: int, b: int| o.len() <= a < b < out@.len() implies #[trigger] delivered(
        out@[a],
    ) != #[trigger] delivered(out@[b]) by {
        assert(delivered(out@[o.len() + (a - o.len())]) == Delivered::Failed(
            kind,
            es@[a - o.len()].0@,
            message@,
        ));
        assert(delivered(out@[o.len() + (b - o.len())]) == Delivered::Failed(
            kind,
            es@[b - o.len()].0@,
            message@,
        ));
        assert(es@[a - o.len()].0@ != es@[b - o.len()].0@);
    }
    assert forall|q: int| o.len() <= q < out@.len() implies delivery_wf(#[trigger] out@[q]) by {
        assert(delivered(out@[o.len() + (q - o.len())]) == Delivered::Failed(
            kind,
            es@[q - o.len()].0@,
            message@,
        ));
    }
}

/// A single failure delivery.
fn failed_one(kind: RequestKind, cid: String, text: String) -> (out: Vec<BidiDelivery>)
    ensures
        delivered_all(out@) == seq![Delivered::Failed(kind, cid@, text@)],
        forall|i: int| 0 <= i < out@.len() ==> delivery_wf(#[trigger] out@[i]),
{
    let ghost k = cid@;
    let ghost t = text@;
    let mut out = Vec::new();
    out.push(BidiDelivery::Failed { kind, correlation_id: cid, message: text });
    assert(delivered_all(out@) =~= seq![Delivered::Failed(kind, k, t)]);
    out
}

/// Withdrawing a request that is not waiting changes nothing.
pub proof fn lemma_withdraw_absent(s: RouterState, kind: RequestKind, cid: Seq<char>)
    requires
        !is_pending(s, kind, cid),
    ensures
        withdrawn(s, kind, cid) == s,
{
    match kind {
        RequestKind::Command => assert(s.commands.remove(cid) =~= s.commands),
        RequestKind::Entries => assert(s.entries.remove(cid) =~= s.entries),
        RequestKind::Stats => assert(s.stats.remove(cid) =~= s.stats),
        RequestKind::Timers => assert(s.timers.remove(cid) =~= s.timers),
        RequestKind::Bulk => assert(s.bulk.remove(cid) =~= s.bulk),
        RequestKind::SubscribeAck => assert(s.sub_acks.remove(cid) =~= s.sub_acks),
    }
}

/// Adds the entries of `fields` to `acc`, replacing the values of keys it already holds.
fn absorb(acc: &mut LocalMirror<JsonValue>, fields: Vec<(String, JsonValue)>)
    requires
        keys_distinct(fields@),
    ensures
        final(acc)@ == old(acc)@.union_prefer_right(entries_map(fields@)),
{
    let ghost f0 = fields@;
    let ghost a0 = acc@;
    let ghost n = f0.len();
    let mut fields = fields;
    assert(entries_map(f0.subrange(n as int, n as int)) =~= Map::empty());
    assert(a0 =~= a0.union_prefer_right(Map::empty()));
    while fields.len() > 0
        invariant
            fields@ == f0.subrange(0, fields@.len() as int),
            fields@.len() <= n,
            n == f0.len(),
            keys_distinct(f0),
            acc@ == a0.union_prefer_right(entries_map(f0.subrange(fields@.len() as int, n as int))),
        decreases fields@.len(),
    {
        let j = fields.len() - 1;
        let last = fields.pop();
        match last {
            Some(e) => {
                let (k, v) = e;
                proof {
                    lemma_entries_map_suffix(f0, j as int);
                }
                acc.insert(k, v);
                assert(acc@ =~= a0.union_prefer_right(entries_map(f0.subrange(j as int, n as int))));
            },
            None => {},
        }
    }
    assert(f0.subrange(0, n as int) =~= f0);
}

/// Appends to `acc` the stats entries that the items read as.
fn collect_stats(items: &Vec<JsonValue>, acc: &mut Vec<StatEntry>)
    requires
        forall|i: int| 0 <= i < items@.len() ==> json_wf(#[trigger] items@[i]),
    ensures
        stat_views(final(acc)@) == stat_views(old(acc)@) + parsed_stats(items@),
{
    let ghost a0 = stat_views(acc@);
    let n = items.len();
    let mut i: usize = 0;
    assert(items@.subrange(0, 0) =~= Seq::<JsonValue>::empty());
    assert(a0 =~= a0 + Seq::empty());
    while i < n
        invariant
            n == items@.len(),
            i <= n,
            forall|q: int| 0 <= q < items@.len() ==> json_wf(#[trigger] items@[q]),
            stat_views(acc@) == a0 + parsed_stats(items@.subrange(0, i as int)),
        decreases n - i,
    {
        let ghost sub = items@.subrange(0, i + 1);
        assert(sub.drop_last() =~= items@.subrange(0, i as int));
        assert(sub.last() == items@[i as int]);
        let ghost before = stat_views(acc@);
        match stat_entry_from_json(&items[i]) {
            Some(e) => {
                let ghost ev = stat_view(e);
                acc.push(e);
                assert(stat_views(acc@) =~= before.push(ev));
            },
            None => {},
        }
        assert(stat_views(acc@) =~= a0 + parsed_stats(sub));
        i = i + 1;
    }
    assert(items@.subrange(0, n as int) =~= items@);
}

/// Appends to `acc` the timers that the items read as.
fn collect_timers(items: &Vec<JsonValue>, acc: &mut Vec<TimerInfo>)
    requires
        forall|i: int| 0 <= i < items@.len() ==> json_wf(#[trigger] items@[i]),
    ensures
        timer_views(final(acc)@) == timer_views(old(acc)@) + parsed_timers(items@),
{
    let ghost a0 = timer_views(acc@);
    let n = items.len();
    let mut i: usize = 0;
    assert(items@.subrange(0, 0) =~= Seq::<JsonValue>::empty());
    assert(a0 =~= a0 + Seq::empty());
    while i < n
        invariant
            n == items@.len(),
            i <= n,
            forall|q: int| 0 <= q < items@.len() ==> json_wf(#[trigger] items@[q]),
            timer_views(acc@) == a0 + parsed_timers(items@.subrange(0, i as int)),
        decreases n - i,
    {
        let ghost sub = items@.subrange(0, i + 1);
        assert(sub.drop_last() =~= items@.subrange(0, i as int));
        assert(sub.last() == items@[i as int]);
        let ghost before = timer_views(acc@);
        match timer_from_json(&items[i]) {
            Some(t) => {
                let ghost tv = timer_view(t);
                acc.push(t);
                assert(timer_views(acc@) =~= before.push(tv));
            },
            None => {},
        }
        assert(timer_views(acc@) =~= a0 + parsed_timers(sub));
        i = i + 1;
    }
    assert(items@.subrange(0, n as int) =~= items@);
}

/// Appends to `acc` the bulk operation responses that the items read as.
fn collect_op_responses(items: &Vec<JsonValue>, acc: &mut Vec<CacheOperationResponse>)
    requires
        forall|i: int| 0 <= i < items@.len() ==> json_wf(#[trigger] items@[i]),
    ensures
        op_response_views(final(acc)@) == op_response_views(old(acc)@) + parsed_op_responses(
            items@,
        ),
{
    let ghost a0 = op_response_views(acc@);
    let n = items.len();
    let mut i: usize = 0;
    assert(items@.subrange(0, 0) =~= Seq::<JsonValue>::empty());
    assert(a0 =~= a0 + Seq::empty());
    while i < n
        invariant
            n == items@.len(),
            i <= n,
            forall|q: int| 0 <= q < items@.len() ==> json_wf(#[trigger] items@[q]),
            op_response_views(acc@) == a0 + parsed_op_responses(items@.subrange(0, i as int)),
        decreases n - i,
    {
        let ghost sub = items@.subrange(0, i + 1);
        assert(sub.drop_last() =~= items@.subrange(0, i as int));
        assert(sub.last() == items@[i as int]);
        let ghost before = op_response_views(acc@);
        match op_response_from_json(&items[i]) {
            Some(r) => {
                let ghost rv = op_response_view(r);
                acc.push(r);
                assert(op_response_views(acc@) =~= before.push(rv));
            },
            None => {},
        }
        assert(op_response_views(acc@) =~= a0 + parsed_op_responses(sub));
        i = i + 1;
    }
    assert(items@.subrange(0, n as int) =~= items@);
}

/// The string held by the field `key` of `msg`, if it holds one.
fn opt_str_of(msg: &JsonValue, key: &str) -> (r: Option<String>)
    requires
        json_wf(*msg),
    ensures
        opt_string_view(r) == opt_str_field(*msg, key@),
{
    match json_get(msg, key) {
        Some(JsonValue::Str(s)) => Some(s.clone()),
        _ => None,
    }
}

/// The cache update that a stream update frame carries.
fn cache_event(msg: &JsonValue) -> (e: CacheUpdateEvent)
    requires
        json_wf(*msg),
    ensures
        cache_event_view(e) == stream_cache_event(*msg),
{
    let item_value = match json_get(msg, "value") {
        None => None,
        Some(JsonValue::Null) => None,
        Some(v) => Some(value_to_string(v)),
    };
    CacheUpdateEvent {
        cache_id: sv(msg, "cacheId"),
        event_type: sv(msg, "eventType"),
        item_key: opt_str_of(msg, "key"),
        item_value,
        request_id: sv(msg, "correlationId"),
    }
}

/// The counter update that a stream update frame carries.
fn counter_event(msg: &JsonValue) -> (e: CounterUpdateEvent)
    requires
        json_wf(*msg),
    ensures
        counter_event_view(e) == stream_counter_event(*msg),
{
    let item_value = match json_get(msg, "value") {
        None => None,
        Some(JsonValue::Null) => None,
        Some(v) => Some(value_to_i64(v)),
    };
    CounterUpdateEvent {
        cache_id: sv(msg, "cacheId"),
        event_type: sv(msg, "eventType"),
        item_key: opt_str_of(msg, "key"),
        item_value,
        request_id: sv(msg, "correlationId"),
    }
}

/// The text with which an error frame fails a request.
fn error_message(msg: &JsonValue) -> (r: String)
    requires
        json_wf(*msg),
    ensures
        r@ == error_text(*msg),
{
    let status = match json_get(msg, "status") {
        Some(JsonValue::Str(s)) => s.clone(),
        _ => "ERROR".to_owned(),
    };
    let message = match json_get(msg, "message") {
        Some(JsonValue::Str(s)) => s.clone(),
        _ => String::new(),
    };
    let mut out = String::new();
    push_str(&mut out, "bidi error [");
    push_str(&mut out, status.as_str());
    push_str(&mut out, "]: ");
    push_str(&mut out, message.as_str());
    proof {
        reveal_strlit("");
    }
    assert(out@ =~= error_text(*msg));
    out
}

/// The pairs of `ls` other than (`cache_id`, `sub`), in order.
fn keep_others(ls: &Vec<(String, String)>, cache_id: &str, sub: &str) -> (r: Vec<(String, String)>)
    ensures
        pair_views(r@) == without_listener(pair_views(ls@), cache_id@, sub@),
{
    let c = cache_id.to_owned();
    let s = sub.to_owned();
    let mut out: Vec<(String, String)> = Vec::new();
    let n = ls.len();
    let mut i: usize = 0;
    while i < n
        invariant
            n == ls@.len(),
            i <= n,
            c@ == cache_id@,
            s@ == sub@,
            pair_views(out@) == without_listener(pair_views(ls@.subrange(0, i as int)), cache_id@, sub@),
        decreases n - i,
    {
        let ghost pv = pair_views(ls@.subrange(0, i + 1));
        assert(pv.drop_last() =~= pair_views(ls@.subrange(0, i as int)));
        assert(pv.last() == (ls@[i as int].0@, ls@[i as int].1@));
        if !(ls[i].0 == c && ls[i].1 == s) {
            let ghost before = out@;
            out.push((ls[i].0.clone(), ls[i].1.clone()));
            assert(pair_views(out@) =~= pair_views(before).push(pv.last()));
        }
        i = i + 1;
    }
    assert(ls@.subrange(0, n as int) =~= ls@);
    out
}

/// The frame types that the router tells apart are pairwise different.
proof fn lemma_frame_types_distinct()
    ensures
        "entries"@ != "commandResponse"@,
        "stats"@ != "commandResponse"@,
        "stats"@ != "entries"@,
        "timers"@ != "commandResponse"@,
        "timers"@ != "entries"@,
        "timers"@ != "stats"@,
        "bulkResponse"@ != "commandResponse"@,
        "bulkResponse"@ != "entries"@,
        "bulkResponse"@ != "stats"@,
        "bulkResponse"@ != "timers"@,
        "subscribed"@ != "commandResponse"@,
        "subscribed"@ != "entries"@,
        "subscribed"@ != "stats"@,
        "subscribed"@ != "timers"@,
        "subscribed"@ != "bulkResponse"@,
        "streamUpdate"@ != "commandResponse"@,
        "streamUpdate"@ != "entries"@,
        "streamUpdate"@ != "stats"@,
        "streamUpdate"@ != "timers"@,
        "streamUpdate"@ != "bulkResponse"@,
        "streamUpdate"@ != "subscribed"@,
        "error"@ != "commandResponse"@,
        "error"@ != "entries"@,
        "error"@ != "stats"@,
        "error"@ != "timers"@,
        "error"@ != "bulkResponse"@,
        "error"@ != "subscribed"@,
        "error"@ != "streamUpdate"@,
{
    reveal_strlit("commandResponse");
    reveal_strlit("entries");
    reveal_strlit("stats");
    reveal_strlit("timers");
    reveal_strlit("bulkResponse");
    reveal_strlit("subscribed");
    reveal_strlit("streamUpdate");
    reveal_strlit("error");
    assert("commandResponse"@.len() == 15 && "commandResponse"@[0] == 'c');
    assert("entries"@.len() == 7 && "entries"@[0] == 'e');
    assert("stats"@.len() == 5 && "stats"@[0] == 's');
    assert("timers"@.len() == 6 && "timers"@[0] == 't');
    assert("bulkResponse"@.len() == 12 && "bulkResponse"@[0] == 'b');
    assert("subscribed"@.len() == 10 && "subscribed"@[0] == 's');
    assert("streamUpdate"@.len() == 12 && "streamUpdate"@[0] == 's');
    assert("error"@.len() == 5 && "error"@[0] == 'e');
}

/// An error frame fails a request with `bidi error [STATUS]: MESSAGE` built from its own
/// `status` and `message` strings; a missing status reads as `ERROR` and a missing message as
/// empty.
pub proof fn lemma_error_text_fields(m: JsonValue, status: String, message: String)
    ensures
        field_of(m, "status"@) == Some(JsonValue::Str(status)) && field_of(m, "message"@) == Some(
            JsonValue::Str(message),
        ) ==> error_text(m) == "bidi error ["@ + status@ + "]: "@ + message@,
        field_of(m, "status"@) is None && field_of(m, "message"@) is None ==> error_text(m)
            == "bidi error ["@ + "ERROR"@ + "]: "@ + Seq::<char>::empty(),
{
}

/// A command response completes the command waiting on its correlation id exactly once: the
/// same response arriving again delivers nothing.
pub proof fn lemma_reply_delivered_once(s: RouterState, msg: JsonValue)
    requires
        frame_type(msg) == "commandResponse"@,
        s.commands.contains(frame_correlation_id(msg)),
    ensures
        routed(s, msg).1 == seq![Delivered::Reply(frame_correlation_id(msg), msg)],
        !routed(s, msg).0.commands.contains(frame_correlation_id(msg)),
        routed(routed(s, msg).0, msg).1 == Seq::<Delivered>::empty(),
{
}

/// Entries batches accumulate until the end-of-batch frame: a first frame that is not the last
/// delivers nothing, and the last one delivers the items of both frames (the later frame's value
/// winning for a key that both carry) under the last frame's cache id and status, after which
/// nothing waits on the correlation id.
pub proof fn lemma_entries_accumulate(s: RouterState, m1: JsonValue, m2: JsonValue)
    requires
        frame_type(m1) == "entries"@,
        frame_type(m2) == "entries"@,
        frame_correlation_id(m1) == frame_correlation_id(m2),
        s.entries.contains_key(frame_correlation_id(m1)),
        !end_of_batch(m1),
        end_of_batch(m2),
    ensures
        routed(s, m1).1 == Seq::<Delivered>::empty(),
        routed(routed(s, m1).0, m2).1 == seq![
            Delivered::Entries(
                frame_correlation_id(m1),
                s.entries[frame_correlation_id(m1)].0.union_prefer_right(
                    object_items(m1, "items"@),
                ).union_prefer_right(object_items(m2, "items"@)),
                str_field(m2, "cacheId"@),
                str_field(m2, "status"@),
            ),
        ],
        routed(routed(s, m1).0, m2).0 == withdrawn(s, RequestKind::Entries, frame_correlation_id(m1)),
{
    lemma_frame_types_distinct();
    let cid = frame_correlation_id(m1);
    let s1 = routed(s, m1).0;
    assert(s1.entries.remove(cid) =~= s.entries.remove(cid));
}

/// Stats batches accumulate until the end-of-batch frame: the last frame delivers the entries
/// of both frames, in arrival order.
pub proof fn lemma_stats_accumulate(s: RouterState, m1: JsonValue, m2: JsonValue)
    requires
        frame_type(m1) == "stats"@,
        frame_type(m2) == "stats"@,
        frame_correlation_id(m1) == frame_correlation_id(m2),
        s.stats.contains_key(frame_correlation_id(m1)),
        !end_of_batch(m1),
        end_of_batch(m2),
    ensures
        routed(s, m1).1 == Seq::<Delivered>::empty(),
        routed(routed(s, m1).0, m2).1 == seq![
            Delivered::Stats(
                frame_correlation_id(m1),
                s.stats[frame_correlation_id(m1)] + parsed_stats(array_items(m1, "stats"@))
                    + parsed_stats(array_items(m2, "stats"@)),
            ),
        ],
        routed(routed(s, m1).0, m2).0 == withdrawn(s, RequestKind::Stats, frame_correlation_id(m1)),
{
    lemma_frame_types_distinct();
    let cid = frame_correlation_id(m1);
    let s1 = routed(s, m1).0;
    assert(s1.stats.remove(cid) =~= s.stats.remove(cid));
}

/// Timers batches accumulate until the end-of-batch frame: a first frame that is not the last
/// delivers nothing, and the last one delivers the timers gathered so far followed by those of
/// both frames, in arrival order; then nothing waits on the correlation id.
pub proof fn lemma_timers_accumulate(s: RouterState, m1: JsonValue, m2: JsonValue)
    requires
        frame_type(m1) == "timers"@,
        frame_type(m2) == "timers"@,
        frame_correlation_id(m1) == frame_correlation_id(m2),
        s.timers.contains_key(frame_correlation_id(m1)),
        !end_of_batch(m1),
        end_of_batch(m2),
    ensures
        routed(s, m1).1 == Seq::<Delivered>::empty(),
        routed(routed(s, m1).0, m2).1 == seq![
            Delivered::Timers(
                frame_correlation_id(m1),
                s.timers[frame_correlation_id(m1)] + parsed_timers(array_items(m1, "timers"@))
                    + parsed_timers(array_items(m2, "timers"@)),
            ),
        ],
        routed(routed(s, m1).0, m2).0 == withdrawn(s, RequestKind::Timers, frame_correlation_id(m1)),
{
    lemma_frame_types_distinct();
    let cid = frame_correlation_id(m1);
    let s1 = routed(s, m1).0;
    assert(s1.timers.remove(cid) =~= s.timers.remove(cid));
}

/// Bulk responses accumulate until the end-of-batch frame: a first frame that is not the last
/// delivers nothing, and the last one delivers the operation results gathered so far followed by
/// those of both frames, in arrival order; then nothing waits on the correlation id.
pub proof fn lemma_bulk_accumulate(s: RouterState, m1: JsonValue, m2: JsonValue)
    requires
        frame_type(m1) == "bulkResponse"@,
        frame_type(m2) == "bulkResponse"@,
        frame_correlation_id(m1) == frame_correlation_id(m2),
        s.bulk.contains_key(frame_correlation_id(m1)),
        !end_of_batch(m1),
        end_of_batch(m2),
    ensures
        routed(s, m1).1 == Seq::<Delivered>::empty(),
        routed(routed(s, m1).0, m2).1 == seq![
            Delivered::Bulk(
                frame_correlation_id(m1),
                s.bulk[frame_correlation_id(m1)] + parsed_op_responses(
                    array_items(m1, "operationResponses"@),
                ) + parsed_op_responses(array_items(m2, "operationResponses"@)),
            ),
        ],
        routed(routed(s, m1).0, m2).0 == withdrawn(s, RequestKind::Bulk, frame_correlation_id(m1)),
{
    lemma_frame_types_distinct();
    let cid = frame_correlation_id(m1);
    let s1 = routed(s, m1).0;
    assert(s1.bulk.remove(cid) =~= s.bulk.remove(cid));
}

/// A timers request that has just been registered and is answered by a single last frame
/// delivers exactly the timers of that frame.
pub proof fn lemma_timers_single_frame(s: RouterState, cid: Seq<char>, m: JsonValue)
    requires
        frame_type(m) == "timers"@,
        frame_correlation_id(m) == cid,
        end_of_batch(m),
    ensures
        routed(registered(s, RequestKind::Timers, cid), m).1 == seq![
            Delivered::Timers(cid, parsed_timers(array_items(m, "timers"@))),
        ],
{
    lemma_frame_types_distinct();
    let s0 = registered(s, RequestKind::Timers, cid);
    assert(s0.timers[cid] + parsed_timers(array_items(m, "timers"@)) =~= parsed_timers(
        array_items(m, "timers"@),
    ));
}

/// A subscription acknowledgement releases the subscriber waiting on it, once.
pub proof fn lemma_ack_releases_once(s: RouterState, m: JsonValue)
    requires
        frame_type(m) == "subscribed"@,
        s.sub_acks.contains(frame_correlation_id(m)),
    ensures
        routed(s, m).1 == seq![Delivered::Subscribed(frame_correlation_id(m))],
        routed(routed(s, m).0, m).1 == Seq::<Delivered>::empty(),
{
    lemma_frame_types_distinct();
}

/// A stream update reaches a cache's listener with the frame's own fields: its cache id, event
/// type, key and correlation id, and its string value as the item value; a counter listener of
/// the cache gets the same update with the value read as an integer. No pending request
/// changes.
pub proof fn lemma_stream_update_fields(
    s: RouterState,
    m: JsonValue,
    value: String,
    cache_listener: Seq<char>,
    counter_listener: Seq<char>,
)
    requires
        frame_type(m) == "streamUpdate"@,
        field_of(m, "value"@) == Some(JsonValue::Str(value)),
        s.cache_listeners == seq![(str_field(m, "cacheId"@), cache_listener)],
        s.counter_listeners == seq![(str_field(m, "cacheId"@), counter_listener)],
    ensures
        routed(s, m).0 == s,
        routed(s, m).1 == seq![
            Delivered::CacheEvent(
                cache_listener,
                (
                    str_field(m, "cacheId"@),
                    str_field(m, "eventType"@),
                    opt_str_field(m, "key"@),
                    Some(value@),
                    str_field(m, "correlationId"@),
                ),
            ),
            Delivered::CounterEvent(
                counter_listener,
                (
                    str_field(m, "cacheId"@),
                    str_field(m, "eventType"@),
                    opt_str_field(m, "key"@),
                    Some(value_int(JsonValue::Str(value))),
                    str_field(m, "correlationId"@),
                ),
            ),
        ],
{
    lemma_frame_types_distinct();
    let c = str_field(m, "cacheId"@);
    let ce = stream_cache_event(m);
    let ke = stream_counter_event(m);
    assert(s.cache_listeners.drop_last() =~= Seq::<(Seq<char>, Seq<char>)>::empty());
    assert(s.counter_listeners.drop_last() =~= Seq::<(Seq<char>, Seq<char>)>::empty());
    assert(cache_deliveries(s.cache_listeners.drop_last(), c, ce) == Seq::<Delivered>::empty());
    assert(counter_deliveries(s.counter_listeners.drop_last(), c, ke) == Seq::<Delivered>::empty());
    assert(cache_deliveries(s.cache_listeners, c, ce) == seq![Delivered::CacheEvent(cache_listener, ce)]);
    assert(counter_deliveries(s.counter_listeners, c, ke) == seq![Delivered::CounterEvent(counter_listener, ke)]);
    assert(seq![Delivered::CacheEvent(cache_listener, ce)] + seq![Delivered::CounterEvent(counter_listener, ke)]
        =~= seq![Delivered::CacheEvent(cache_listener, ce), Delivered::CounterEvent(counter_listener, ke)]);
}

/// A stream update changes no pending request: it is routed by its cache id, not by its
/// correlation id (which names the command that caused it).
pub proof fn lemma_stream_keeps_pending(s: RouterState, msg: JsonValue)
    requires
        frame_type(msg) == "streamUpdate"@,
    ensures
        routed(s, msg).0 == s,
{
    lemma_frame_types_distinct();
}

/// An error frame fails the command waiting on its correlation id, with the frame's status and
/// message; a response arriving later for that id delivers nothing.
pub proof fn lemma_error_fails_command(s: RouterState, err: JsonValue, reply: JsonValue)
    requires
        frame_type(err) == "error"@,
        frame_correlation_id(err).len() > 0,
        s.commands.contains(frame_correlation_id(err)),
        frame_type(reply) == "commandResponse"@,
        frame_correlation_id(reply) == frame_correlation_id(err),
    ensures
        routed(s, err).1 == seq![
            Delivered::Failed(RequestKind::Command, frame_correlation_id(err), error_text(err)),
        ],
        routed(routed(s, err).0, reply).1 == Seq::<Delivered>::empty(),
{
    lemma_frame_types_distinct();
}

/// A frame whose type the router does not know changes nothing and delivers nothing.
pub proof fn lemma_unknown_frame_ignored(s: RouterState, msg: JsonValue)
    requires
        frame_type(msg) != "commandResponse"@,
        frame_type(msg) != "entries"@,
        frame_type(msg) != "stats"@,
        frame_type(msg) != "timers"@,
        frame_type(msg) != "bulkResponse"@,
        frame_type(msg) != "subscribed"@,
        frame_type(msg) != "streamUpdate"@,
        frame_type(msg) != "error"@,
    ensures
        routed(s, msg).0 == s,
        routed(s, msg).1 == Seq::<Delivered>::empty(),
{
}

/// Withdrawing a request right after registering it, on a correlation id that nothing waited
/// on, gives back the state before.
pub proof fn lemma_register_withdraw(s: RouterState, kind: RequestKind, cid: Seq<char>)
    requires
        !is_pending(s, kind, cid),
    ensures
        withdrawn(registered(s, kind, cid), kind, cid) == s,
{
    match kind {
        RequestKind::Command => assert(s.commands.insert(cid).remove(cid) =~= s.commands),
        RequestKind::Entries => assert(s.entries.insert(cid, (Map::empty(), Seq::empty(), Seq::empty())).remove(cid) =~= s.entries),
        RequestKind::Stats => assert(s.stats.insert(cid, Seq::empty()).remove(cid) =~= s.stats),
        RequestKind::Timers => assert(s.timers.insert(cid, Seq::empty()).remove(cid) =~= s.timers),
        RequestKind::Bulk => assert(s.bulk.insert(cid, Seq::empty()).remove(cid) =~= s.bulk),
        RequestKind::SubscribeAck => assert(s.sub_acks.insert(cid).remove(cid) =~= s.sub_acks),
    }
}

/// After a cache listener is removed, no cache update for its cache id reaches it.
pub proof fn lemma_removed_listener_silent(
    ls: Seq<(Seq<char>, Seq<char>)>,
    cache_id: Seq<char>,
    sub: Seq<char>,
    ev: (Seq<char>, Seq<char>, Option<Seq<char>>, Option<Seq<char>>, Seq<char>),
    i: int,
)
    requires
        0 <= i < cache_deliveries(without_listener(ls, cache_id, sub), cache_id, ev).len(),
    ensures
        cache_deliveries(without_listener(ls, cache_id, sub), cache_id, ev)[i]
            != Delivered::CacheEvent(sub, ev),
    decreases ls.len(),
{
    if ls.len() > 0 {
        let rest = without_listener(ls.drop_last(), cache_id, sub);
        let w = without_listener(ls, cache_id, sub);
        let d = cache_deliveries(rest, cache_id, ev);
        if ls.last() == (cache_id, sub) {
            lemma_removed_listener_silent(ls.drop_last(), cache_id, sub, ev, i);
        } else {
            assert(w.drop_last() =~= rest);
            if i < d.len() {
                lemma_removed_listener_silent(ls.drop_last(), cache_id, sub, ev, i);
            }
        }
    }
}

} // verus!
