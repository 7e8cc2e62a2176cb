//! Routing of decoded gateway frames: the requests that wait on a correlation id, the entries and
//! stats batches that accumulate until their end-of-batch frame, and the streaming listeners,
//! found by cache id. [`GatewayRouter::dispatch`] turns one decoded frame into the deliveries it
//! causes; the connection's poller performs them.

use vstd::prelude::*;
use crate::bidi::frames::op_response_view;
use crate::bidi::router::{cache_event_view, counter_event_view, op_response_views, RequestKind};
use crate::gateway::{event_type_name, spec_event_type_name, spec_status_name, status_name, CommandResponse};
use crate::messages::{BooleanType, OperationStatus, UpdateEventType};
use crate::mirror::LocalMirror;
use crate::model::{
    BulkCacheOpsResponse, CacheItem, CacheOperationResponse, CacheUpdateEvent, CounterUpdateEvent,
    GatewayStat, GetCacheResponse,
};
use crate::text::{parse_i64, parse_i64_spec, push_str, text_is};

verus! {

/// One operation result of a decoded bulk response frame.
#[derive(Clone, Debug)]
pub struct DecodedOp {
    pub status: OperationStatus,
    pub request_id: String,
    pub cache_id: String,
    pub key: String,
    pub value: String,
}

/// A decoded gateway frame, with the fields that routing reads.
#[derive(Debug)]
pub enum GatewayFrame {
    CommandResponse {
        status: OperationStatus,
        correlation_id: String,
        cache_id: String,
        key: String,
        value: String,
    },
    Error { status: OperationStatus, correlation_id: String, message: String },
    StreamUpdate {
        event_type: UpdateEventType,
        cache_id: String,
        key: String,
        value: String,
        correlation_id: String,
    },
    Entries {
        status: OperationStatus,
        end_of_batch: BooleanType,
        items: Vec<CacheItem>,
        correlation_id: String,
        cache_id: String,
    },
    Stats { end_of_batch: BooleanType, stats: Vec<GatewayStat>, correlation_id: String },
    SubscribeAck { correlation_id: String },
    BulkResponse { operations: Vec<DecodedOp>, correlation_id: String },
    /// A frame of a template the client does not read.
    Other,
}

/// What one decoded frame asks the connection to do.
#[derive(Debug)]
pub enum GatewayDelivery {
    /// Hand a command response to the command waiting on `correlation_id`.
    Reply { correlation_id: String, response: CommandResponse },
    /// Complete an entries request.
    Entries { correlation_id: String, response: GetCacheResponse },
    /// Complete a stats request.
    Stats { correlation_id: String, stats: Vec<GatewayStat> },
    /// Complete a bulk request.
    Bulk { correlation_id: String, response: BulkCacheOpsResponse },
    /// Release the subscriber waiting for the acknowledgement of `correlation_id`.
    Subscribed { correlation_id: String },
    /// Hand a cache update to the listener `listener`.
    CacheEvent { listener: u64, event: CacheUpdateEvent },
    /// Hand a counter update to the listener `listener`.
    CounterEvent { listener: u64, event: CounterUpdateEvent },
    /// Fail the request of kind `kind` waiting on `correlation_id`.
    Failed { kind: RequestKind, correlation_id: String, message: String },
}

/// The items of a list, as (key, value) pairs of plain values.
pub open spec fn item_views(s: Seq<CacheItem>) -> Seq<(Seq<char>, Seq<char>)> {
    s.map_values(|i: CacheItem| (i.key@, i.value@))
}

/// The stats of a list, as plain values.
pub open spec fn gateway_stat_views(s: Seq<GatewayStat>) -> Seq<(Seq<char>, i64, i64, i64, i64)> {
    s.map_values(|g: GatewayStat| (g.cache_id@, g.added_count, g.removed_count, g.cleared_count, g.size))
}

/// An empty text stands for an absent value.
pub open spec fn non_empty(s: Seq<char>) -> Option<Seq<char>> {
    if s.len() == 0 {
        None
    } else {
        Some(s)
    }
}

/// The operation result that a decoded bulk operation stands for.
pub open spec fn decoded_op_view(o: DecodedOp) -> (
    Seq<char>,
    Seq<char>,
    Seq<char>,
    Option<Seq<char>>,
    Option<Seq<char>>,
) {
    (o.request_id@, spec_status_name(o.status), o.cache_id@, non_empty(o.key@), non_empty(o.value@))
}

/// The operation results of a decoded bulk response, in order.
pub open spec fn decoded_op_views(s: Seq<DecodedOp>) -> Seq<
    (Seq<char>, Seq<char>, Seq<char>, Option<Seq<char>>, Option<Seq<char>>),
> {
    s.map_values(|o: DecodedOp| decoded_op_view(o))
}

/// A delivery, as plain values.
pub enum GatewayDelivered {
    Reply(Seq<char>, (Seq<char>, Seq<char>, Seq<char>, Seq<char>)),
    Entries(Seq<char>, Seq<char>, Seq<char>, Seq<(Seq<char>, Seq<char>)>),
    Stats(Seq<char>, Seq<(Seq<char>, i64, i64, i64, i64)>),
    Bulk(
        Seq<char>,
        Seq<char>,
        Seq<(Seq<char>, Seq<char>, Seq<char>, Option<Seq<char>>, Option<Seq<char>>)>,
    ),
    Subscribed(Seq<char>),
    CacheEvent(u64, (Seq<char>, Seq<char>, Option<Seq<char>>, Option<Seq<char>>, Seq<char>)),
    CounterEvent(u64, (Seq<char>, Seq<char>, Option<Seq<char>>, Option<i64>, Seq<char>)),
    Failed(RequestKind, Seq<char>, Seq<char>),
}

/// A delivery as plain values. A command response is read as (status, cache id, key, value); an
/// entries reply as (correlation id, cache id, status, items); a bulk reply as (correlation id,
/// request id, results).
pub open spec fn gateway_delivered(d: GatewayDelivery) -> GatewayDelivered {
    match d {
        GatewayDelivery::Reply { correlation_id, response } => GatewayDelivered::Reply(
            correlation_id@,
            (response.status@, response.cache_id@, response.key@, response.value@),
        ),
        GatewayDelivery::Entries { correlation_id, response } => GatewayDelivered::Entries(
            correlation_id@,
            response.cache_id@,
            response.operation_status@,
            item_views(response.items@),
        ),
        GatewayDelivery::Stats { correlation_id, stats } => GatewayDelivered::Stats(
            correlation_id@,
            gateway_stat_views(stats@),
        ),
        GatewayDelivery::Bulk { correlation_id, response } => GatewayDelivered::Bulk(
            correlation_id@,
            response.request_id@,
            op_response_views(response.operation_responses@),
        ),
        GatewayDelivery::Subscribed { correlation_id } => GatewayDelivered::Subscribed(
            correlation_id@,
        ),
        GatewayDelivery::CacheEvent { listener, event } => GatewayDelivered::CacheEvent(
            listener,
            cache_event_view(event),
        ),
        GatewayDelivery::CounterEvent { listener, event } => GatewayDelivered::CounterEvent(
            listener,
            counter_event_view(event),
        ),
        GatewayDelivery::Failed { kind, correlation_id, message } => GatewayDelivered::Failed(
            kind,
            correlation_id@,
            message@,
        ),
    }
}

/// A list of deliveries, as plain values.
pub open spec fn gateway_delivered_all(s: Seq<GatewayDelivery>) -> Seq<GatewayDelivered> {
    s.map_values(|d: GatewayDelivery| gateway_delivered(d))
}

/// The state of a gateway router, as plain values: the pending requests (with what the entries
/// and stats batches have accumulated so far: items, cache id and status; stats) and the
/// listeners, as (cache id, listener id) pairs in registration order.
#[verifier::ext_equal]
pub struct GatewayState {
    pub commands: Set<Seq<char>>,
    pub entries: Map<Seq<char>, (Seq<(Seq<char>, Seq<char>)>, Seq<char>, Seq<char>)>,
    pub stats: Map<Seq<char>, Seq<(Seq<char>, i64, i64, i64, i64)>>,
    pub bulk: Set<Seq<char>>,
    pub sub_acks: Set<Seq<char>>,
    pub cache_listeners: Seq<(Seq<char>, u64)>,
    pub counter_listeners: Seq<(Seq<char>, u64)>,
}

/// Whether a request of kind `kind` waits on `cid` (the gateway has no timers requests).
pub open spec fn gateway_pending(s: GatewayState, kind: RequestKind, cid: Seq<char>) -> bool {
    match kind {
        RequestKind::Command => s.commands.contains(cid),
        RequestKind::Entries => s.entries.contains_key(cid),
        RequestKind::Stats => s.stats.contains_key(cid),
        RequestKind::Timers => false,
        RequestKind::Bulk => s.bulk.contains(cid),
        RequestKind::SubscribeAck => s.sub_acks.contains(cid),
    }
}

/// The state after a request of kind `kind` starts waiting on `cid`, with nothing accumulated
/// (a timers request does not exist on the gateway and changes nothing).
pub open spec fn gateway_registered(s: GatewayState, kind: RequestKind, cid: Seq<char>) -> GatewayState {
    match kind {
        RequestKind::Command => GatewayState { commands: s.commands.insert(cid), ..s },
        RequestKind::Entries => GatewayState {
            entries: s.entries.insert(cid, (Seq::empty(), Seq::empty(), Seq::empty())),
            ..s
        },
        RequestKind::Stats => GatewayState { stats: s.stats.insert(cid, Seq::empty()), ..s },
        RequestKind::Timers => s,
        RequestKind::Bulk => GatewayState { bulk: s.bulk.insert(cid), ..s },
        RequestKind::SubscribeAck => GatewayState { sub_acks: s.sub_acks.insert(cid), ..s },
    }
}

/// The state after the request of kind `kind` on `cid`, if any, stops waiting.
pub open spec fn gateway_withdrawn(s: GatewayState, kind: RequestKind, cid: Seq<char>) -> GatewayState {
    match kind {
        RequestKind::Command => GatewayState { commands: s.commands.remove(cid), ..s },
        RequestKind::Entries => GatewayState { entries: s.entries.remove(cid), ..s },
        RequestKind::Stats => GatewayState { stats: s.stats.remove(cid), ..s },
        RequestKind::Timers => s,
        RequestKind::Bulk => GatewayState { bulk: s.bulk.remove(cid), ..s },
        RequestKind::SubscribeAck => GatewayState { sub_acks: s.sub_acks.remove(cid), ..s },
    }
}

/// The listeners of `ls` registered for a cache other than `cache_id`, in order.
pub open spec fn without_cache(ls: Seq<(Seq<char>, u64)>, cache_id: Seq<char>) -> Seq<(Seq<char>, u64)>
    decreases ls.len(),
{
    if ls.len() == 0 {
        Seq::empty()
    } else {
        let rest = without_cache(ls.drop_last(), cache_id);
        if ls.last().0 == cache_id {
            rest
        } else {
            rest.push(ls.last())
        }
    }
}

/// The cache updates delivered to the listeners of `ls` registered for `cache_id`, in order.
pub open spec fn gateway_cache_deliveries(
    ls: Seq<(Seq<char>, u64)>,
    cache_id: Seq<char>,
    ev: (Seq<char>, Seq<char>, Option<Seq<char>>, Option<Seq<char>>, Seq<char>),
) -> Seq<GatewayDelivered>
    decreases ls.len(),
{
    if ls.len() == 0 {
        Seq::empty()
    } else {
        let rest = gateway_cache_deliveries(ls.drop_last(), cache_id, ev);
        if ls.last().0 == cache_id {
            rest.push(GatewayDelivered::CacheEvent(ls.last().1, ev))
        } else {
            rest
        }
    }
}

/// The counter updates delivered to the listeners of `ls` registered for `cache_id`, in order.
pub open spec fn gateway_counter_deliveries(
    ls: Seq<(Seq<char>, u64)>,
    cache_id: Seq<char>,
    ev: (Seq<char>, Seq<char>, Option<Seq<char>>, Option<i64>, Seq<char>),
) -> Seq<GatewayDelivered>
    decreases ls.len(),
{
    if ls.len() == 0 {
        Seq::empty()
    } else {
        let rest = gateway_counter_deliveries(ls.drop_last(), cache_id, ev);
        if ls.last().0 == cache_id {
            rest.push(GatewayDelivered::CounterEvent(ls.last().1, ev))
        } else {
            rest
        }
    }
}

/// The listener pairs of a list, as plain values.
pub open spec fn listener_views(v: Seq<(String, u64)>) -> Seq<(Seq<char>, u64)> {
    v.map_values(|p: (String, u64)| (p.0@, p.1))
}

/// The text with which an error frame fails a request: `gateway error [STATUS]: MESSAGE`.
pub open spec fn gateway_error_text(status: OperationStatus, message: Seq<char>) -> Seq<char> {
    "gateway error ["@ + spec_status_name(status) + "]: "@ + message
}

/// What one decoded frame does to a router's state, and the deliveries it causes:
/// - a command response completes the command waiting on its correlation id;
/// - an error fails the first request waiting on its correlation id among commands, entries,
///   stats and bulk requests;
/// - a stream update goes to every cache listener of its cache id, then to every counter
///   listener of it (an empty key or value stands for none; a counter value is the value parsed
///   as an `i64`, if it parses);
/// - an entries or stats frame extends the batch waiting on its correlation id (an entries frame
///   also sets the batch's cache id and status), and the end-of-batch frame completes it;
/// - a subscription acknowledgement releases the subscriber waiting on it;
/// - a bulk response completes the bulk request waiting on it, reporting the correlation id as
///   the request id;
/// - any other frame does nothing.
pub open spec fn gateway_routed(s: GatewayState, f: GatewayFrame) -> (GatewayState, Seq<GatewayDelivered>) {
    match f {
        GatewayFrame::CommandResponse { status, correlation_id, cache_id, key, value } => {
            let cid = correlation_id@;
            if s.commands.contains(cid) {
                (
                    gateway_withdrawn(s, RequestKind::Command, cid),
                    seq![
                        GatewayDelivered::Reply(
                            cid,
                            (spec_status_name(status), cache_id@, key@, value@),
                        ),
                    ],
                )
            } else {
                (s, Seq::empty())
            }
        },
        GatewayFrame::Error { status, correlation_id, message } => {
            let cid = correlation_id@;
            let text = gateway_error_text(status, message@);
            if s.commands.contains(cid) {
                (
                    gateway_withdrawn(s, RequestKind::Command, cid),
                    seq![GatewayDelivered::Failed(RequestKind::Command, cid, text)],
                )
            } else if s.entries.contains_key(cid) {
                (
                    gateway_withdrawn(s, RequestKind::Entries, cid),
                    seq![GatewayDelivered::Failed(RequestKind::Entries, cid, text)],
                )
            } else if s.stats.contains_key(cid) {
                (
                    gateway_withdrawn(s, RequestKind::Stats, cid),
                    seq![GatewayDelivered::Failed(RequestKind::Stats, cid, text)],
                )
            } else if s.bulk.contains(cid) {
                (
                    gateway_withdrawn(s, RequestKind::Bulk, cid),
                    seq![GatewayDelivered::Failed(RequestKind::Bulk, cid, text)],
                )
            } else {
                (s, Seq::empty())
            }
        },
        GatewayFrame::StreamUpdate { event_type, cache_id, key, value, correlation_id } => {
            let et = spec_event_type_name(event_type);
            let ce = (cache_id@, et, non_empty(key@), non_empty(value@), correlation_id@);
            let ke = (cache_id@, et, non_empty(key@), parse_i64_spec(value@), correlation_id@);
            (
                s,
                gateway_cache_deliveries(s.cache_listeners, cache_id@, ce)
                    + gateway_counter_deliveries(s.counter_listeners, cache_id@, ke),
            )
        },
        GatewayFrame::Entries { status, end_of_batch, items, correlation_id, cache_id } => {
            let cid = correlation_id@;
            if s.entries.contains_key(cid) {
                let acc = s.entries[cid].0 + item_views(items@);
                let st = spec_status_name(status);
                if end_of_batch == BooleanType::T {
                    (
                        gateway_withdrawn(s, RequestKind::Entries, cid),
                        seq![GatewayDelivered::Entries(cid, cache_id@, st, acc)],
                    )
                } else {
                    (
                        GatewayState { entries: s.entries.insert(cid, (acc, cache_id@, st)), ..s },
                        Seq::empty(),
                    )
                }
            } else {
                (s, Seq::empty())
            }
        },
        GatewayFrame::Stats { end_of_batch, stats, correlation_id } => {
            let cid = correlation_id@;
            if s.stats.contains_key(cid) {
                let acc = s.stats[cid] + gateway_stat_views(stats@);
                if end_of_batch == BooleanType::T {
                    (
                        gateway_withdrawn(s, RequestKind::Stats, cid),
                        seq![GatewayDelivered::Stats(cid, acc)],
                    )
                } else {
                    (GatewayState { stats: s.stats.insert(cid, acc), ..s }, Seq::empty())
                }
            } else {
                (s, Seq::empty())
            }
        },
        GatewayFrame::SubscribeAck { correlation_id } => {
            let cid = correlation_id@;
            if s.sub_acks.contains(cid) {
                (
                    gateway_withdrawn(s, RequestKind::SubscribeAck, cid),
                    seq![GatewayDelivered::Subscribed(cid)],
                )
            } else {
                (s, Seq::empty())
            }
        },
        GatewayFrame::BulkResponse { operations, correlation_id } => {
            let cid = correlation_id@;
            if s.bulk.contains(cid) {
                (
                    gateway_withdrawn(s, RequestKind::Bulk, cid),
                    seq![GatewayDelivered::Bulk(cid, cid, decoded_op_views(operations@))],
                )
            } else {
                (s, Seq::empty())
            }
        },
        GatewayFrame::Other => (s, Seq::empty()),
    }
}

/// An entries batch of the gateway being accumulated.
struct GatewayBatch {
    items: Vec<CacheItem>,
    cache_id: String,
    status: String,
}

/// The pending requests and streaming listeners of a gateway connection.
pub struct GatewayRouter {
    commands: LocalMirror<()>,
    entries: LocalMirror<GatewayBatch>,
    stats: LocalMirror<Vec<GatewayStat>>,
    bulk: LocalMirror<()>,
    sub_acks: LocalMirror<()>,
    cache_listeners: Vec<(String, u64)>,
    counter_listeners: Vec<(String, u64)>,
}

impl GatewayRouter {
    /// This router's state, as plain values.
    pub closed spec fn state(&self) -> GatewayState {
        GatewayState {
            commands: self.commands@.dom(),
            entries: self.entries@.map_values(
                |b: GatewayBatch| (item_views(b.items@), b.cache_id@, b.status@),
            ),
            stats: self.stats@.map_values(|v: Vec<GatewayStat>| gateway_stat_views(v@)),
            bulk: self.bulk@.dom(),
            sub_acks: self.sub_acks@.dom(),
            cache_listeners: listener_views(self.cache_listeners@),
            counter_listeners: listener_views(self.counter_listeners@),
        }
    }

    /// A router with nothing pending and no listener.
    pub fn new() -> (r: Self)
        ensures
            r.state() == (GatewayState {
                commands: Set::empty(),
                entries: Map::empty(),
                stats: Map::empty(),
                bulk: Set::empty(),
                sub_acks: Set::empty(),
                cache_listeners: Seq::empty(),
                counter_listeners: Seq::empty(),
            }),
    {
        let r = GatewayRouter {
            commands: LocalMirror::new(),
            entries: LocalMirror::new(),
            stats: LocalMirror::new(),
            bulk: LocalMirror::new(),
            sub_acks: LocalMirror::new(),
            cache_listeners: Vec::new(),
            counter_listeners: Vec::new(),
        };
        assert(r.state().commands =~= Set::empty());
        assert(r.state().bulk =~= Set::empty());
        assert(r.state().sub_acks =~= Set::empty());
        assert(r.state().entries =~= Map::empty());
        assert(r.state().stats =~= Map::empty());
        assert(r.state().cache_listeners =~= Seq::empty());
        assert(r.state().counter_listeners =~= Seq::empty());
        r
    }

    /// Starts a request of kind `kind` waiting on `cid`, with nothing accumulated; a request of
    /// the same kind already waiting on `cid` is forgotten. (The gateway has no timers requests:
    /// registering one changes nothing.)
    pub fn register(&mut self, kind: RequestKind, cid: String)
        ensures
            final(self).state() == gateway_registered(old(self).state(), kind, cid@),
    {
        let ghost s = self.state();
        let ghost k = cid@;
        match kind {
            RequestKind::Command => {
                self.commands.insert(cid, ());
                assert(self.state().commands =~= s.commands.insert(k));
            },
            RequestKind::Entries => {
                let batch = GatewayBatch {
                    items: Vec::new(),
                    cache_id: String::new(),
                    status: String::new(),
                };
                self.entries.insert(cid, batch);
                assert(item_views(Seq::<CacheItem>::empty()) =~= Seq::empty());
                assert(self.state().entries =~= s.entries.insert(
                    k,
                    (Seq::empty(), Seq::empty(), Seq::empty()),
                ));
            },
            RequestKind::Stats => {
                self.stats.insert(cid, Vec::new());
                assert(gateway_stat_views(Seq::<GatewayStat>::empty()) =~= Seq::empty());
                assert(self.state().stats =~= s.stats.insert(k, Seq::empty()));
            },
            RequestKind::Timers => {},
            RequestKind::Bulk => {
                self.bulk.insert(cid, ());
                assert(self.state().bulk =~= s.bulk.insert(k));
            },
            RequestKind::SubscribeAck => {
                self.sub_acks.insert(cid, ());
                assert(self.state().sub_acks =~= s.sub_acks.insert(k));
            },
        }
    }

    /// Stops the request of kind `kind` on `cid` from waiting (after its frame could not be sent,
    /// or its wait timed out or failed); says whether one was waiting.
    pub fn withdraw(&mut self, kind: RequestKind, cid: &str) -> (r: bool)
        ensures
            r == gateway_pending(old(self).state(), kind, cid@),
            final(self).state() == gateway_withdrawn(old(self).state(), kind, cid@),
    {
        let ghost s = self.state();
        let ghost k = cid@;
        match kind {
            RequestKind::Command => {
                let r = self.commands.remove(cid);
                assert(self.state().commands =~= s.commands.remove(k));
                r.is_some()
            },
            RequestKind::Entries => {
                let r = self.entries.remove(cid);
                assert(self.state().entries =~= s.entries.remove(k));
                r.is_some()
            },
            RequestKind::Stats => {
                let r = self.stats.remove(cid);
                assert(self.state().stats =~= s.stats.remove(k));
                r.is_some()
            },
            RequestKind::Timers => false,
            RequestKind::Bulk => {
                let r = self.bulk.remove(cid);
                assert(self.state().bulk =~= s.bulk.remove(k));
                r.is_some()
            },
            RequestKind::SubscribeAck => {
                let r = self.sub_acks.remove(cid);
                assert(self.state().sub_acks =~= s.sub_acks.remove(k));
                r.is_some()
            },
        }
    }

    /// Registers the listener `listener` for the updates of `cache_id` (of a counter cache when
    /// `counters`).
    pub fn add_listener(&mut self, counters: bool, cache_id: String, listener: u64)
        ensures
            counters ==> final(self).state() == (GatewayState {
                counter_listeners: old(self).state().counter_listeners.push((cache_id@, listener)),
                ..old(self).state()
            }),
            !counters ==> final(self).state() == (GatewayState {
                cache_listeners: old(self).state().cache_listeners.push((cache_id@, listener)),
                ..old(self).state()
            }),
    {
        let ghost s = self.state();
        let ghost p = (cache_id@, listener);
        if counters {
            self.counter_listeners.push((cache_id, listener));
            assert(self.state().counter_listeners =~= s.counter_listeners.push(p));
        } else {
            self.cache_listeners.push((cache_id, listener));
            assert(self.state().cache_listeners =~= s.cache_listeners.push(p));
        }
    }

    /// Removes every listener of `cache_id` (of a counter cache when `counters`), as dropping a
    /// subscription does; the other listeners keep their order.
    pub fn remove_listeners(&mut self, counters: bool, cache_id: &str)
        ensures
            counters ==> final(self).state() == (GatewayState {
                counter_listeners: without_cache(old(self).state().counter_listeners, cache_id@),
                ..old(self).state()
            }),
            !counters ==> final(self).state() == (GatewayState {
                cache_listeners: without_cache(old(self).state().cache_listeners, cache_id@),
                ..old(self).state()
            }),
    {
        let ghost s = self.state();
        if counters {
            let kept = other_caches(&self.counter_listeners, cache_id);
            self.counter_listeners = kept;
            assert(self.state().counter_listeners =~= without_cache(s.counter_listeners, cache_id@));
        } else {
            let kept = other_caches(&self.cache_listeners, cache_id);
            self.cache_listeners = kept;
            assert(self.state().cache_listeners =~= without_cache(s.cache_listeners, cache_id@));
        }
    }

    /// Routes one decoded frame: updates the pending requests as [`gateway_routed`] says and
    /// returns the deliveries it causes.
    pub fn dispatch(&mut self, frame: GatewayFrame) -> (out: Vec<GatewayDelivery>)
        ensures
            final(self).state() == gateway_routed(old(self).state(), frame).0,
            gateway_delivered_all(out@) == gateway_routed(old(self).state(), frame).1,
    {
        let ghost s = self.state();
        let ghost f = frame;
        let mut out: Vec<GatewayDelivery> = Vec::new();
        match frame {
            GatewayFrame::CommandResponse { status, correlation_id, cache_id, key, value } => {
                let ghost k = correlation_id@;
                match self.commands.remove(correlation_id.as_str()) {
                    Some(_) => {
                        assert(self.state().commands =~= s.commands.remove(k));
                        let response = CommandResponse {
                            status: status_name(status),
                            cache_id,
                            key,
                            value,
                        };
                        let ghost rv = (response.status@, response.cache_id@, response.key@, response.value@);
                        out.push(GatewayDelivery::Reply { correlation_id, response });
                        assert(gateway_delivered_all(out@) =~= seq![GatewayDelivered::Reply(k, rv)]);
                    },
                    None => {
                        assert(self.state().commands =~= s.commands);
                        assert(gateway_delivered_all(out@) =~= Seq::empty());
                    },
                }
            },
            GatewayFrame::Error { status, correlation_id, message } => {
                let ghost k = correlation_id@;
                let mut text = String::new();
                push_str(&mut text, "gateway error [");
                let name = status_name(status);
                push_str(&mut text, name.as_str());
                push_str(&mut text, "]: ");
                push_str(&mut text, message.as_str());
                let ghost t = text@;
                assert(t =~= gateway_error_text(status, message@));
                let kind = if self.commands.remove(correlation_id.as_str()).is_some() {
                    assert(self.state().commands =~= s.commands.remove(k));
                    Some(RequestKind::Command)
                } else {
                    assert(self.state().commands =~= s.commands);
                    if self.entries.remove(correlation_id.as_str()).is_some() {
                        assert(self.state().entries =~= s.entries.remove(k));
                        Some(RequestKind::Entries)
                    } else {
                        assert(self.state().entries =~= s.entries);
                        if self.stats.remove(correlation_id.as_str()).is_some() {
                            assert(self.state().stats =~= s.stats.remove(k));
                            Some(RequestKind::Stats)
                        } else {
                            assert(self.state().stats =~= s.stats);
                            if self.bulk.remove(correlation_id.as_str()).is_some() {
                                assert(self.state().bulk =~= s.bulk.remove(k));
                                Some(RequestKind::Bulk)
                            } else {
                                assert(self.state().bulk =~= s.bulk);
                                None
                            }
                        }
                    }
                };
                match kind {
                    Some(kd) => {
                        out.push(GatewayDelivery::Failed { kind: kd, correlation_id, message: text });
                        assert(gateway_delivered_all(out@) =~= seq![GatewayDelivered::Failed(kd, k, t)]);
                    },
                    None => {
                        assert(gateway_delivered_all(out@) =~= Seq::empty());
                    },
                }
            },
            GatewayFrame::StreamUpdate { event_type, cache_id, key, value, correlation_id } => {
                out = self.stream_deliveries(event_type, &cache_id, &key, &value, &correlation_id);
            },
            GatewayFrame::Entries { status, end_of_batch, items, correlation_id, cache_id } => {
                let ghost k = correlation_id@;
                match self.entries.remove(correlation_id.as_str()) {
                    Some(batch) => {
                        let mut batch = batch;
                        let ghost before = item_views(batch.items@);
                        let mut items = items;
                        let ghost added = item_views(items@);
                        batch.items.append(&mut items);
                        assert(item_views(batch.items@) =~= before + added);
                        batch.cache_id = cache_id;
                        batch.status = status_name(status);
                        let ghost acc = (item_views(batch.items@), batch.cache_id@, batch.status@);
                        if end_of_batch == BooleanType::T {
                            assert(self.state().entries =~= s.entries.remove(k));
                            let GatewayBatch { items, cache_id, status } = batch;
                            let response = GetCacheResponse {
                                cache_id,
                                operation_status: status,
                                items,
                            };
                            out.push(GatewayDelivery::Entries { correlation_id, response });
                            assert(gateway_delivered_all(out@) =~= seq![
                                GatewayDelivered::Entries(k, acc.1, acc.2, acc.0),
                            ]);
                        } else {
                            self.entries.insert(correlation_id, batch);
                            assert(self.state().entries =~= s.entries.insert(k, acc));
                            assert(gateway_delivered_all(out@) =~= Seq::empty());
                        }
                    },
                    None => {
                        assert(self.state().entries =~= s.entries);
                        assert(gateway_delivered_all(out@) =~= Seq::empty());
                    },
                }
            },
            GatewayFrame::Stats { end_of_batch, stats, correlation_id } => {
                let ghost k = correlation_id@;
                match self.stats.remove(correlation_id.as_str()) {
                    Some(acc) => {
                        let mut acc = acc;
                        let ghost before = gateway_stat_views(acc@);
                        let mut stats = stats;
                        let ghost added = gateway_stat_views(stats@);
                        acc.append(&mut stats);
                        let ghost a = gateway_stat_views(acc@);
                        assert(a =~= before + added);
                        if end_of_batch == BooleanType::T {
                            assert(self.state().stats =~= s.stats.remove(k));
                            out.push(GatewayDelivery::Stats { correlation_id, stats: acc });
                            assert(gateway_delivered_all(out@) =~= seq![GatewayDelivered::Stats(k, a)]);
                        } else {
                            self.stats.insert(correlation_id, acc);
                            assert(self.state().stats =~= s.stats.insert(k, a));
                            assert(gateway_delivered_all(out@) =~= Seq::empty());
                        }
                    },
                    None => {
                        assert(self.state().stats =~= s.stats);
                        assert(gateway_delivered_all(out@) =~= Seq::empty());
                    },
                }
            },
            GatewayFrame::SubscribeAck { correlation_id } => {
                let ghost k = correlation_id@;
                match self.sub_acks.remove(correlation_id.as_str()) {
                    Some(_) => {
                        assert(self.state().sub_acks =~= s.sub_acks.remove(k));
                        out.push(GatewayDelivery::Subscribed { correlation_id });
                        assert(gateway_delivered_all(out@) =~= seq![GatewayDelivered::Subscribed(k)]);
                    },
                    None => {
                        assert(self.state().sub_acks =~= s.sub_acks);
                        assert(gateway_delivered_all(out@) =~= Seq::empty());
                    },
                }
            },
            GatewayFrame::BulkResponse { operations, correlation_id } => {
                let ghost k = correlation_id@;
                match self.bulk.remove(correlation_id.as_str()) {
                    Some(_) => {
                        assert(self.state().bulk =~= s.bulk.remove(k));
                        let ghost ov = decoded_op_views(operations@);
                        let responses = op_results(&operations);
                        let response = BulkCacheOpsResponse {
                            request_id: correlation_id.clone(),
                            operation_responses: responses,
                        };
                        out.push(GatewayDelivery::Bulk { correlation_id, response });
                        assert(gateway_delivered_all(out@) =~= seq![GatewayDelivered::Bulk(k, k, ov)]);
                    },
                    None => {
                        assert(self.state().bulk =~= s.bulk);
                        assert(gateway_delivered_all(out@) =~= Seq::empty());
                    },
                }
            },
            GatewayFrame::Other => {
                assert(gateway_delivered_all(out@) =~= Seq::empty());
            },
        }
        out
    }

    fn stream_deliveries(
        &self,
        event_type: UpdateEventType,
        cache_id: &String,
        key: &String,
        value: &String,
        correlation_id: &String,
    ) -> (out: Vec<GatewayDelivery>)
        ensures
            gateway_delivered_all(out@) == gateway_cache_deliveries(
                self.state().cache_listeners,
                cache_id@,
                (
                    cache_id@,
                    spec_event_type_name(event_type),
                    non_empty(key@),
                    non_empty(value@),
                    correlation_id@,
                ),
            ) + gateway_counter_deliveries(
                self.state().counter_listeners,
                cache_id@,
                (
                    cache_id@,
                    spec_event_type_name(event_type),
                    non_empty(key@),
                    parse_i64_spec(value@),
                    correlation_id@,
                ),
            ),
    {
        let ghost ce = (
            cache_id@,
            spec_event_type_name(event_type),
            non_empty(key@),
            non_empty(value@),
            correlation_id@,
        );
        let ghost ke = (
            cache_id@,
            spec_event_type_name(event_type),
            non_empty(key@),
            parse_i64_spec(value@),
            correlation_id@,
        );
        let mut out: Vec<GatewayDelivery> = Vec::new();
        let n = self.cache_listeners.len();
        let mut i: usize = 0;
        while i < n
            invariant
                n == self.cache_listeners@.len(),
                i <= n,
                gateway_delivered_all(out@) == gateway_cache_deliveries(
                    listener_views(self.cache_listeners@.subrange(0, i as int)),
                    cache_id@,
                    ce,
                ),
                ce == (cache_id@, spec_event_type_name(event_type), non_empty(key@), non_empty(value@), correlation_id@),
            decreases n - i,
        {
            let ghost pv = listener_views(self.cache_listeners@.subrange(0, i + 1));
            assert(pv.drop_last() =~= listener_views(self.cache_listeners@.subrange(0, i as int)));
            if self.cache_listeners[i].0 == *cache_id {
                let ghost before = out@;
                let event = CacheUpdateEvent {
                    cache_id: cache_id.clone(),
                    event_type: event_type_name(event_type),
                    item_key: optional_text(key),
                    item_value: optional_text(value),
                    request_id: correlation_id.clone(),
                };
                out.push(GatewayDelivery::CacheEvent { listener: self.cache_listeners[i].1, event });
                assert(gateway_delivered_all(out@) =~= gateway_delivered_all(before).push(
                    GatewayDelivered::CacheEvent(pv.last().1, ce),
                ));
            }
            i = i + 1;
        }
        assert(self.cache_listeners@.subrange(0, n as int) =~= self.cache_listeners@);
        let ghost first = gateway_delivered_all(out@);
        let m = self.counter_listeners.len();
        let mut j: usize = 0;
        while j < m
            invariant
                m == self.counter_listeners@.len(),
                j <= m,
                gateway_delivered_all(out@) == first + gateway_counter_deliveries(
                    listener_views(self.counter_listeners@.subrange(0, j as int)),
                    cache_id@,
                    ke,
                ),
                ke == (cache_id@, spec_event_type_name(event_type), non_empty(key@), parse_i64_spec(value@), correlation_id@),
            decreases m - j,
        {
            let ghost pv = listener_views(self.counter_listeners@.subrange(0, j + 1));
            assert(pv.drop_last() =~= listener_views(self.counter_listeners@.subrange(0, j as int)));
            if self.counter_listeners[j].0 == *cache_id {
                let ghost before = out@;
                let event = CounterUpdateEvent {
                    cache_id: cache_id.clone(),
                    event_type: event_type_name(event_type),
                    item_key: optional_text(key),
                    item_value: parse_i64(value.as_str()),
                    request_id: correlation_id.clone(),
                };
                out.push(GatewayDelivery::CounterEvent { listener: self.counter_listeners[j].1, event });
                assert(gateway_delivered_all(out@) =~= gateway_delivered_all(before).push(
                    GatewayDelivered::CounterEvent(pv.last().1, ke),
                ));
            }
            j = j + 1;
        }
        assert(self.counter_listeners@.subrange(0, m as int) =~= self.counter_listeners@);
        out
    }
}

/// The text, or nothing when it is empty.
fn optional_text(s: &String) -> (r: Option<String>)
    ensures
        crate::bidi::frames::opt_string_view(r) == non_empty(s@),
{
    proof {
        reveal_strlit("");
    }
    if text_is(s, "") {
        None
    } else {
        assert(s@.len() != 0) by {
            if s@.len() == 0 {
                assert(s@ =~= ""@);
            }
        }
        Some(s.clone())
    }
}

/// The operation results of a decoded bulk response.
fn op_results(ops: &Vec<DecodedOp>) -> (r: Vec<CacheOperationResponse>)
    ensures
        op_response_views(r@) == decoded_op_views(ops@),
{
    let mut out: Vec<CacheOperationResponse> = Vec::new();
    let n = ops.len();
    let mut i: usize = 0;
    while i < n
        invariant
            n == ops@.len(),
            i <= n,
            op_response_views(out@) == decoded_op_views(ops@.subrange(0, i as int)),
        decreases n - i,
    {
        let ghost before = op_response_views(out@);
        let o = &ops[i];
        let r = CacheOperationResponse {
            request_id: o.request_id.clone(),
            status: status_name(o.status),
            cache_id: o.cache_id.clone(),
            key: optional_text(&o.key),
            value: optional_text(&o.value),
        };
        let ghost rv = op_response_view(r);
        out.push(r);
        assert(op_response_views(out@) =~= before.push(rv));
        assert(decoded_op_views(ops@.subrange(0, i + 1)) =~= decoded_op_views(
            ops@.subrange(0, i as int),
        ).push(decoded_op_view(ops@[i as int])));
        i = i + 1;
    }
    assert(ops@.subrange(0, n as int) =~= ops@);
    out
}

/// The pairs of `ls` whose cache id is not `cache_id`, in order.
fn other_caches(ls: &Vec<(String, u64)>, cache_id: &str) -> (r: Vec<(String, u64)>)
    ensures
        listener_views(r@) == without_cache(listener_views(ls@), cache_id@),
{
    let c = cache_id.to_owned();
    let mut out: Vec<(String, u64)> = Vec::new();
    let n = ls.len();
    let mut i: usize = 0;
    while i < n
        invariant
            n == ls@.len(),
            i <= n,
            c@ == cache_id@,
            listener_views(out@) == without_cache(listener_views(ls@.subrange(0, i as int)), cache_id@),
        decreases n - i,
    {
        let ghost pv = listener_views(ls@.subrange(0, i + 1));
        assert(pv.drop_last() =~= listener_views(ls@.subrange(0, i as int)));
        if !(ls[i].0 == c) {
            let ghost before = out@;
            out.push((ls[i].0.clone(), ls[i].1));
            assert(listener_views(out@) =~= listener_views(before).push(pv.last()));
        }
        i = i + 1;
    }
    assert(ls@.subrange(0, n as int) =~= ls@);
    out
}

/// Entries batches accumulate until the end-of-batch frame: a first frame that is not the last
/// delivers nothing, and the last one delivers the items of both frames in arrival order, under
/// the last frame's cache id and status; then nothing waits on the correlation id.
pub proof fn lemma_gateway_entries_accumulate(
    s: GatewayState,
    status1: OperationStatus,
    items1: Vec<CacheItem>,
    cache1: String,
    status2: OperationStatus,
    items2: Vec<CacheItem>,
    cache2: String,
    cid: String,
)
    requires
        s.entries.contains_key(cid@),
    ensures
        ({
            let f1 = GatewayFrame::Entries {
                status: status1,
                end_of_batch: BooleanType::F,
                items: items1,
                correlation_id: cid,
                cache_id: cache1,
            };
            let f2 = GatewayFrame::Entries {
                status: status2,
                end_of_batch: BooleanType::T,
                items: items2,
                correlation_id: cid,
                cache_id: cache2,
            };
            &&& gateway_routed(s, f1).1 == Seq::<GatewayDelivered>::empty()
            &&& gateway_routed(gateway_routed(s, f1).0, f2).1 == seq![
                GatewayDelivered::Entries(
                    cid@,
                    cache2@,
                    spec_status_name(status2),
                    s.entries[cid@].0 + item_views(items1@) + item_views(items2@),
                ),
            ]
            &&& gateway_routed(gateway_routed(s, f1).0, f2).0 == gateway_withdrawn(
                s,
                RequestKind::Entries,
                cid@,
            )
        }),
{
    let f1 = GatewayFrame::Entries {
        status: status1,
        end_of_batch: BooleanType::F,
        items: items1,
        correlation_id: cid,
        cache_id: cache1,
    };
    let s1 = gateway_routed(s, f1).0;
    assert(s1.entries.remove(cid@) =~= s.entries.remove(cid@));
}

/// A command response completes the command waiting on its correlation id with the frame's own
/// fields: the reply carries the frame's status (by name), cache id, key and value, and then
/// nothing waits on that id any more.
pub proof fn lemma_gateway_reply_carries_frame(
    s: GatewayState,
    status: OperationStatus,
    cid: String,
    cache_id: String,
    key: String,
    value: String,
)
    requires
        s.commands.contains(cid@),
    ensures
        ({
            let f = GatewayFrame::CommandResponse {
                status,
                correlation_id: cid,
                cache_id,
                key,
                value,
            };
            &&& gateway_routed(s, f).1 == seq![
                GatewayDelivered::Reply(cid@, (spec_status_name(status), cache_id@, key@, value@)),
            ]
            &&& gateway_routed(s, f).0 == gateway_withdrawn(s, RequestKind::Command, cid@)
            &&& !gateway_routed(s, f).0.commands.contains(cid@)
        }),
{
}

/// A command response for a correlation id that no command waits on changes nothing and
/// delivers nothing.
pub proof fn lemma_gateway_unmatched_reply_ignored(s: GatewayState, f: GatewayFrame)
    requires
        f is CommandResponse,
        !s.commands.contains(f->CommandResponse_correlation_id@),
    ensures
        gateway_routed(s, f).0 == s,
        gateway_routed(s, f).1 == Seq::<GatewayDelivered>::empty(),
{
}

/// Stats batches accumulate until the end-of-batch frame: a first frame that is not the last
/// delivers nothing, and the last one delivers the stats of both frames in arrival order after
/// those already gathered; then nothing waits on the correlation id.
pub proof fn lemma_gateway_stats_accumulate(
    s: GatewayState,
    stats1: Vec<GatewayStat>,
    stats2: Vec<GatewayStat>,
    cid: String,
)
    requires
        s.stats.contains_key(cid@),
    ensures
        ({
            let f1 = GatewayFrame::Stats { end_of_batch: BooleanType::F, stats: stats1, correlation_id: cid };
            let f2 = GatewayFrame::Stats { end_of_batch: BooleanType::T, stats: stats2, correlation_id: cid };
            &&& gateway_routed(s, f1).1 == Seq::<GatewayDelivered>::empty()
            &&& gateway_routed(gateway_routed(s, f1).0, f2).1 == seq![
                GatewayDelivered::Stats(
                    cid@,
                    s.stats[cid@] + gateway_stat_views(stats1@) + gateway_stat_views(stats2@),
                ),
            ]
            &&& gateway_routed(gateway_routed(s, f1).0, f2).0 == gateway_withdrawn(
                s,
                RequestKind::Stats,
                cid@,
            )
        }),
{
    let f1 = GatewayFrame::Stats { end_of_batch: BooleanType::F, stats: stats1, correlation_id: cid };
    let s1 = gateway_routed(s, f1).0;
    assert(s1.stats.remove(cid@) =~= s.stats.remove(cid@));
}

/// A bulk response completes the bulk request waiting on its correlation id with all the
/// operation results it carries, in order, reporting the correlation id as the request id.
pub proof fn lemma_gateway_bulk_completes(s: GatewayState, ops: Vec<DecodedOp>, cid: String)
    requires
        s.bulk.contains(cid@),
    ensures
        ({
            let f = GatewayFrame::BulkResponse { operations: ops, correlation_id: cid };
            &&& gateway_routed(s, f).1 == seq![
                GatewayDelivered::Bulk(cid@, cid@, decoded_op_views(ops@)),
            ]
            &&& !gateway_routed(s, f).0.bulk.contains(cid@)
        }),
{
}

/// A subscription acknowledgement releases the subscriber waiting on it, once.
pub proof fn lemma_gateway_ack_releases(s: GatewayState, cid: String)
    requires
        s.sub_acks.contains(cid@),
    ensures
        ({
            let f = GatewayFrame::SubscribeAck { correlation_id: cid };
            &&& gateway_routed(s, f).1 == seq![GatewayDelivered::Subscribed(cid@)]
            &&& gateway_routed(gateway_routed(s, f).0, f).1 == Seq::<GatewayDelivered>::empty()
        }),
{
}

/// An error frame fails the command waiting on its correlation id, with the text
/// `gateway error [STATUS]: MESSAGE` built from the frame's status and message.
pub proof fn lemma_gateway_error_fails_command(
    s: GatewayState,
    status: OperationStatus,
    cid: String,
    message: String,
)
    requires
        s.commands.contains(cid@),
    ensures
        ({
            let f = GatewayFrame::Error { status, correlation_id: cid, message };
            &&& gateway_routed(s, f).1 == seq![
                GatewayDelivered::Failed(
                    RequestKind::Command,
                    cid@,
                    "gateway error ["@ + spec_status_name(status) + "]: "@ + message@,
                ),
            ]
            &&& !gateway_routed(s, f).0.commands.contains(cid@)
        }),
{
}

/// A stream update reaches a cache's listener with the frame's own fields: its cache id, the
/// name of its event type, its key and value (present when not empty) and its correlation id;
/// a counter listener of the cache gets the value read as an integer. No pending request
/// changes.
pub proof fn lemma_gateway_stream_update_fields(
    s: GatewayState,
    event_type: UpdateEventType,
    cache_id: String,
    key: String,
    value: String,
    cid: String,
    cache_listener: u64,
    counter_listener: u64,
)
    requires
        s.cache_listeners == seq![(cache_id@, cache_listener)],
        s.counter_listeners == seq![(cache_id@, counter_listener)],
        key@.len() > 0,
        value@.len() > 0,
    ensures
        ({
            let f = GatewayFrame::StreamUpdate {
                event_type,
                cache_id,
                key,
                value,
                correlation_id: cid,
            };
            &&& gateway_routed(s, f).1 == seq![
                GatewayDelivered::CacheEvent(
                    cache_listener,
                    (cache_id@, spec_event_type_name(event_type), Some(key@), Some(value@), cid@),
                ),
                GatewayDelivered::CounterEvent(
                    counter_listener,
                    (cache_id@, spec_event_type_name(event_type), Some(key@), parse_i64_spec(value@), cid@),
                ),
            ]
            &&& gateway_routed(s, f).0 == s
        }),
{
    let ls = s.cache_listeners;
    assert(ls.drop_last() =~= Seq::<(Seq<char>, u64)>::empty());
    let ks = s.counter_listeners;
    assert(ks.drop_last() =~= Seq::<(Seq<char>, u64)>::empty());
    assert(non_empty(key@) == Some(key@));
    assert(non_empty(value@) == Some(value@));
    let ce = (cache_id@, spec_event_type_name(event_type), Some(key@), Some(value@), cid@);
    let ke = (cache_id@, spec_event_type_name(event_type), Some(key@), parse_i64_spec(value@), cid@);
    assert(gateway_cache_deliveries(ls.drop_last(), cache_id@, ce) == Seq::<GatewayDelivered>::empty());
    assert(gateway_counter_deliveries(ks.drop_last(), cache_id@, ke) == Seq::<GatewayDelivered>::empty());
    assert(gateway_cache_deliveries(ls, cache_id@, ce) == seq![GatewayDelivered::CacheEvent(cache_listener, ce)]);
    assert(gateway_counter_deliveries(ks, cache_id@, ke) == seq![GatewayDelivered::CounterEvent(counter_listener, ke)]);
    assert(Seq::<GatewayDelivered>::empty().push(
        GatewayDelivered::CacheEvent(
            cache_listener,
            (cache_id@, spec_event_type_name(event_type), Some(key@), Some(value@), cid@),
        ),
    ) + Seq::<GatewayDelivered>::empty().push(
        GatewayDelivered::CounterEvent(
            counter_listener,
            (cache_id@, spec_event_type_name(event_type), Some(key@), parse_i64_spec(value@), cid@),
        ),
    ) =~= seq![
        GatewayDelivered::CacheEvent(
            cache_listener,
            (cache_id@, spec_event_type_name(event_type), Some(key@), Some(value@), cid@),
        ),
        GatewayDelivered::CounterEvent(
            counter_listener,
            (cache_id@, spec_event_type_name(event_type), Some(key@), parse_i64_spec(value@), cid@),
        ),
    ]);
}

/// A command response completes the command waiting on its correlation id exactly once.
pub proof fn lemma_gateway_reply_once(s: GatewayState, f: GatewayFrame)
    requires
        f is CommandResponse,
        s.commands.contains(f->CommandResponse_correlation_id@),
    ensures
        gateway_routed(s, f).1.len() == 1,
        gateway_routed(gateway_routed(s, f).0, f).1 == Seq::<GatewayDelivered>::empty(),
{
}

/// A stream update changes no pending request.
pub proof fn lemma_gateway_stream_keeps_pending(s: GatewayState, f: GatewayFrame)
    requires
        f is StreamUpdate,
    ensures
        gateway_routed(s, f).0 == s,
{
}

/// After the listeners of a cache are removed, no cache update for that cache reaches any
/// listener.
pub proof fn lemma_gateway_removed_cache_silent(
    ls: Seq<(Seq<char>, u64)>,
    cache_id: Seq<char>,
    ev: (Seq<char>, Seq<char>, Option<Seq<char>>, Option<Seq<char>>, Seq<char>),
)
    ensures
        gateway_cache_deliveries(without_cache(ls, cache_id), cache_id, ev) == Seq::<
            GatewayDelivered,
        >::empty(),
    decreases ls.len(),
{
    if ls.len() > 0 {
        lemma_gateway_removed_cache_silent(ls.drop_last(), cache_id, ev);
        let w = without_cache(ls, cache_id);
        if ls.last().0 != cache_id {
            assert(w.drop_last() =~= without_cache(ls.drop_last(), cache_id));
        }
    }
}

} // verus!
