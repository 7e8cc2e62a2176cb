//! The JSON frames of the bidirectional WebSocket transport: the text of every outgoing frame,
//! and the reading of incoming frames into the library's model.

use vstd::prelude::*;
use crate::json::{
    field_of, json_get, json_wf, quoted, str_field, sv, value_int, value_text, value_to_i64,
    value_to_string, write_quoted, JsonNumber, JsonValue,
};
use crate::model::{
    BulkOperationType, CacheOperationRequest, CacheOperationResponse, CounterResponse,
    DeleteItemResponse, PutItemResponse, StatEntry, TimerInfo,
};
use crate::text::{i64_string, int_text, push_str};

verus! {

/// The JSON text of an optional string: the string literal, or `null`.
pub open spec fn opt_json_text(o: Option<Seq<char>>) -> Seq<char> {
    match o {
        Some(s) => quoted(s),
        None => "null"@,
    }
}

/// The JSON text of a boolean.
pub open spec fn bool_text(b: bool) -> Seq<char> {
    if b {
        "true"@
    } else {
        "false"@
    }
}

fn write_opt(out: &mut String, o: Option<&str>)
    ensures
        final(out)@ == old(out)@ + opt_json_text(crate::endpoints::opt_view(o)),
{
    match o {
        Some(s) => write_quoted(out, s),
        None => push_str(out, "null"),
    }
}

fn write_bool(out: &mut String, b: bool)
    ensures
        final(out)@ == old(out)@ + bool_text(b),
{
    if b {
        push_str(out, "true");
    } else {
        push_str(out, "false");
    }
}

fn write_int(out: &mut String, i: i64)
    ensures
        final(out)@ == old(out)@ + int_text(i as int),
{
    let t = i64_string(i);
    push_str(out, t.as_str());
}

/// The text of a command frame (fields in key order, as the JSON object map orders them).
pub open spec fn command_frame_text(
    correlation_id: Seq<char>,
    op: Seq<char>,
    cache_id: Option<Seq<char>>,
    key: Option<Seq<char>>,
    value: Option<Seq<char>>,
    ttl: i64,
    counter_value: i64,
) -> Seq<char> {
    "{\"cacheId\":"@ + opt_json_text(cache_id) + ",\"correlationId\":"@ + quoted(correlation_id)
        + ",\"counterValue\":"@ + int_text(counter_value as int) + ",\"key\":"@ + opt_json_text(key)
        + ",\"op\":"@ + quoted(op) + ",\"ttl\":"@ + int_text(ttl as int) + ",\"type\":\"command\",\"value\":"@
        + opt_json_text(value) + "}"@
}

/// Builds the text of a command frame.
pub fn command_frame(
    correlation_id: &str,
    op: &str,
    cache_id: Option<&str>,
    key: Option<&str>,
    value: Option<&str>,
    ttl: i64,
    counter_value: i64,
) -> (r: String)
    ensures
        r@ == command_frame_text(
            correlation_id@,
            op@,
            crate::endpoints::opt_view(cache_id),
            crate::endpoints::opt_view(key),
            crate::endpoints::opt_view(value),
            ttl,
            counter_value,
        ),
{
    let mut out = String::new();
    push_str(&mut out, "{\"cacheId\":");
    write_opt(&mut out, cache_id);
    push_str(&mut out, ",\"correlationId\":");
    write_quoted(&mut out, correlation_id);
    push_str(&mut out, ",\"counterValue\":");
    write_int(&mut out, counter_value);
    push_str(&mut out, ",\"key\":");
    write_opt(&mut out, key);
    push_str(&mut out, ",\"op\":");
    write_quoted(&mut out, op);
    push_str(&mut out, ",\"ttl\":");
    write_int(&mut out, ttl);
    push_str(&mut out, ",\"type\":\"command\",\"value\":");
    write_opt(&mut out, value);
    push_str(&mut out, "}");
    proof {
        reveal_strlit("");
    }
    assert(out@ =~= command_frame_text(
        correlation_id@,
        op@,
        crate::endpoints::opt_view(cache_id),
        crate::endpoints::opt_view(key),
        crate::endpoints::opt_view(value),
        ttl,
        counter_value,
    ));
    out
}

/// The upper case of a subscription mode name (std's `str::to_uppercase`, which follows the
/// Unicode case tables and is named here rather than restated).
pub uninterp spec fn uppercase_text(s: Seq<char>) -> Seq<char>;

/// Returns the upper case of `s` (std's `str::to_uppercase`). The claim is that the result is
/// determined by `s` alone.
#[verifier::external_body]
fn to_uppercase(s: &str) -> (r: String)
    ensures
        r@ == uppercase_text(s@),
{
    s.to_uppercase()
}

/// The text of a subscribe frame for one cache selector whose mode is already in its wire
/// spelling: the cache id, then the key filter and the mode when present.
pub open spec fn subscribe_wire_frame_text(
    correlation_id: Seq<char>,
    cache_id: Seq<char>,
    counters: bool,
    send_snapshot: bool,
    key: Option<Seq<char>>,
    wire_mode: Option<Seq<char>>,
) -> Seq<char> {
    "{\"caches\":[{\"cacheId\":"@ + quoted(cache_id) + (match key {
        Some(k) => ",\"key\":"@ + quoted(k),
        None => Seq::empty(),
    }) + (match wire_mode {
        Some(m) => ",\"mode\":"@ + quoted(m),
        None => Seq::empty(),
    }) + "}],\"correlationId\":"@ + quoted(correlation_id) + ",\"counters\":"@ + bool_text(counters)
        + ",\"sendSnapshot\":"@ + bool_text(send_snapshot) + ",\"type\":\"subscribe\"}"@
}

/// The text of a subscribe frame for one cache selector: as above, with the mode upper-cased.
pub open spec fn subscribe_frame_text(
    correlation_id: Seq<char>,
    cache_id: Seq<char>,
    counters: bool,
    send_snapshot: bool,
    key: Option<Seq<char>>,
    mode: Option<Seq<char>>,
) -> Seq<char> {
    subscribe_wire_frame_text(
        correlation_id,
        cache_id,
        counters,
        send_snapshot,
        key,
        match mode {
            Some(m) => Some(uppercase_text(m)),
            None => None,
        },
    )
}

/// Builds the text of a subscribe frame whose mode is given in its wire spelling.
pub fn subscribe_wire_frame(
    correlation_id: &str,
    cache_id: &str,
    counters: bool,
    send_snapshot: bool,
    key: Option<&str>,
    wire_mode: Option<&str>,
) -> (r: String)
    ensures
        r@ == subscribe_wire_frame_text(
            correlation_id@,
            cache_id@,
            counters,
            send_snapshot,
            crate::endpoints::opt_view(key),
            crate::endpoints::opt_view(wire_mode),
        ),
{
    let mut out = String::new();
    push_str(&mut out, "{\"caches\":[{\"cacheId\":");
    write_quoted(&mut out, cache_id);
    match key {
        Some(k) => {
            push_str(&mut out, ",\"key\":");
            write_quoted(&mut out, k);
        },
        None => {},
    }
    match wire_mode {
        Some(m) => {
            push_str(&mut out, ",\"mode\":");
            write_quoted(&mut out, m);
        },
        None => {},
    }
    push_str(&mut out, "}],\"correlationId\":");
    write_quoted(&mut out, correlation_id);
    push_str(&mut out, ",\"counters\":");
    write_bool(&mut out, counters);
    push_str(&mut out, ",\"sendSnapshot\":");
    write_bool(&mut out, send_snapshot);
    push_str(&mut out, ",\"type\":\"subscribe\"}");
    assert(out@ =~= subscribe_wire_frame_text(
        correlation_id@,
        cache_id@,
        counters,
        send_snapshot,
        crate::endpoints::opt_view(key),
        crate::endpoints::opt_view(wire_mode),
    ));
    out
}

/// Builds the text of a subscribe frame, upper-casing the mode.
pub fn subscribe_frame(
    correlation_id: &str,
    cache_id: &str,
    counters: bool,
    send_snapshot: bool,
    key: Option<&str>,
    mode: Option<&str>,
) -> (r: String)
    ensures
        r@ == subscribe_frame_text(
            correlation_id@,
            cache_id@,
            counters,
            send_snapshot,
            crate::endpoints::opt_view(key),
            crate::endpoints::opt_view(mode),
        ),
{
    match mode {
        Some(m) => {
            let up = to_uppercase(m);
            subscribe_wire_frame(correlation_id, cache_id, counters, send_snapshot, key, Some(up.as_str()))
        },
        None => subscribe_wire_frame(correlation_id, cache_id, counters, send_snapshot, key, None),
    }
}

/// The text of an unsubscribe frame.
pub open spec fn unsubscribe_frame_text(correlation_id: Seq<char>, cache_id: Seq<char>, counters: bool) -> Seq<
    char,
> {
    "{\"cacheId\":"@ + quoted(cache_id) + ",\"correlationId\":"@ + quoted(correlation_id)
        + ",\"counters\":"@ + bool_text(counters) + ",\"type\":\"unsubscribe\"}"@
}

/// Builds the text of an unsubscribe frame.
pub fn unsubscribe_frame(correlation_id: &str, cache_id: &str, counters: bool) -> (r: String)
    ensures
        r@ == unsubscribe_frame_text(correlation_id@, cache_id@, counters),
{
    let mut out = String::new();
    push_str(&mut out, "{\"cacheId\":");
    write_quoted(&mut out, cache_id);
    push_str(&mut out, ",\"correlationId\":");
    write_quoted(&mut out, correlation_id);
    push_str(&mut out, ",\"counters\":");
    write_bool(&mut out, counters);
    push_str(&mut out, ",\"type\":\"unsubscribe\"}");
    assert(out@ =~= unsubscribe_frame_text(correlation_id@, cache_id@, counters));
    out
}

/// The wire name of a bulk operation type.
pub open spec fn bulk_op_name(t: BulkOperationType) -> Seq<char> {
    match t {
        BulkOperationType::NoOp => "NONE"@,
        BulkOperationType::CreateCache => "CREATE_CACHE"@,
        BulkOperationType::AddItem => "ADD_ITEM"@,
        BulkOperationType::RemoveItem => "REMOVE_ITEM"@,
        BulkOperationType::ClearCache => "CLEAR_CACHE"@,
        BulkOperationType::GetItem => "GET_ITEM"@,
        BulkOperationType::DeleteCache => "DELETE_CACHE"@,
        BulkOperationType::PatchItem => "PATCH_ITEM"@,
        BulkOperationType::CreateCounterCache => "CREATE_COUNTER_CACHE"@,
        BulkOperationType::AddCounter => "ADD_COUNTER"@,
        BulkOperationType::RemoveCounter => "REMOVE_COUNTER"@,
        BulkOperationType::ClearCounterCache => "CLEAR_COUNTER_CACHE"@,
        BulkOperationType::GetCounter => "GET_COUNTER"@,
        BulkOperationType::DeleteCounterCache => "DELETE_COUNTER_CACHE"@,
        BulkOperationType::IncrementCounter => "INCREMENT_COUNTER"@,
        BulkOperationType::DecrementCounter => "DECREMENT_COUNTER"@,
        BulkOperationType::SetCounter => "SET_COUNTER"@,
        BulkOperationType::CancelItem => "CANCEL_ITEM"@,
        BulkOperationType::CancelCounter => "CANCEL_COUNTER"@,
    }
}

/// Returns the wire name of a bulk operation type.
pub fn bulk_op_wire_name(t: BulkOperationType) -> (r: &'static str)
    ensures
        r@ == bulk_op_name(t),
{
    match t {
        BulkOperationType::NoOp => "NONE",
        BulkOperationType::CreateCache => "CREATE_CACHE",
        BulkOperationType::AddItem => "ADD_ITEM",
        BulkOperationType::RemoveItem => "REMOVE_ITEM",
        BulkOperationType::ClearCache => "CLEAR_CACHE",
        BulkOperationType::GetItem => "GET_ITEM",
        BulkOperationType::DeleteCache => "DELETE_CACHE",
        BulkOperationType::PatchItem => "PATCH_ITEM",
        BulkOperationType::CreateCounterCache => "CREATE_COUNTER_CACHE",
        BulkOperationType::AddCounter => "ADD_COUNTER",
        BulkOperationType::RemoveCounter => "REMOVE_COUNTER",
        BulkOperationType::ClearCounterCache => "CLEAR_COUNTER_CACHE",
        BulkOperationType::GetCounter => "GET_COUNTER",
        BulkOperationType::DeleteCounterCache => "DELETE_COUNTER_CACHE",
        BulkOperationType::IncrementCounter => "INCREMENT_COUNTER",
        BulkOperationType::DecrementCounter => "DECREMENT_COUNTER",
        BulkOperationType::SetCounter => "SET_COUNTER",
        BulkOperationType::CancelItem => "CANCEL_ITEM",
        BulkOperationType::CancelCounter => "CANCEL_COUNTER",
    }
}

/// The view of an optional owned string.
pub open spec fn opt_string_view(o: Option<String>) -> Option<Seq<char>> {
    match o {
        Some(s) => Some(s@),
        None => None,
    }
}

/// The text of an optional integer field after the first field: `,"key":n`, or nothing.
pub open spec fn opt_int_part(key: Seq<char>, v: Option<i64>) -> Seq<char> {
    match v {
        Some(n) => seq![','] + quoted(key) + seq![':'] + int_text(n as int),
        None => Seq::empty(),
    }
}

/// The text of an optional string field after the first field: `,"key":"s"`, or nothing.
pub open spec fn opt_str_part(key: Seq<char>, v: Option<Seq<char>>) -> Seq<char> {
    match v {
        Some(s) => seq![','] + quoted(key) + seq![':'] + quoted(s),
        None => Seq::empty(),
    }
}

/// The JSON text of one bulk operation: its fields in key order, each optional field only when
/// present.
pub open spec fn operation_text(op: CacheOperationRequest) -> Seq<char> {
    "{\"cacheId\":"@ + quoted(op.cache_id@) + opt_int_part("counterValue"@, op.counter_value)
        + opt_str_part("key"@, opt_string_view(op.key)) + ",\"operationType\":"@ + quoted(
        bulk_op_name(op.operation_type),
    ) + ",\"requestId\":"@ + quoted(op.request_id@) + opt_int_part("ttl"@, op.ttl) + opt_str_part(
        "value"@,
        opt_string_view(op.value),
    ) + "}"@
}

fn write_key(out: &mut String, key: &str)
    ensures
        final(out)@ == old(out)@ + seq![','] + quoted(key@) + seq![':'],
{
    push_str(out, ",");
    write_quoted(out, key);
    push_str(out, ":");
    proof {
        reveal_strlit(",");
        reveal_strlit(":");
    }
}

fn write_opt_int_part(out: &mut String, key: &str, v: Option<i64>)
    ensures
        final(out)@ == old(out)@ + opt_int_part(key@, v),
{
    match v {
        Some(n) => {
            write_key(out, key);
            write_int(out, n);
        },
        None => {},
    }
}

fn write_opt_str_part(out: &mut String, key: &str, v: &Option<String>)
    ensures
        final(out)@ == old(out)@ + opt_str_part(key@, opt_string_view(*v)),
{
    match v {
        Some(s) => {
            write_key(out, key);
            write_quoted(out, s.as_str());
        },
        None => {},
    }
}

#[verifier::spinoff_prover]
#[verifier::rlimit(40)]
fn write_operation(out: &mut String, op: &CacheOperationRequest)
    ensures
        final(out)@ == old(out)@ + operation_text(*op),
{
    let ghost o = out@;
    push_str(out, "{\"cacheId\":");
    write_quoted(out, op.cache_id.as_str());
    write_opt_int_part(out, "counterValue", op.counter_value);
    write_opt_str_part(out, "key", &op.key);
    push_str(out, ",\"operationType\":");
    write_quoted(out, bulk_op_wire_name(op.operation_type));
    push_str(out, ",\"requestId\":");
    write_quoted(out, op.request_id.as_str());
    write_opt_int_part(out, "ttl", op.ttl);
    write_opt_str_part(out, "value", &op.value);
    push_str(out, "}");
    assert(out@ =~= o + operation_text(*op));
}

/// The text of the operations of a bulk request, separated by commas.
pub open spec fn operations_text(ops: Seq<CacheOperationRequest>) -> Seq<char>
    decreases ops.len(),
{
    if ops.len() == 0 {
        Seq::empty()
    } else if ops.len() == 1 {
        operation_text(ops[0])
    } else {
        operations_text(ops.drop_last()) + seq![','] + operation_text(ops.last())
    }
}

/// The text of a bulk frame.
pub open spec fn bulk_frame_text(correlation_id: Seq<char>, ops: Seq<CacheOperationRequest>) -> Seq<char> {
    "{\"correlationId\":"@ + quoted(correlation_id) + ",\"operations\":["@ + operations_text(ops)
        + "],\"type\":\"bulk\"}"@
}

/// Builds the text of a bulk frame carrying `operations`.
pub fn bulk_frame(correlation_id: &str, operations: &Vec<CacheOperationRequest>) -> (r: String)
    ensures
        r@ == bulk_frame_text(correlation_id@, operations@),
{
    let mut out = String::new();
    push_str(&mut out, "{\"correlationId\":");
    write_quoted(&mut out, correlation_id);
    push_str(&mut out, ",\"operations\":[");
    let ghost o = out@;
    let n = operations.len();
    let mut i: usize = 0;
    while i < n
        invariant
            n == operations@.len(),
            i <= n,
            out@ == o + operations_text(operations@.subrange(0, i as int)),
        decreases n - i,
    {
        if i > 0 {
            push_str(&mut out, ",");
        }
        write_operation(&mut out, &operations[i]);
        proof {
            let pre = operations@.subrange(0, i + 1);
            assert(pre.drop_last() =~= operations@.subrange(0, i as int));
            if i == 0 {
                assert(operations@.subrange(0, 0) =~= Seq::<CacheOperationRequest>::empty());
            }
            reveal_strlit(",");
            assert(out@ =~= o + operations_text(pre));
        }
        i = i + 1;
    }
    assert(operations@.subrange(0, n as int) =~= operations@);
    push_str(&mut out, "],\"type\":\"bulk\"}");
    assert(out@ =~= bulk_frame_text(correlation_id@, operations@));
    out
}

// ------------------------------------------------------------------ incoming frames

/// The value in the slot of the field `k` of a record: the field `k` of an object, or the item
/// at position `i` of an array (a record may also be written as the array of its fields, in
/// order).
pub open spec fn slot(v: JsonValue, k: Seq<char>, i: int) -> Option<JsonValue> {
    match v {
        JsonValue::Array(items) => if 0 <= i < items@.len() {
            Some(items@[i])
        } else {
            None
        },
        _ => field_of(v, k),
    }
}

/// `v` can hold a record of `n` fields: an object, or an array of at most `n` items.
pub open spec fn record_shape(v: JsonValue, n: int) -> bool {
    match v {
        JsonValue::Object(_) => true,
        JsonValue::Array(items) => items@.len() <= n,
        _ => false,
    }
}

/// The value of a required string field: present and a JSON string.
pub open spec fn req_str(v: JsonValue, k: Seq<char>, i: int) -> Option<Seq<char>> {
    match slot(v, k, i) {
        Some(JsonValue::Str(s)) => Some(s@),
        _ => None,
    }
}

/// The value of an optional string field: absent or `null` gives `Some(None)`, a string gives
/// `Some(Some(..))`, anything else fails (`None`).
pub open spec fn opt_str(v: JsonValue, k: Seq<char>, i: int) -> Option<Option<Seq<char>>> {
    match slot(v, k, i) {
        None => Some(None),
        Some(JsonValue::Null) => Some(None),
        Some(JsonValue::Str(s)) => Some(Some(s@)),
        _ => None,
    }
}

/// The value of an integer field that defaults to 0: absent gives 0, an integer number that
/// fits in `i64` gives itself, anything else fails.
pub open spec fn def_int(v: JsonValue, k: Seq<char>, i: int) -> Option<i64> {
    match slot(v, k, i) {
        None => Some(0),
        Some(JsonValue::Number(n)) => n.int_value,
        _ => None,
    }
}

/// The value of a required integer field: an integer number that fits in `i64`.
pub open spec fn req_int(v: JsonValue, k: Seq<char>, i: int) -> Option<i64> {
    match slot(v, k, i) {
        Some(JsonValue::Number(n)) => n.int_value,
        _ => None,
    }
}

fn read_slot<'a>(v: &'a JsonValue, k: &str, i: usize) -> (r: Option<&'a JsonValue>)
    requires
        json_wf(*v),
    ensures
        match r {
            Some(x) => slot(*v, k@, i as int) == Some(*x),
            None => slot(*v, k@, i as int) is None,
        },
{
    match v {
        JsonValue::Array(items) => {
            if i < items.len() {
                Some(&items[i])
            } else {
                None
            }
        },
        _ => json_get(v, k),
    }
}

/// Whether `v` can hold a record of `n` fields.
fn has_record_shape(v: &JsonValue, n: usize) -> (r: bool)
    ensures
        r == record_shape(*v, n as int),
{
    match v {
        JsonValue::Object(_) => true,
        JsonValue::Array(items) => items.len() <= n,
        _ => false,
    }
}

fn read_req_str(v: &JsonValue, k: &str, i: usize) -> (r: Option<String>)
    requires
        json_wf(*v),
    ensures
        opt_string_view(r) == req_str(*v, k@, i as int),
{
    match read_slot(v, k, i) {
        Some(JsonValue::Str(s)) => Some(s.clone()),
        _ => None,
    }
}

fn read_opt_str(v: &JsonValue, k: &str, i: usize) -> (r: Option<Option<String>>)
    requires
        json_wf(*v),
    ensures
        match r {
            Some(o) => opt_str(*v, k@, i as int) == Some(opt_string_view(o)),
            None => opt_str(*v, k@, i as int) is None,
        },
{
    match read_slot(v, k, i) {
        None => Some(None),
        Some(JsonValue::Null) => Some(None),
        Some(JsonValue::Str(s)) => Some(Some(s.clone())),
        _ => None,
    }
}

fn read_def_int(v: &JsonValue, k: &str, i: usize) -> (r: Option<i64>)
    requires
        json_wf(*v),
    ensures
        r == def_int(*v, k@, i as int),
{
    match read_slot(v, k, i) {
        None => Some(0),
        Some(JsonValue::Number(n)) => n.int_value,
        _ => None,
    }
}

fn read_req_int(v: &JsonValue, k: &str, i: usize) -> (r: Option<i64>)
    requires
        json_wf(*v),
    ensures
        r == req_int(*v, k@, i as int),
{
    match read_slot(v, k, i) {
        Some(JsonValue::Number(n)) => n.int_value,
        _ => None,
    }
}

/// The fields of a stats entry, as plain values.
pub open spec fn stat_view(e: StatEntry) -> (Seq<char>, i64, i64, i64, i64) {
    (e.cache_id@, e.added_count, e.removed_count, e.cleared_count, e.size)
}

/// The stats entry that a JSON value reads as: a record (see [`slot`]) with a string `cacheId`
/// and optional integer `addedCount`, `removedCount`, `clearedCount` and `size` (0 when absent).
pub open spec fn parse_stat(v: JsonValue) -> Option<(Seq<char>, i64, i64, i64, i64)> {
    if record_shape(v, 5) && req_str(v, "cacheId"@, 0) is Some && def_int(v, "addedCount"@, 1) is Some
        && def_int(v, "removedCount"@, 2) is Some && def_int(v, "clearedCount"@, 3) is Some
        && def_int(v, "size"@, 4) is Some {
        Some(
            (
                req_str(v, "cacheId"@, 0)->0,
                def_int(v, "addedCount"@, 1)->0,
                def_int(v, "removedCount"@, 2)->0,
                def_int(v, "clearedCount"@, 3)->0,
                def_int(v, "size"@, 4)->0,
            ),
        )
    } else {
        None
    }
}

/// Reads a stats entry from a JSON value.
pub fn stat_entry_from_json(v: &JsonValue) -> (r: Option<StatEntry>)
    requires
        json_wf(*v),
    ensures
        match r {
            Some(e) => parse_stat(*v) == Some(stat_view(e)),
            None => parse_stat(*v) is None,
        },
{
    if !has_record_shape(v, 5) {
        return None;
    }
    let cache_id = match read_req_str(v, "cacheId", 0) {
        Some(s) => s,
        None => {
            return None;
        },
    };
    let added_count = match read_def_int(v, "addedCount", 1) {
        Some(x) => x,
        None => {
            return None;
        },
    };
    let removed_count = match read_def_int(v, "removedCount", 2) {
        Some(x) => x,
        None => {
            return None;
        },
    };
    let cleared_count = match read_def_int(v, "clearedCount", 3) {
        Some(x) => x,
        None => {
            return None;
        },
    };
    let size = match read_def_int(v, "size", 4) {
        Some(x) => x,
        None => {
            return None;
        },
    };
    Some(StatEntry { cache_id, added_count, removed_count, cleared_count, size })
}

/// The fields of a timer, as plain values.
pub open spec fn timer_view(t: TimerInfo) -> (Seq<char>, Seq<char>, Seq<char>, i64) {
    (t.timer_type@, t.cache_id@, t.key@, t.deadline)
}

/// The timer that a JSON value reads as: a record (see [`slot`]) with string `timerType`,
/// `cacheId` and `key` and an integer `deadline`.
pub open spec fn parse_timer(v: JsonValue) -> Option<(Seq<char>, Seq<char>, Seq<char>, i64)> {
    if record_shape(v, 4) && req_str(v, "timerType"@, 0) is Some && req_str(v, "cacheId"@, 1) is Some
        && req_str(v, "key"@, 2) is Some && req_int(v, "deadline"@, 3) is Some {
        Some(
            (
                req_str(v, "timerType"@, 0)->0,
                req_str(v, "cacheId"@, 1)->0,
                req_str(v, "key"@, 2)->0,
                req_int(v, "deadline"@, 3)->0,
            ),
        )
    } else {
        None
    }
}

/// Reads a timer from a JSON value.
pub fn timer_from_json(v: &JsonValue) -> (r: Option<TimerInfo>)
    requires
        json_wf(*v),
    ensures
        match r {
            Some(t) => parse_timer(*v) == Some(timer_view(t)),
            None => parse_timer(*v) is None,
        },
{
    if !has_record_shape(v, 4) {
        return None;
    }
    let timer_type = match read_req_str(v, "timerType", 0) {
        Some(s) => s,
        None => {
            return None;
        },
    };
    let cache_id = match read_req_str(v, "cacheId", 1) {
        Some(s) => s,
        None => {
            return None;
        },
    };
    let key = match read_req_str(v, "key", 2) {
        Some(s) => s,
        None => {
            return None;
        },
    };
    let deadline = match read_req_int(v, "deadline", 3) {
        Some(x) => x,
        None => {
            return None;
        },
    };
    Some(TimerInfo { timer_type, cache_id, key, deadline })
}

/// The fields of a bulk operation response, as plain values.
pub open spec fn op_response_view(r: CacheOperationResponse) -> (
    Seq<char>,
    Seq<char>,
    Seq<char>,
    Option<Seq<char>>,
    Option<Seq<char>>,
) {
    (r.request_id@, r.status@, r.cache_id@, opt_string_view(r.key), opt_string_view(r.value))
}

/// The bulk operation response that a JSON value reads as: a record (see [`slot`]) with string
/// `requestId`, `status` and `cacheId`, and optional string `key` and `value`.
pub open spec fn parse_op_response(v: JsonValue) -> Option<
    (Seq<char>, Seq<char>, Seq<char>, Option<Seq<char>>, Option<Seq<char>>),
> {
    if record_shape(v, 5) && req_str(v, "requestId"@, 0) is Some && req_str(v, "status"@, 1) is Some
        && req_str(v, "cacheId"@, 2) is Some && opt_str(v, "key"@, 3) is Some && opt_str(
        v,
        "value"@,
        4,
    ) is Some {
        Some(
            (
                req_str(v, "requestId"@, 0)->0,
                req_str(v, "status"@, 1)->0,
                req_str(v, "cacheId"@, 2)->0,
                opt_str(v, "key"@, 3)->0,
                opt_str(v, "value"@, 4)->0,
            ),
        )
    } else {
        None
    }
}

/// An object whose `timerType`, `cacheId` and `key` fields are strings and whose `deadline` is an
/// integer reads as the timer with exactly those fields.
pub proof fn lemma_timer_object_fields(v: JsonValue, tt: String, cid: String, key: String, d: JsonNumber, deadline: i64)
    requires
        v is Object,
        field_of(v, "timerType"@) == Some(JsonValue::Str(tt)),
        field_of(v, "cacheId"@) == Some(JsonValue::Str(cid)),
        field_of(v, "key"@) == Some(JsonValue::Str(key)),
        field_of(v, "deadline"@) == Some(JsonValue::Number(d)),
        d.int_value == Some(deadline),
    ensures
        parse_timer(v) == Some((tt@, cid@, key@, deadline)),
{
}

/// An object whose `cacheId` is a string and whose `addedCount`, `removedCount`,
/// `clearedCount` and `size` are integers reads as the stats entry with exactly those fields.
pub proof fn lemma_stat_object_fields(
    v: JsonValue,
    cid: String,
    a: JsonNumber,
    r: JsonNumber,
    c: JsonNumber,
    z: JsonNumber,
    added: i64,
    removed: i64,
    cleared: i64,
    size: i64,
)
    requires
        v is Object,
        field_of(v, "cacheId"@) == Some(JsonValue::Str(cid)),
        field_of(v, "addedCount"@) == Some(JsonValue::Number(a)),
        field_of(v, "removedCount"@) == Some(JsonValue::Number(r)),
        field_of(v, "clearedCount"@) == Some(JsonValue::Number(c)),
        field_of(v, "size"@) == Some(JsonValue::Number(z)),
        a.int_value == Some(added),
        r.int_value == Some(removed),
        c.int_value == Some(cleared),
        z.int_value == Some(size),
    ensures
        parse_stat(v) == Some((cid@, added, removed, cleared, size)),
{
}

/// A stats entry whose counts are absent reads them as 0.
pub proof fn lemma_stat_counts_default_to_zero(v: JsonValue, cid: String)
    requires
        v is Object,
        field_of(v, "cacheId"@) == Some(JsonValue::Str(cid)),
        field_of(v, "addedCount"@) is None,
        field_of(v, "removedCount"@) is None,
        field_of(v, "clearedCount"@) is None,
        field_of(v, "size"@) is None,
    ensures
        parse_stat(v) == Some((cid@, 0i64, 0i64, 0i64, 0i64)),
{
}

/// An object whose `requestId`, `status`, `cacheId`, `key` and `value` fields are strings reads
/// as the bulk operation result with exactly those fields; an absent or `null` key or value
/// reads as none.
pub proof fn lemma_op_response_object_fields(
    v: JsonValue,
    rid: String,
    status: String,
    cid: String,
    key: String,
)
    requires
        v is Object,
        field_of(v, "requestId"@) == Some(JsonValue::Str(rid)),
        field_of(v, "status"@) == Some(JsonValue::Str(status)),
        field_of(v, "cacheId"@) == Some(JsonValue::Str(cid)),
        field_of(v, "key"@) == Some(JsonValue::Str(key)),
        field_of(v, "value"@) is None || field_of(v, "value"@) == Some(JsonValue::Null),
    ensures
        parse_op_response(v) == Some((rid@, status@, cid@, Some(key@), None::<Seq<char>>)),
{
}

/// Reads a bulk operation response from a JSON value.
pub fn op_response_from_json(v: &JsonValue) -> (r: Option<CacheOperationResponse>)
    requires
        json_wf(*v),
    ensures
        match r {
            Some(o) => parse_op_response(*v) == Some(op_response_view(o)),
            None => parse_op_response(*v) is None,
        },
{
    if !has_record_shape(v, 5) {
        return None;
    }
    let request_id = match read_req_str(v, "requestId", 0) {
        Some(s) => s,
        None => {
            return None;
        },
    };
    let status = match read_req_str(v, "status", 1) {
        Some(s) => s,
        None => {
            return None;
        },
    };
    let cache_id = match read_req_str(v, "cacheId", 2) {
        Some(s) => s,
        None => {
            return None;
        },
    };
    let key = match read_opt_str(v, "key", 3) {
        Some(o) => o,
        None => {
            return None;
        },
    };
    let value = match read_opt_str(v, "value", 4) {
        Some(o) => o,
        None => {
            return None;
        },
    };
    Some(CacheOperationResponse { request_id, status, cache_id, key, value })
}

// ------------------------------------------------------------------ command responses

/// The reply to putting an item or counter, read from a command response frame: the frame's
/// status is reported in both status fields.
pub fn put_item_response(r: &JsonValue) -> (p: PutItemResponse)
    requires
        json_wf(*r),
    ensures
        p.cache_id@ == str_field(*r, "cacheId"@),
        p.key@ == str_field(*r, "key"@),
        p.status@ == str_field(*r, "status"@),
        p.operation_status@ == str_field(*r, "status"@),
{
    let status = sv(r, "status");
    PutItemResponse {
        cache_id: sv(r, "cacheId"),
        key: sv(r, "key"),
        status: status.clone(),
        operation_status: status,
    }
}

/// The reply to removing an item or counter, read from a command response frame.
pub fn delete_item_response(r: &JsonValue) -> (d: DeleteItemResponse)
    requires
        json_wf(*r),
    ensures
        d.cache_id@ == str_field(*r, "cacheId"@),
        d.key@ == str_field(*r, "key"@),
        d.operation_status@ == str_field(*r, "status"@),
{
    DeleteItemResponse { cache_id: sv(r, "cacheId"), key: sv(r, "key"), operation_status: sv(r, "status") }
}

/// The reply to reading or changing a counter, read from a command response frame: the value
/// field read as an integer (see [`value_int`]), or 0 when the frame has none.
pub fn counter_response(r: &JsonValue) -> (c: CounterResponse)
    requires
        json_wf(*r),
    ensures
        c.cache_id@ == str_field(*r, "cacheId"@),
        c.key@ == str_field(*r, "key"@),
        c.value == (match field_of(*r, "value"@) {
            Some(v) => value_int(v),
            None => 0,
        }),
        c.operation_status@ == str_field(*r, "status"@),
{
    let value = match json_get(r, "value") {
        Some(v) => value_to_i64(v),
        None => 0,
    };
    CounterResponse {
        cache_id: sv(r, "cacheId"),
        key: sv(r, "key"),
        value,
        operation_status: sv(r, "status"),
    }
}

/// The text of an entries item value, as a cache item stores it (see [`value_text`]).
pub fn item_value_text(v: &JsonValue) -> (r: String)
    ensures
        r@ == value_text(*v),
{
    value_to_string(v)
}

} // verus!
