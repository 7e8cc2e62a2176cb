//! The decisions of the Aeron gateway transport: which command frame each operation sends, how
//! the HTTP-model enumerations map onto the wire enumerations, and how a decoded command response
//! becomes the typed reply of each operation.

pub mod msg;
pub mod router;

use vstd::prelude::*;
use crate::messages::{BooleanType, BulkOperationType as WireBulkOp, OperationStatus, SubscriptionMode, UpdateEventType};
use crate::model::{
    BulkOperationType, CacheOperationRequest, CounterResponse, CreateResponse, DeleteCacheResponse, DeleteItemResponse,
    GetItemResponse, PutItemResponse,
};
use crate::text::{chars_of, parse_i64, parse_i64_spec};

verus! {

/// Default gateway request endpoint port.
pub const DEFAULT_REQUEST_PORT: u16 = 7075;

/// Default gateway response control endpoint port.
pub const DEFAULT_RESPONSE_CONTROL_PORT: u16 = 7076;

/// Default gateway request stream id.
pub const DEFAULT_REQUEST_STREAM_ID: i32 = 100;

/// Default gateway response stream id.
pub const DEFAULT_RESPONSE_STREAM_ID: i32 = 101;

/// The fields of a gateway command frame, apart from its correlation id.
#[derive(Clone, Debug)]
pub struct GatewayCommand {
    pub msg_type: u16,
    pub ttl: i64,
    pub counter_value: i64,
    pub cache_id: String,
    pub key: String,
    pub value: String,
}

/// A decoded command response: its status name and entry fields.
#[derive(Clone, Debug)]
pub struct CommandResponse {
    pub status: String,
    pub cache_id: String,
    pub key: String,
    pub value: String,
}

/// A gateway operation that is answered by a single command response, with its arguments.
#[derive(Clone, Copy, Debug)]
pub enum GatewayCall<'a> {
    CreateCache { cache_id: &'a str },
    PutItem { cache_id: &'a str, key: &'a str, value: &'a str },
    PutTimedItem { cache_id: &'a str, key: &'a str, value: &'a str, ttl: i64 },
    GetItem { cache_id: &'a str, key: &'a str },
    DeleteItem { cache_id: &'a str, key: &'a str },
    PatchItem { cache_id: &'a str, key: &'a str, value: &'a str },
    CancelItemRemoval { cache_id: &'a str, key: &'a str },
    DeleteCache { cache_id: &'a str },
    ClearCache { cache_id: &'a str },
    CreateCounterCache { cache_id: &'a str },
    PutCounter { cache_id: &'a str, key: &'a str, value: i64 },
    PutTimedCounter { cache_id: &'a str, key: &'a str, value: i64, ttl: i64 },
    GetCounter { cache_id: &'a str, key: &'a str },
    DeleteCounter { cache_id: &'a str, key: &'a str },
    CancelCounterItemRemoval { cache_id: &'a str, key: &'a str },
    DeleteCounterCache { cache_id: &'a str },
    IncrementCounter { cache_id: &'a str, key: &'a str, amount: i64 },
    DecrementCounter { cache_id: &'a str, key: &'a str, amount: i64 },
    SetCounter { cache_id: &'a str, key: &'a str, value: i64 },
}

/// The command frame fields as plain values: message type, ttl, counter value, cache id, key and
/// value.
pub open spec fn command_fields(c: GatewayCommand) -> (u16, i64, i64, Seq<char>, Seq<char>, Seq<char>) {
    (c.msg_type, c.ttl, c.counter_value, c.cache_id@, c.key@, c.value@)
}

impl<'a> GatewayCall<'a> {
    /// The command frame fields that this operation sends (see [`command_fields`]).
    pub open spec fn spec_fields(self) -> (u16, i64, i64, Seq<char>, Seq<char>, Seq<char>) {
        let e = Seq::<char>::empty();
        match self {
            GatewayCall::CreateCache { cache_id } => (msg::CREATE_CACHE, 0, 0, cache_id@, e, e),
            GatewayCall::PutItem { cache_id, key, value } => (
                msg::ADD_CACHE_ENTRY,
                0,
                0,
                cache_id@,
                key@,
                value@,
            ),
            GatewayCall::PutTimedItem { cache_id, key, value, ttl } => (
                msg::ADD_CACHE_ENTRY,
                ttl,
                0,
                cache_id@,
                key@,
                value@,
            ),
            GatewayCall::GetItem { cache_id, key } => (msg::GET_CACHE_ENTRY, 0, 0, cache_id@, key@, e),
            GatewayCall::DeleteItem { cache_id, key } => (
                msg::REMOVE_CACHE_ENTRY,
                0,
                0,
                cache_id@,
                key@,
                e,
            ),
            GatewayCall::PatchItem { cache_id, key, value } => (
                msg::PATCH_CACHE_ENTRY,
                0,
                0,
                cache_id@,
                key@,
                value@,
            ),
            GatewayCall::CancelItemRemoval { cache_id, key } => (
                msg::CANCEL_CACHE_ITEM_REMOVAL,
                0,
                0,
                cache_id@,
                key@,
                e,
            ),
            GatewayCall::DeleteCache { cache_id } => (msg::DELETE_CACHE, 0, 0, cache_id@, e, e),
            GatewayCall::ClearCache { cache_id } => (msg::CLEAR_CACHE, 0, 0, cache_id@, e, e),
            GatewayCall::CreateCounterCache { cache_id } => (
                msg::CREATE_COUNTER_CACHE,
                0,
                0,
                cache_id@,
                e,
                e,
            ),
            GatewayCall::PutCounter { cache_id, key, value } => (
                msg::ADD_COUNTER_ENTRY,
                0,
                value,
                cache_id@,
                key@,
                e,
            ),
            GatewayCall::PutTimedCounter { cache_id, key, value, ttl } => (
                msg::ADD_COUNTER_ENTRY,
                ttl,
                value,
                cache_id@,
                key@,
                e,
            ),
            GatewayCall::GetCounter { cache_id, key } => (
                msg::GET_COUNTER_ENTRY,
                0,
                0,
                cache_id@,
                key@,
                e,
            ),
            GatewayCall::DeleteCounter { cache_id, key } => (
                msg::REMOVE_COUNTER_ENTRY,
                0,
                0,
                cache_id@,
                key@,
                e,
            ),
            GatewayCall::CancelCounterItemRemoval { cache_id, key } => (
                msg::CANCEL_COUNTER_ITEM_REMOVAL,
                0,
                0,
                cache_id@,
                key@,
                e,
            ),
            GatewayCall::DeleteCounterCache { cache_id } => (
                msg::DELETE_COUNTER_CACHE,
                0,
                0,
                cache_id@,
                e,
                e,
            ),
            GatewayCall::IncrementCounter { cache_id, key, amount } => (
                msg::INCREMENT_COUNTER_ENTRY,
                0,
                amount,
                cache_id@,
                key@,
                e,
            ),
            GatewayCall::DecrementCounter { cache_id, key, amount } => (
                msg::DECREMENT_COUNTER_ENTRY,
                0,
                amount,
                cache_id@,
                key@,
                e,
            ),
            GatewayCall::SetCounter { cache_id, key, value } => (
                msg::SET_COUNTER_ENTRY,
                0,
                value,
                cache_id@,
                key@,
                e,
            ),
        }
    }

    /// The command frame fields that this operation sends.
    pub fn command(self) -> (c: GatewayCommand)
        ensures
            command_fields(c) == self.spec_fields(),
    {
        let (msg_type, ttl, counter_value, cache_id, key, value): (u16, i64, i64, &str, &str, &str) =
            match self {
            GatewayCall::CreateCache { cache_id } => (msg::CREATE_CACHE, 0, 0, cache_id, "", ""),
            GatewayCall::PutItem { cache_id, key, value } => (
                msg::ADD_CACHE_ENTRY,
                0,
                0,
                cache_id,
                key,
                value,
            ),
            GatewayCall::PutTimedItem { cache_id, key, value, ttl } => (
                msg::ADD_CACHE_ENTRY,
                ttl,
                0,
                cache_id,
                key,
                value,
            ),
            GatewayCall::GetItem { cache_id, key } => (msg::GET_CACHE_ENTRY, 0, 0, cache_id, key, ""),
            GatewayCall::DeleteItem { cache_id, key } => (
                msg::REMOVE_CACHE_ENTRY,
                0,
                0,
                cache_id,
                key,
                "",
            ),
            GatewayCall::PatchItem { cache_id, key, value } => (
                msg::PATCH_CACHE_ENTRY,
                0,
                0,
                cache_id,
                key,
                value,
            ),
            GatewayCall::CancelItemRemoval { cache_id, key } => (
                msg::CANCEL_CACHE_ITEM_REMOVAL,
                0,
                0,
                cache_id,
                key,
                "",
            ),
            GatewayCall::DeleteCache { cache_id } => (msg::DELETE_CACHE, 0, 0, cache_id, "", ""),
            GatewayCall::ClearCache { cache_id } => (msg::CLEAR_CACHE, 0, 0, cache_id, "", ""),
            GatewayCall::CreateCounterCache { cache_id } => (
                msg::CREATE_COUNTER_CACHE,
                0,
                0,
                cache_id,
                "",
                "",
            ),
            GatewayCall::PutCounter { cache_id, key, value } => (
                msg::ADD_COUNTER_ENTRY,
                0,
                value,
                cache_id,
                key,
                "",
            ),
            GatewayCall::PutTimedCounter { cache_id, key, value, ttl } => (
                msg::ADD_COUNTER_ENTRY,
                ttl,
                value,
                cache_id,
                key,
                "",
            ),
            GatewayCall::GetCounter { cache_id, key } => (
                msg::GET_COUNTER_ENTRY,
                0,
                0,
                cache_id,
                key,
                "",
            ),
            GatewayCall::DeleteCounter { cache_id, key } => (
                msg::REMOVE_COUNTER_ENTRY,
                0,
                0,
                cache_id,
                key,
                "",
            ),
            GatewayCall::CancelCounterItemRemoval { cache_id, key } => (
                msg::CANCEL_COUNTER_ITEM_REMOVAL,
                0,
                0,
                cache_id,
                key,
                "",
            ),
            GatewayCall::DeleteCounterCache { cache_id } => (
                msg::DELETE_COUNTER_CACHE,
                0,
                0,
                cache_id,
                "",
                "",
            ),
            GatewayCall::IncrementCounter { cache_id, key, amount } => (
                msg::INCREMENT_COUNTER_ENTRY,
                0,
                amount,
                cache_id,
                key,
                "",
            ),
            GatewayCall::DecrementCounter { cache_id, key, amount } => (
                msg::DECREMENT_COUNTER_ENTRY,
                0,
                amount,
                cache_id,
                key,
                "",
            ),
            GatewayCall::SetCounter { cache_id, key, value } => (
                msg::SET_COUNTER_ENTRY,
                0,
                value,
                cache_id,
                key,
                "",
            ),
        };
        let c = GatewayCommand {
            msg_type,
            ttl,
            counter_value,
            cache_id: cache_id.to_owned(),
            key: key.to_owned(),
            value: value.to_owned(),
        };
        proof {
            reveal_strlit("");
            assert(""@ =~= Seq::<char>::empty());
        }
        c
    }
}

/// The wire enumeration value of an HTTP-model bulk operation type, mapped by name (the wire
/// enumeration orders its variants differently).
pub open spec fn spec_map_bulk_op(t: BulkOperationType) -> WireBulkOp {
    match t {
        BulkOperationType::NoOp => WireBulkOp::NONE,
        BulkOperationType::CreateCache => WireBulkOp::CREATE_CACHE,
        BulkOperationType::AddItem => WireBulkOp::ADD_ITEM,
        BulkOperationType::RemoveItem => WireBulkOp::REMOVE_ITEM,
        BulkOperationType::ClearCache => WireBulkOp::CLEAR_CACHE,
        BulkOperationType::GetItem => WireBulkOp::GET_ITEM,
        BulkOperationType::DeleteCache => WireBulkOp::DELETE_CACHE,
        BulkOperationType::PatchItem => WireBulkOp::PATCH_ITEM,
        BulkOperationType::CreateCounterCache => WireBulkOp::CREATE_COUNTER_CACHE,
        BulkOperationType::AddCounter => WireBulkOp::ADD_COUNTER,
        BulkOperationType::RemoveCounter => WireBulkOp::REMOVE_COUNTER,
        BulkOperationType::ClearCounterCache => WireBulkOp::CLEAR_COUNTER_CACHE,
        BulkOperationType::GetCounter => WireBulkOp::GET_COUNTER,
        BulkOperationType::DeleteCounterCache => WireBulkOp::DELETE_COUNTER_CACHE,
        BulkOperationType::IncrementCounter => WireBulkOp::INCREMENT_COUNTER,
        BulkOperationType::DecrementCounter => WireBulkOp::DECREMENT_COUNTER,
        BulkOperationType::SetCounter => WireBulkOp::SET_COUNTER,
        BulkOperationType::CancelItem => WireBulkOp::CANCEL_ITEM,
        BulkOperationType::CancelCounter => WireBulkOp::CANCEL_COUNTER,
    }
}

/// Maps an HTTP-model bulk operation type onto the wire enumeration by name.
pub fn map_bulk_op(t: &BulkOperationType) -> (r: WireBulkOp)
    ensures
        r == spec_map_bulk_op(*t),
{
    match t {
        BulkOperationType::NoOp => WireBulkOp::NONE,
        BulkOperationType::CreateCache => WireBulkOp::CREATE_CACHE,
        BulkOperationType::AddItem => WireBulkOp::ADD_ITEM,
        BulkOperationType::RemoveItem => WireBulkOp::REMOVE_ITEM,
        BulkOperationType::ClearCache => WireBulkOp::CLEAR_CACHE,
        BulkOperationType::GetItem => WireBulkOp::GET_ITEM,
        BulkOperationType::DeleteCache => WireBulkOp::DELETE_CACHE,
        BulkOperationType::PatchItem => WireBulkOp::PATCH_ITEM,
        BulkOperationType::CreateCounterCache => WireBulkOp::CREATE_COUNTER_CACHE,
        BulkOperationType::AddCounter => WireBulkOp::ADD_COUNTER,
        BulkOperationType::RemoveCounter => WireBulkOp::REMOVE_COUNTER,
        BulkOperationType::ClearCounterCache => WireBulkOp::CLEAR_COUNTER_CACHE,
        BulkOperationType::GetCounter => WireBulkOp::GET_COUNTER,
        BulkOperationType::DeleteCounterCache => WireBulkOp::DELETE_COUNTER_CACHE,
        BulkOperationType::IncrementCounter => WireBulkOp::INCREMENT_COUNTER,
        BulkOperationType::DecrementCounter => WireBulkOp::DECREMENT_COUNTER,
        BulkOperationType::SetCounter => WireBulkOp::SET_COUNTER,
        BulkOperationType::CancelItem => WireBulkOp::CANCEL_ITEM,
        BulkOperationType::CancelCounter => WireBulkOp::CANCEL_COUNTER,
    }
}

/// Each gateway operation sends the server's message type of that operation (the request
/// message types of the gateway protocol: cache operations 1 to 13, counter operations 101 to
/// 114), with its own arguments in their fields: a ttl only for timed puts, the counter value for
/// counter puts, increments, decrements and sets (the amount as given), and empty text for the
/// fields an operation does not use.
pub proof fn lemma_gateway_command_fields<'a>(c: &'a str, k: &'a str, v: &'a str, t: i64, n: i64)
    ensures
        ({
            let e = Seq::<char>::empty();
            &&& GatewayCall::CreateCache { cache_id: c }.spec_fields() == (1u16, 0i64, 0i64, c@, e, e)
            &&& GatewayCall::PutItem { cache_id: c, key: k, value: v }.spec_fields() == (2u16, 0i64, 0i64, c@, k@, v@)
            &&& GatewayCall::PutTimedItem { cache_id: c, key: k, value: v, ttl: t }.spec_fields() == (2u16, t, 0i64, c@, k@, v@)
            &&& GatewayCall::GetItem { cache_id: c, key: k }.spec_fields() == (3u16, 0i64, 0i64, c@, k@, e)
            &&& GatewayCall::DeleteItem { cache_id: c, key: k }.spec_fields() == (10u16, 0i64, 0i64, c@, k@, e)
            &&& GatewayCall::PatchItem { cache_id: c, key: k, value: v }.spec_fields() == (12u16, 0i64, 0i64, c@, k@, v@)
            &&& GatewayCall::CancelItemRemoval { cache_id: c, key: k }.spec_fields() == (13u16, 0i64, 0i64, c@, k@, e)
            &&& GatewayCall::DeleteCache { cache_id: c }.spec_fields() == (5u16, 0i64, 0i64, c@, e, e)
            &&& GatewayCall::ClearCache { cache_id: c }.spec_fields() == (4u16, 0i64, 0i64, c@, e, e)
            &&& GatewayCall::CreateCounterCache { cache_id: c }.spec_fields() == (101u16, 0i64, 0i64, c@, e, e)
            &&& GatewayCall::PutCounter { cache_id: c, key: k, value: n }.spec_fields() == (102u16, 0i64, n, c@, k@, e)
            &&& GatewayCall::PutTimedCounter { cache_id: c, key: k, value: n, ttl: t }.spec_fields() == (102u16, t, n, c@, k@, e)
            &&& GatewayCall::GetCounter { cache_id: c, key: k }.spec_fields() == (103u16, 0i64, 0i64, c@, k@, e)
            &&& GatewayCall::DeleteCounter { cache_id: c, key: k }.spec_fields() == (110u16, 0i64, 0i64, c@, k@, e)
            &&& GatewayCall::CancelCounterItemRemoval { cache_id: c, key: k }.spec_fields() == (114u16, 0i64, 0i64, c@, k@, e)
            &&& GatewayCall::DeleteCounterCache { cache_id: c }.spec_fields() == (105u16, 0i64, 0i64, c@, e, e)
            &&& GatewayCall::IncrementCounter { cache_id: c, key: k, amount: n }.spec_fields() == (111u16, 0i64, n, c@, k@, e)
            &&& GatewayCall::DecrementCounter { cache_id: c, key: k, amount: n }.spec_fields() == (112u16, 0i64, n, c@, k@, e)
            &&& GatewayCall::SetCounter { cache_id: c, key: k, value: n }.spec_fields() == (113u16, 0i64, n, c@, k@, e)
        }),
{
}

/// The batched requests use their own message types: 6 for a cache's entries, 9 for stats.
pub proof fn lemma_gateway_batch_message_types()
    ensures
        msg::GET_CACHE_ENTRIES == 6u16,
        msg::GET_CACHE_STATS == 9u16,
{
}

/// Bulk operations are mapped onto the wire by name, not by position: each HTTP-model operation
/// goes out as the wire code of the wire operation of the same name.
pub proof fn lemma_map_bulk_op_codes()
    ensures
        spec_map_bulk_op(BulkOperationType::NoOp).spec_code() == 0u8,
        spec_map_bulk_op(BulkOperationType::CreateCache).spec_code() == 1u8,
        spec_map_bulk_op(BulkOperationType::AddItem).spec_code() == 2u8,
        spec_map_bulk_op(BulkOperationType::RemoveItem).spec_code() == 3u8,
        spec_map_bulk_op(BulkOperationType::ClearCache).spec_code() == 4u8,
        spec_map_bulk_op(BulkOperationType::GetItem).spec_code() == 5u8,
        spec_map_bulk_op(BulkOperationType::DeleteCache).spec_code() == 6u8,
        spec_map_bulk_op(BulkOperationType::PatchItem).spec_code() == 7u8,
        spec_map_bulk_op(BulkOperationType::CreateCounterCache).spec_code() == 8u8,
        spec_map_bulk_op(BulkOperationType::AddCounter).spec_code() == 9u8,
        spec_map_bulk_op(BulkOperationType::RemoveCounter).spec_code() == 10u8,
        spec_map_bulk_op(BulkOperationType::ClearCounterCache).spec_code() == 11u8,
        spec_map_bulk_op(BulkOperationType::GetCounter).spec_code() == 12u8,
        spec_map_bulk_op(BulkOperationType::DeleteCounterCache).spec_code() == 13u8,
        spec_map_bulk_op(BulkOperationType::IncrementCounter).spec_code() == 14u8,
        spec_map_bulk_op(BulkOperationType::DecrementCounter).spec_code() == 15u8,
        spec_map_bulk_op(BulkOperationType::SetCounter).spec_code() == 16u8,
        spec_map_bulk_op(BulkOperationType::CancelItem).spec_code() == 17u8,
        spec_map_bulk_op(BulkOperationType::CancelCounter).spec_code() == 18u8,
{
}

/// A status is reported by the name its variant is spelled with.
pub proof fn lemma_status_names()
    ensures
        spec_status_name(OperationStatus::NONE) == "NONE"@,
        spec_status_name(OperationStatus::SUCCESS) == "SUCCESS"@,
        spec_status_name(OperationStatus::ERROR) == "ERROR"@,
        spec_status_name(OperationStatus::UNKNOWN_CACHE) == "UNKNOWN_CACHE"@,
        spec_status_name(OperationStatus::UNKNOWN_KEY) == "UNKNOWN_KEY"@,
        spec_status_name(OperationStatus::CACHE_EXISTS) == "CACHE_EXISTS"@,
        spec_status_name(OperationStatus::DUPLICATE_SUBSCRIPTION) == "DUPLICATE_SUBSCRIPTION"@,
        spec_status_name(OperationStatus::UNKNOWN_SUBSCRIPTION) == "UNKNOWN_SUBSCRIPTION"@,
        spec_status_name(OperationStatus::NullVal) == "NullVal"@,
{
}

/// An update event type is reported by the name its variant is spelled with.
pub proof fn lemma_event_type_names()
    ensures
        spec_event_type_name(UpdateEventType::ADD_ITEM) == "ADD_ITEM"@,
        spec_event_type_name(UpdateEventType::REMOVE_ITEM) == "REMOVE_ITEM"@,
        spec_event_type_name(UpdateEventType::CLEAR_CACHE) == "CLEAR_CACHE"@,
        spec_event_type_name(UpdateEventType::DELETE_CACHE) == "DELETE_CACHE"@,
        spec_event_type_name(UpdateEventType::PATCH_ITEM) == "PATCH_ITEM"@,
        spec_event_type_name(UpdateEventType::NullVal) == "NullVal"@,
{
}

/// Without a mode a subscription streams full values; the mode name `patch` selects patch mode
/// whatever its ASCII case, and other names (such as `full` or `patches`) select full values.
pub proof fn lemma_map_mode_names()
    ensures
        spec_map_mode(None) == SubscriptionMode::FULL,
        spec_map_mode(Some("patch"@)) == SubscriptionMode::PATCH,
        spec_map_mode(Some("PATCH"@)) == SubscriptionMode::PATCH,
        spec_map_mode(Some("Patch"@)) == SubscriptionMode::PATCH,
        spec_map_mode(Some("full"@)) == SubscriptionMode::FULL,
        spec_map_mode(Some("patches"@)) == SubscriptionMode::FULL,
{
    reveal_strlit("patch");
    reveal_strlit("PATCH");
    reveal_strlit("Patch");
    reveal_strlit("full");
    reveal_strlit("patches");
    assert(eq_ignore_ascii_case("patch"@, seq!['p', 'a', 't', 'c', 'h']));
    assert(eq_ignore_ascii_case("PATCH"@, seq!['p', 'a', 't', 'c', 'h']));
    assert(eq_ignore_ascii_case("Patch"@, seq!['p', 'a', 't', 'c', 'h']));
    assert(!eq_ignore_ascii_case("full"@, seq!['p', 'a', 't', 'c', 'h']));
}

/// Distinct bulk operation types map to distinct wire values, none of them the null value.
pub proof fn lemma_map_bulk_op_injective(a: BulkOperationType, b: BulkOperationType)
    ensures
        spec_map_bulk_op(a) != WireBulkOp::NullVal,
        spec_map_bulk_op(a) == spec_map_bulk_op(b) ==> a == b,
{
}

/// The ASCII lowercase of `c`.
pub open spec fn ascii_lower(c: char) -> char {
    if 'A' <= c && c <= 'Z' {
        ((c as u32) + 32) as char
    } else {
        c
    }
}

/// `a` and `b` are equal ignoring ASCII case (as `str::eq_ignore_ascii_case`).
pub open spec fn eq_ignore_ascii_case(a: Seq<char>, b: Seq<char>) -> bool {
    a.len() == b.len() && forall|i: int| 0 <= i < a.len() ==> ascii_lower(#[trigger] a[i]) == ascii_lower(b[i])
}

fn lower_char(c: char) -> (r: char)
    ensures
        r == ascii_lower(c),
{
    if 'A' <= c && c <= 'Z' {
        let b = c as u8;
        assert(b as u32 == c as u32);
        (b + 32) as char
    } else {
        c
    }
}

/// Whether `s` spells `patch`, ignoring ASCII case.
fn is_patch_word(s: &str) -> (r: bool)
    ensures
        r == eq_ignore_ascii_case(s@, seq!['p', 'a', 't', 'c', 'h']),
{
    let cs = chars_of(s);
    let word = vec!['p', 'a', 't', 'c', 'h'];
    assert(word@ =~= seq!['p', 'a', 't', 'c', 'h']);
    if cs.len() != 5 {
        return false;
    }
    let mut i: usize = 0;
    while i < 5
        invariant
            cs@ == s@,
            cs@.len() == 5,
            word@ == seq!['p', 'a', 't', 'c', 'h'],
            i <= 5,
            forall|j: int| 0 <= j < i ==> ascii_lower(#[trigger] cs@[j]) == ascii_lower(word@[j]),
        decreases 5 - i,
    {
        if lower_char(cs[i]) != lower_char(word[i]) {
            return false;
        }
        i = i + 1;
    }
    true
}

/// The subscription mode that an optional mode name selects: `PATCH` for `patch` in any ASCII
/// case, `FULL` otherwise.
pub open spec fn spec_map_mode(mode: Option<Seq<char>>) -> SubscriptionMode {
    match mode {
        Some(m) => if eq_ignore_ascii_case(m, seq!['p', 'a', 't', 'c', 'h']) {
            SubscriptionMode::PATCH
        } else {
            SubscriptionMode::FULL
        },
        None => SubscriptionMode::FULL,
    }
}

/// Maps an optional subscription mode name onto the wire enumeration.
pub fn map_mode(mode: Option<&str>) -> (r: SubscriptionMode)
    ensures
        r == spec_map_mode(crate::endpoints::opt_view(mode)),
{
    match mode {
        Some(m) => if is_patch_word(m) {
            SubscriptionMode::PATCH
        } else {
            SubscriptionMode::FULL
        },
        None => SubscriptionMode::FULL,
    }
}

/// The wire boolean of `v`.
pub fn map_bool(v: bool) -> (r: BooleanType)
    ensures
        r == (if v {
            BooleanType::T
        } else {
            BooleanType::F
        }),
{
    if v {
        BooleanType::T
    } else {
        BooleanType::F
    }
}

/// The name of an operation status, as its variant is spelled.
pub open spec fn spec_status_name(s: OperationStatus) -> Seq<char> {
    match s {
        OperationStatus::NONE => "NONE"@,
        OperationStatus::SUCCESS => "SUCCESS"@,
        OperationStatus::ERROR => "ERROR"@,
        OperationStatus::UNKNOWN_CACHE => "UNKNOWN_CACHE"@,
        OperationStatus::UNKNOWN_KEY => "UNKNOWN_KEY"@,
        OperationStatus::CACHE_EXISTS => "CACHE_EXISTS"@,
        OperationStatus::DUPLICATE_SUBSCRIPTION => "DUPLICATE_SUBSCRIPTION"@,
        OperationStatus::UNKNOWN_SUBSCRIPTION => "UNKNOWN_SUBSCRIPTION"@,
        OperationStatus::NullVal => "NullVal"@,
    }
}

/// Returns the name of an operation status, as its variant is spelled.
pub fn status_name(s: OperationStatus) -> (r: String)
    ensures
        r@ == spec_status_name(s),
{
    match s {
        OperationStatus::NONE => "NONE".to_owned(),
        OperationStatus::SUCCESS => "SUCCESS".to_owned(),
        OperationStatus::ERROR => "ERROR".to_owned(),
        OperationStatus::UNKNOWN_CACHE => "UNKNOWN_CACHE".to_owned(),
        OperationStatus::UNKNOWN_KEY => "UNKNOWN_KEY".to_owned(),
        OperationStatus::CACHE_EXISTS => "CACHE_EXISTS".to_owned(),
        OperationStatus::DUPLICATE_SUBSCRIPTION => "DUPLICATE_SUBSCRIPTION".to_owned(),
        OperationStatus::UNKNOWN_SUBSCRIPTION => "UNKNOWN_SUBSCRIPTION".to_owned(),
        OperationStatus::NullVal => "NullVal".to_owned(),
    }
}

/// The name of an update event type, as its variant is spelled.
pub open spec fn spec_event_type_name(e: UpdateEventType) -> Seq<char> {
    match e {
        UpdateEventType::ADD_ITEM => "ADD_ITEM"@,
        UpdateEventType::REMOVE_ITEM => "REMOVE_ITEM"@,
        UpdateEventType::CLEAR_CACHE => "CLEAR_CACHE"@,
        UpdateEventType::DELETE_CACHE => "DELETE_CACHE"@,
        UpdateEventType::PATCH_ITEM => "PATCH_ITEM"@,
        UpdateEventType::NullVal => "NullVal"@,
    }
}

/// Returns the name of an update event type, as its variant is spelled.
pub fn event_type_name(e: UpdateEventType) -> (r: String)
    ensures
        r@ == spec_event_type_name(e),
{
    match e {
        UpdateEventType::ADD_ITEM => "ADD_ITEM".to_owned(),
        UpdateEventType::REMOVE_ITEM => "REMOVE_ITEM".to_owned(),
        UpdateEventType::CLEAR_CACHE => "CLEAR_CACHE".to_owned(),
        UpdateEventType::DELETE_CACHE => "DELETE_CACHE".to_owned(),
        UpdateEventType::PATCH_ITEM => "PATCH_ITEM".to_owned(),
        UpdateEventType::NullVal => "NullVal".to_owned(),
    }
}

/// The reply to creating a cache or counter cache.
pub fn create_response(r: &CommandResponse) -> (c: CreateResponse)
    ensures
        c.cache_id@ == r.cache_id@,
        c.operation_status@ == r.status@,
{
    CreateResponse { cache_id: r.cache_id.clone(), operation_status: r.status.clone() }
}

/// The reply to putting an item or counter: the status is reported in both status fields.
pub fn put_item_response(r: &CommandResponse) -> (p: PutItemResponse)
    ensures
        p.cache_id@ == r.cache_id@,
        p.key@ == r.key@,
        p.status@ == r.status@,
        p.operation_status@ == r.status@,
{
    PutItemResponse {
        cache_id: r.cache_id.clone(),
        key: r.key.clone(),
        status: r.status.clone(),
        operation_status: r.status.clone(),
    }
}

/// The reply to reading an item.
pub fn get_item_response(r: &CommandResponse) -> (g: GetItemResponse)
    ensures
        g.cache_id@ == r.cache_id@,
        g.key@ == r.key@,
        g.value@ == r.value@,
        g.operation_status@ == r.status@,
{
    GetItemResponse {
        cache_id: r.cache_id.clone(),
        key: r.key.clone(),
        value: r.value.clone(),
        operation_status: r.status.clone(),
    }
}

/// The reply to removing an item or counter.
pub fn delete_item_response(r: &CommandResponse) -> (d: DeleteItemResponse)
    ensures
        d.cache_id@ == r.cache_id@,
        d.key@ == r.key@,
        d.operation_status@ == r.status@,
{
    DeleteItemResponse {
        cache_id: r.cache_id.clone(),
        key: r.key.clone(),
        operation_status: r.status.clone(),
    }
}

/// The reply to deleting a cache or counter cache.
pub fn delete_cache_response(r: &CommandResponse) -> (d: DeleteCacheResponse)
    ensures
        d.cache_id@ == r.cache_id@,
        d.operation_status@ == r.status@,
{
    DeleteCacheResponse { cache_id: r.cache_id.clone(), operation_status: r.status.clone() }
}

/// The reply to reading or changing a counter: the value is the response value parsed as an
/// `i64`, or 0 when it does not parse.
pub fn counter_response(r: &CommandResponse) -> (c: CounterResponse)
    ensures
        c.cache_id@ == r.cache_id@,
        c.key@ == r.key@,
        c.value == (match parse_i64_spec(r.value@) {
            Some(v) => v,
            None => 0,
        }),
        c.operation_status@ == r.status@,
{
    let value = match parse_i64(r.value.as_str()) {
        Some(v) => v,
        None => 0,
    };
    CounterResponse {
        cache_id: r.cache_id.clone(),
        key: r.key.clone(),
        value,
        operation_status: r.status.clone(),
    }
}

/// The fields of a gateway subscribe frame with its one cache selector.
#[derive(Clone, Debug)]
pub struct GatewaySubscribe {
    pub send_snapshot: BooleanType,
    pub counters: BooleanType,
    pub mode: SubscriptionMode,
    pub cache_id: String,
    pub key: String,
}

/// The text of an optional string, empty when absent.
pub open spec fn text_or_empty(o: Option<Seq<char>>) -> Seq<char> {
    match o {
        Some(s) => s,
        None => Seq::empty(),
    }
}

/// Plans the subscribe frame of a cache (or, when `counters`, counter-cache) subscription: the
/// snapshot flag follows `hydrate`; a cache subscription selects its mode by name and sends an
/// absent key filter as empty; a counter subscription is always in full mode with no key filter.
pub fn subscribe_plan(
    cache_id: &str,
    hydrate: bool,
    counters: bool,
    mode: Option<&str>,
    key: Option<&str>,
) -> (s: GatewaySubscribe)
    ensures
        s.send_snapshot == (if hydrate {
            BooleanType::T
        } else {
            BooleanType::F
        }),
        s.counters == (if counters {
            BooleanType::T
        } else {
            BooleanType::F
        }),
        s.mode == (if counters {
            SubscriptionMode::FULL
        } else {
            spec_map_mode(crate::endpoints::opt_view(mode))
        }),
        s.cache_id@ == cache_id@,
        s.key@ == (if counters {
            Seq::empty()
        } else {
            text_or_empty(crate::endpoints::opt_view(key))
        }),
{
    let (m, k) = if counters {
        (SubscriptionMode::FULL, String::new())
    } else {
        let k = match key {
            Some(k) => k.to_owned(),
            None => String::new(),
        };
        (map_mode(mode), k)
    };
    GatewaySubscribe {
        send_snapshot: map_bool(hydrate),
        counters: map_bool(counters),
        mode: m,
        cache_id: cache_id.to_owned(),
        key: k,
    }
}

/// The fields of one operation of a gateway bulk request frame.
#[derive(Clone, Debug)]
pub struct GatewayBulkOp {
    pub operation_type: WireBulkOp,
    pub ttl: i64,
    pub counter_value: i64,
    pub request_id: String,
    pub cache_id: String,
    pub key: String,
    pub value: String,
}

/// A planned bulk operation, as plain values.
pub open spec fn bulk_op_fields(o: GatewayBulkOp) -> (WireBulkOp, i64, i64, Seq<char>, Seq<char>, Seq<char>, Seq<char>) {
    (o.operation_type, o.ttl, o.counter_value, o.request_id@, o.cache_id@, o.key@, o.value@)
}

/// The frame fields of a bulk operation: its type mapped by name, absent numbers as 0 and absent
/// texts as empty.
pub open spec fn planned_bulk_op(r: CacheOperationRequest) -> (WireBulkOp, i64, i64, Seq<char>, Seq<char>, Seq<char>, Seq<char>) {
    (
        spec_map_bulk_op(r.operation_type),
        match r.ttl {
            Some(t) => t,
            None => 0,
        },
        match r.counter_value {
            Some(c) => c,
            None => 0,
        },
        r.request_id@,
        r.cache_id@,
        text_or_empty(crate::bidi::frames::opt_string_view(r.key)),
        text_or_empty(crate::bidi::frames::opt_string_view(r.value)),
    )
}

/// A bulk operation goes out with its own fields: its type mapped by name, its ttl and counter
/// value (0 when absent), its request id and cache id, and its key and value (empty when
/// absent).
pub proof fn lemma_planned_bulk_op_fields(r: CacheOperationRequest)
    ensures
        planned_bulk_op(r).0 == spec_map_bulk_op(r.operation_type),
        r.ttl matches Some(t) ==> planned_bulk_op(r).1 == t,
        r.ttl is None ==> planned_bulk_op(r).1 == 0,
        r.counter_value matches Some(c) ==> planned_bulk_op(r).2 == c,
        r.counter_value is None ==> planned_bulk_op(r).2 == 0,
        planned_bulk_op(r).3 == r.request_id@,
        planned_bulk_op(r).4 == r.cache_id@,
        r.key matches Some(k) ==> planned_bulk_op(r).5 == k@,
        r.key is None ==> planned_bulk_op(r).5 == Seq::<char>::empty(),
        r.value matches Some(v) ==> planned_bulk_op(r).6 == v@,
        r.value is None ==> planned_bulk_op(r).6 == Seq::<char>::empty(),
{
}

/// Plans the operations of a gateway bulk request frame, in request order.
pub fn bulk_plan(ops: &Vec<CacheOperationRequest>) -> (r: Vec<GatewayBulkOp>)
    ensures
        r@.len() == ops@.len(),
        forall|i: int| 0 <= i < ops@.len() ==> bulk_op_fields(#[trigger] r@[i]) == planned_bulk_op(ops@[i]),
{
    let mut out: Vec<GatewayBulkOp> = Vec::new();
    let n = ops.len();
    let mut i: usize = 0;
    while i < n
        invariant
            n == ops@.len(),
            i <= n,
            out@.len() == i,
            forall|j: int| 0 <= j < i ==> bulk_op_fields(#[trigger] out@[j]) == planned_bulk_op(ops@[j]),
        decreases n - i,
    {
        let op = &ops[i];
        let planned = GatewayBulkOp {
            operation_type: map_bulk_op(&op.operation_type),
            ttl: match op.ttl {
                Some(t) => t,
                None => 0,
            },
            counter_value: match op.counter_value {
                Some(c) => c,
                None => 0,
            },
            request_id: op.request_id.clone(),
            cache_id: op.cache_id.clone(),
            key: match &op.key {
                Some(k) => k.clone(),
                None => String::new(),
            },
            value: match &op.value {
                Some(v) => v.clone(),
                None => String::new(),
            },
        };
        out.push(planned);
        i = i + 1;
    }
    out
}

} // verus!
