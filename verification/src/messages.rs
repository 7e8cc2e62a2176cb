//! Enumerations of the gateway wire protocol. Each variant carries a one-byte wire code; a code
//! outside the enumeration decodes to the `NullVal` variant.

use vstd::prelude::*;

verus! {

/// A wire boolean.
#[allow(non_camel_case_types)]
#[derive(Clone, Copy, Debug, PartialEq, Eq, Structural, PartialOrd, Ord, Hash)]
pub enum BooleanType {
    F,
    T,
    NullVal,
}

impl BooleanType {
    /// The one-byte wire code of a variant.
    pub open spec fn spec_code(self) -> u8 {
        match self {
            BooleanType::F => 0x0,
            BooleanType::T => 0x1,
            BooleanType::NullVal => 0xff,
        }
    }

    /// The variant that a wire code decodes to.
    pub open spec fn spec_decode(v: u8) -> BooleanType {
        if v == 0x0 {
            BooleanType::F
        } else if v == 0x1 {
            BooleanType::T
        } else {
            BooleanType::NullVal
        }
    }

    /// Returns the wire code of this variant.
    pub fn code(self) -> (r: u8)
        ensures
            r == self.spec_code(),
    {
        match self {
            BooleanType::F => 0x0,
            BooleanType::T => 0x1,
            BooleanType::NullVal => 0xff,
        }
    }
}

impl Default for BooleanType {
    fn default() -> (r: Self)
        ensures
            r == BooleanType::NullVal,
    {
        BooleanType::NullVal
    }
}

impl From<u8> for BooleanType {
    fn from(v: u8) -> (r: Self) {
        if v == 0x0 {
            BooleanType::F
        } else if v == 0x1 {
            BooleanType::T
        } else {
            BooleanType::NullVal
        }
    }
}

impl vstd::std_specs::convert::FromSpecImpl<u8> for BooleanType {
    open spec fn obeys_from_spec() -> bool {
        true
    }

    open spec fn from_spec(v: u8) -> Self {
        BooleanType::spec_decode(v)
    }
}

/// Decoding the wire code of any variant gives that variant back.
pub proof fn lemma_boolean_type_decode_code(x: BooleanType)
    ensures
        BooleanType::spec_decode(x.spec_code()) == x,
{
}

/// Every code that decodes to a variant other than `NullVal` is that variant's own code.
pub proof fn lemma_boolean_type_code_decode(v: u8)
    requires
        BooleanType::spec_decode(v) != BooleanType::NullVal,
    ensures
        BooleanType::spec_decode(v).spec_code() == v,
{
}

/// The kind of one operation inside a bulk request, as carried on the wire.
#[allow(non_camel_case_types)]
#[derive(Clone, Copy, Debug, PartialEq, Eq, Structural, PartialOrd, Ord, Hash)]
pub enum BulkOperationType {
    NONE,
    CREATE_CACHE,
    ADD_ITEM,
    REMOVE_ITEM,
    CLEAR_CACHE,
    GET_ITEM,
    DELETE_CACHE,
    PATCH_ITEM,
    CREATE_COUNTER_CACHE,
    ADD_COUNTER,
    REMOVE_COUNTER,
    CLEAR_COUNTER_CACHE,
    GET_COUNTER,
    DELETE_COUNTER_CACHE,
    INCREMENT_COUNTER,
    DECREMENT_COUNTER,
    SET_COUNTER,
    CANCEL_ITEM,
    CANCEL_COUNTER,
    NullVal,
}

impl BulkOperationType {
    /// The one-byte wire code of a variant.
    pub open spec fn spec_code(self) -> u8 {
        match self {
            BulkOperationType::NONE => 0x0,
            BulkOperationType::CREATE_CACHE => 0x1,
            BulkOperationType::ADD_ITEM => 0x2,
            BulkOperationType::REMOVE_ITEM => 0x3,
            BulkOperationType::CLEAR_CACHE => 0x4,
            BulkOperationType::GET_ITEM => 0x5,
            BulkOperationType::DELETE_CACHE => 0x6,
            BulkOperationType::PATCH_ITEM => 0x7,
            BulkOperationType::CREATE_COUNTER_CACHE => 0x8,
            BulkOperationType::ADD_COUNTER => 0x9,
            BulkOperationType::REMOVE_COUNTER => 0xa,
            BulkOperationType::CLEAR_COUNTER_CACHE => 0xb,
            BulkOperationType::GET_COUNTER => 0xc,
            BulkOperationType::DELETE_COUNTER_CACHE => 0xd,
            BulkOperationType::INCREMENT_COUNTER => 0xe,
            BulkOperationType::DECREMENT_COUNTER => 0xf,
            BulkOperationType::SET_COUNTER => 0x10,
            BulkOperationType::CANCEL_ITEM => 0x11,
            BulkOperationType::CANCEL_COUNTER => 0x12,
            BulkOperationType::NullVal => 0xff,
        }
    }

    /// The variant that a wire code decodes to.
    pub open spec fn spec_decode(v: u8) -> BulkOperationType {
        if v == 0x0 {
            BulkOperationType::NONE
        } else if v == 0x1 {
            BulkOperationType::CREATE_CACHE
        } else if v == 0x2 {
            BulkOperationType::ADD_ITEM
        } else if v == 0x3 {
            BulkOperationType::REMOVE_ITEM
        } else if v == 0x4 {
            BulkOperationType::CLEAR_CACHE
        } else if v == 0x5 {
            BulkOperationType::GET_ITEM
        } else if v == 0x6 {
            BulkOperationType::DELETE_CACHE
        } else if v == 0x7 {
            BulkOperationType::PATCH_ITEM
        } else if v == 0x8 {
            BulkOperationType::CREATE_COUNTER_CACHE
        } else if v == 0x9 {
            BulkOperationType::ADD_COUNTER
        } else if v == 0xa {
            BulkOperationType::REMOVE_COUNTER
        } else if v == 0xb {
            BulkOperationType::CLEAR_COUNTER_CACHE
        } else if v == 0xc {
            BulkOperationType::GET_COUNTER
        } else if v == 0xd {
            BulkOperationType::DELETE_COUNTER_CACHE
        } else if v == 0xe {
            BulkOperationType::INCREMENT_COUNTER
        } else if v == 0xf {
            BulkOperationType::DECREMENT_COUNTER
        } else if v == 0x10 {
            BulkOperationType::SET_COUNTER
        } else if v == 0x11 {
            BulkOperationType::CANCEL_ITEM
        } else if v == 0x12 {
            BulkOperationType::CANCEL_COUNTER
        } else {
            BulkOperationType::NullVal
        }
    }

    /// Returns the wire code of this variant.
    pub fn code(self) -> (r: u8)
        ensures
            r == self.spec_code(),
    {
        match self {
            BulkOperationType::NONE => 0x0,
            BulkOperationType::CREATE_CACHE => 0x1,
            BulkOperationType::ADD_ITEM => 0x2,
            BulkOperationType::REMOVE_ITEM => 0x3,
            BulkOperationType::CLEAR_CACHE => 0x4,
            BulkOperationType::GET_ITEM => 0x5,
            BulkOperationType::DELETE_CACHE => 0x6,
            BulkOperationType::PATCH_ITEM => 0x7,
            BulkOperationType::CREATE_COUNTER_CACHE => 0x8,
            BulkOperationType::ADD_COUNTER => 0x9,
            BulkOperationType::REMOVE_COUNTER => 0xa,
            BulkOperationType::CLEAR_COUNTER_CACHE => 0xb,
            BulkOperationType::GET_COUNTER => 0xc,
            BulkOperationType::DELETE_COUNTER_CACHE => 0xd,
            BulkOperationType::INCREMENT_COUNTER => 0xe,
            BulkOperationType::DECREMENT_COUNTER => 0xf,
            BulkOperationType::SET_COUNTER => 0x10,
            BulkOperationType::CANCEL_ITEM => 0x11,
            BulkOperationType::CANCEL_COUNTER => 0x12,
            BulkOperationType::NullVal => 0xff,
        }
    }
}

impl Default for BulkOperationType {
    fn default() -> (r: Self)
        ensures
            r == BulkOperationType::NullVal,
    {
        BulkOperationType::NullVal
    }
}

impl From<u8> for BulkOperationType {
    fn from(v: u8) -> (r: Self) {
        if v == 0x0 {
            BulkOperationType::NONE
        } else if v == 0x1 {
            BulkOperationType::CREATE_CACHE
        } else if v == 0x2 {
            BulkOperationType::ADD_ITEM
        } else if v == 0x3 {
            BulkOperationType::REMOVE_ITEM
        } else if v == 0x4 {
            BulkOperationType::CLEAR_CACHE
        } else if v == 0x5 {
            BulkOperationType::GET_ITEM
        } else if v == 0x6 {
            BulkOperationType::DELETE_CACHE
        } else if v == 0x7 {
            BulkOperationType::PATCH_ITEM
        } else if v == 0x8 {
            BulkOperationType::CREATE_COUNTER_CACHE
        } else if v == 0x9 {
            BulkOperationType::ADD_COUNTER
        } else if v == 0xa {
            BulkOperationType::REMOVE_COUNTER
        } else if v == 0xb {
            BulkOperationType::CLEAR_COUNTER_CACHE
        } else if v == 0xc {
            BulkOperationType::GET_COUNTER
        } else if v == 0xd {
            BulkOperationType::DELETE_COUNTER_CACHE
        } else if v == 0xe {
            BulkOperationType::INCREMENT_COUNTER
        } else if v == 0xf {
            BulkOperationType::DECREMENT_COUNTER
        } else if v == 0x10 {
            BulkOperationType::SET_COUNTER
        } else if v == 0x11 {
            BulkOperationType::CANCEL_ITEM
        } else if v == 0x12 {
            BulkOperationType::CANCEL_COUNTER
        } else {
            BulkOperationType::NullVal
        }
    }
}

impl vstd::std_specs::convert::FromSpecImpl<u8> for BulkOperationType {
    open spec fn obeys_from_spec() -> bool {
        true
    }

    open spec fn from_spec(v: u8) -> Self {
        BulkOperationType::spec_decode(v)
    }
}

/// Decoding the wire code of any variant gives that variant back.
pub proof fn lemma_bulk_operation_type_decode_code(x: BulkOperationType)
    ensures
        BulkOperationType::spec_decode(x.spec_code()) == x,
{
}

/// Every code that decodes to a variant other than `NullVal` is that variant's own code.
pub proof fn lemma_bulk_operation_type_code_decode(v: u8)
    requires
        BulkOperationType::spec_decode(v) != BulkOperationType::NullVal,
    ensures
        BulkOperationType::spec_decode(v).spec_code() == v,
{
}

/// The outcome status of a gateway operation.
#[allow(non_camel_case_types)]
#[derive(Clone, Copy, Debug, PartialEq, Eq, Structural, PartialOrd, Ord, Hash)]
pub enum OperationStatus {
    NONE,
    SUCCESS,
    ERROR,
    UNKNOWN_CACHE,
    UNKNOWN_KEY,
    CACHE_EXISTS,
    DUPLICATE_SUBSCRIPTION,
    UNKNOWN_SUBSCRIPTION,
    NullVal,
}

impl OperationStatus {
    /// The one-byte wire code of a variant.
    pub open spec fn spec_code(self) -> u8 {
        match self {
            OperationStatus::NONE => 0x0,
            OperationStatus::SUCCESS => 0x1,
            OperationStatus::ERROR => 0x2,
            OperationStatus::UNKNOWN_CACHE => 0x3,
            OperationStatus::UNKNOWN_KEY => 0x4,
            OperationStatus::CACHE_EXISTS => 0x5,
            OperationStatus::DUPLICATE_SUBSCRIPTION => 0x6,
            OperationStatus::UNKNOWN_SUBSCRIPTION => 0x7,
            OperationStatus::NullVal => 0xff,
        }
    }

    /// The variant that a wire code decodes to.
    pub open spec fn spec_decode(v: u8) -> OperationStatus {
        if v == 0x0 {
            OperationStatus::NONE
        } else if v == 0x1 {
            OperationStatus::SUCCESS
        } else if v == 0x2 {
            OperationStatus::ERROR
        } else if v == 0x3 {
            OperationStatus::UNKNOWN_CACHE
        } else if v == 0x4 {
            OperationStatus::UNKNOWN_KEY
        } else if v == 0x5 {
            OperationStatus::CACHE_EXISTS
        } else if v == 0x6 {
            OperationStatus::DUPLICATE_SUBSCRIPTION
        } else if v == 0x7 {
            OperationStatus::UNKNOWN_SUBSCRIPTION
        } else {
            OperationStatus::NullVal
        }
    }

    /// Returns the wire code of this variant.
    pub fn code(self) -> (r: u8)
        ensures
            r == self.spec_code(),
    {
        match self {
            OperationStatus::NONE => 0x0,
            OperationStatus::SUCCESS => 0x1,
            OperationStatus::ERROR => 0x2,
            OperationStatus::UNKNOWN_CACHE => 0x3,
            OperationStatus::UNKNOWN_KEY => 0x4,
            OperationStatus::CACHE_EXISTS => 0x5,
            OperationStatus::DUPLICATE_SUBSCRIPTION => 0x6,
            OperationStatus::UNKNOWN_SUBSCRIPTION => 0x7,
            OperationStatus::NullVal => 0xff,
        }
    }
}

impl Default for OperationStatus {
    fn default() -> (r: Self)
        ensures
            r == OperationStatus::NullVal,
    {
        OperationStatus::NullVal
    }
}

impl From<u8> for OperationStatus {
    fn from(v: u8) -> (r: Self) {
        if v == 0x0 {
            OperationStatus::NONE
        } else if v == 0x1 {
            OperationStatus::SUCCESS
        } else if v == 0x2 {
            OperationStatus::ERROR
        } else if v == 0x3 {
            OperationStatus::UNKNOWN_CACHE
        } else if v == 0x4 {
            OperationStatus::UNKNOWN_KEY
        } else if v == 0x5 {
            OperationStatus::CACHE_EXISTS
        } else if v == 0x6 {
            OperationStatus::DUPLICATE_SUBSCRIPTION
        } else if v == 0x7 {
            OperationStatus::UNKNOWN_SUBSCRIPTION
        } else {
            OperationStatus::NullVal
        }
    }
}

impl vstd::std_specs::convert::FromSpecImpl<u8> for OperationStatus {
    open spec fn obeys_from_spec() -> bool {
        true
    }

    open spec fn from_spec(v: u8) -> Self {
        OperationStatus::spec_decode(v)
    }
}

/// Decoding the wire code of any variant gives that variant back.
pub proof fn lemma_operation_status_decode_code(x: OperationStatus)
    ensures
        OperationStatus::spec_decode(x.spec_code()) == x,
{
}

/// Every code that decodes to a variant other than `NullVal` is that variant's own code.
pub proof fn lemma_operation_status_code_decode(v: u8)
    requires
        OperationStatus::spec_decode(v) != OperationStatus::NullVal,
    ensures
        OperationStatus::spec_decode(v).spec_code() == v,
{
}

/// Whether a subscription streams full values or only changed fields.
#[allow(non_camel_case_types)]
#[derive(Clone, Copy, Debug, PartialEq, Eq, Structural, PartialOrd, Ord, Hash)]
pub enum SubscriptionMode {
    FULL,
    PATCH,
    NullVal,
}

impl SubscriptionMode {
    /// The one-byte wire code of a variant.
    pub open spec fn spec_code(self) -> u8 {
        match self {
            SubscriptionMode::FULL => 0x0,
            SubscriptionMode::PATCH => 0x1,
            SubscriptionMode::NullVal => 0xff,
        }
    }

    /// The variant that a wire code decodes to.
    pub open spec fn spec_decode(v: u8) -> SubscriptionMode {
        if v == 0x0 {
            SubscriptionMode::FULL
        } else if v == 0x1 {
            SubscriptionMode::PATCH
        } else {
            SubscriptionMode::NullVal
        }
    }

    /// Returns the wire code of this variant.
    pub fn code(self) -> (r: u8)
        ensures
            r == self.spec_code(),
    {
        match self {
            SubscriptionMode::FULL => 0x0,
            SubscriptionMode::PATCH => 0x1,
            SubscriptionMode::NullVal => 0xff,
        }
    }
}

impl Default for SubscriptionMode {
    fn default() -> (r: Self)
        ensures
            r == SubscriptionMode::NullVal,
    {
        SubscriptionMode::NullVal
    }
}

impl From<u8> for SubscriptionMode {
    fn from(v: u8) -> (r: Self) {
        if v == 0x0 {
            SubscriptionMode::FULL
        } else if v == 0x1 {
            SubscriptionMode::PATCH
        } else {
            SubscriptionMode::NullVal
        }
    }
}

impl vstd::std_specs::convert::FromSpecImpl<u8> for SubscriptionMode {
    open spec fn obeys_from_spec() -> bool {
        true
    }

    open spec fn from_spec(v: u8) -> Self {
        SubscriptionMode::spec_decode(v)
    }
}

/// Decoding the wire code of any variant gives that variant back.
pub proof fn lemma_subscription_mode_decode_code(x: SubscriptionMode)
    ensures
        SubscriptionMode::spec_decode(x.spec_code()) == x,
{
}

/// Every code that decodes to a variant other than `NullVal` is that variant's own code.
pub proof fn lemma_subscription_mode_code_decode(v: u8)
    requires
        SubscriptionMode::spec_decode(v) != SubscriptionMode::NullVal,
    ensures
        SubscriptionMode::spec_decode(v).spec_code() == v,
{
}

/// Whether a pending removal timer belongs to a cache or a counter cache.
#[allow(non_camel_case_types)]
#[derive(Clone, Copy, Debug, PartialEq, Eq, Structural, PartialOrd, Ord, Hash)]
pub enum TimerType {
    CACHE,
    COUNTER,
    NullVal,
}

impl TimerType {
    /// The one-byte wire code of a variant.
    pub open spec fn spec_code(self) -> u8 {
        match self {
            TimerType::CACHE => 0x0,
            TimerType::COUNTER => 0x1,
            TimerType::NullVal => 0xff,
        }
    }

    /// The variant that a wire code decodes to.
    pub open spec fn spec_decode(v: u8) -> TimerType {
        if v == 0x0 {
            TimerType::CACHE
        } else if v == 0x1 {
            TimerType::COUNTER
        } else {
            TimerType::NullVal
        }
    }

    /// Returns the wire code of this variant.
    pub fn code(self) -> (r: u8)
        ensures
            r == self.spec_code(),
    {
        match self {
            TimerType::CACHE => 0x0,
            TimerType::COUNTER => 0x1,
            TimerType::NullVal => 0xff,
        }
    }
}

impl Default for TimerType {
    fn default() -> (r: Self)
        ensures
            r == TimerType::NullVal,
    {
        TimerType::NullVal
    }
}

impl From<u8> for TimerType {
    fn from(v: u8) -> (r: Self) {
        if v == 0x0 {
            TimerType::CACHE
        } else if v == 0x1 {
            TimerType::COUNTER
        } else {
            TimerType::NullVal
        }
    }
}

impl vstd::std_specs::convert::FromSpecImpl<u8> for TimerType {
    open spec fn obeys_from_spec() -> bool {
        true
    }

    open spec fn from_spec(v: u8) -> Self {
        TimerType::spec_decode(v)
    }
}

/// Decoding the wire code of any variant gives that variant back.
pub proof fn lemma_timer_type_decode_code(x: TimerType)
    ensures
        TimerType::spec_decode(x.spec_code()) == x,
{
}

/// Every code that decodes to a variant other than `NullVal` is that variant's own code.
pub proof fn lemma_timer_type_code_decode(v: u8)
    requires
        TimerType::spec_decode(v) != TimerType::NullVal,
    ensures
        TimerType::spec_decode(v).spec_code() == v,
{
}

/// The kind of a streamed cache update.
#[allow(non_camel_case_types)]
#[derive(Clone, Copy, Debug, PartialEq, Eq, Structural, PartialOrd, Ord, Hash)]
pub enum UpdateEventType {
    ADD_ITEM,
    REMOVE_ITEM,
    CLEAR_CACHE,
    DELETE_CACHE,
    PATCH_ITEM,
    NullVal,
}

impl UpdateEventType {
    /// The one-byte wire code of a variant.
    pub open spec fn spec_code(self) -> u8 {
        match self {
            UpdateEventType::ADD_ITEM => 0x0,
            UpdateEventType::REMOVE_ITEM => 0x1,
            UpdateEventType::CLEAR_CACHE => 0x2,
            UpdateEventType::DELETE_CACHE => 0x3,
            UpdateEventType::PATCH_ITEM => 0x4,
            UpdateEventType::NullVal => 0xff,
        }
    }

    /// The variant that a wire code decodes to.
    pub open spec fn spec_decode(v: u8) -> UpdateEventType {
        if v == 0x0 {
            UpdateEventType::ADD_ITEM
        } else if v == 0x1 {
            UpdateEventType::REMOVE_ITEM
        } else if v == 0x2 {
            UpdateEventType::CLEAR_CACHE
        } else if v == 0x3 {
            UpdateEventType::DELETE_CACHE
        } else if v == 0x4 {
            UpdateEventType::PATCH_ITEM
        } else {
            UpdateEventType::NullVal
        }
    }

    /// Returns the wire code of this variant.
    pub fn code(self) -> (r: u8)
        ensures
            r == self.spec_code(),
    {
        match self {
            UpdateEventType::ADD_ITEM => 0x0,
            UpdateEventType::REMOVE_ITEM => 0x1,
            UpdateEventType::CLEAR_CACHE => 0x2,
            UpdateEventType::DELETE_CACHE => 0x3,
            UpdateEventType::PATCH_ITEM => 0x4,
            UpdateEventType::NullVal => 0xff,
        }
    }
}

impl Default for UpdateEventType {
    fn default() -> (r: Self)
        ensures
            r == UpdateEventType::NullVal,
    {
        UpdateEventType::NullVal
    }
}

impl From<u8> for UpdateEventType {
    fn from(v: u8) -> (r: Self) {
        if v == 0x0 {
            UpdateEventType::ADD_ITEM
        } else if v == 0x1 {
            UpdateEventType::REMOVE_ITEM
        } else if v == 0x2 {
            UpdateEventType::CLEAR_CACHE
        } else if v == 0x3 {
            UpdateEventType::DELETE_CACHE
        } else if v == 0x4 {
            UpdateEventType::PATCH_ITEM
        } else {
            UpdateEventType::NullVal
        }
    }
}

impl vstd::std_specs::convert::FromSpecImpl<u8> for UpdateEventType {
    open spec fn obeys_from_spec() -> bool {
        true
    }

    open spec fn from_spec(v: u8) -> Self {
        UpdateEventType::spec_decode(v)
    }
}

/// Decoding the wire code of any variant gives that variant back.
pub proof fn lemma_update_event_type_decode_code(x: UpdateEventType)
    ensures
        UpdateEventType::spec_decode(x.spec_code()) == x,
{
}

/// Every code that decodes to a variant other than `NullVal` is that variant's own code.
pub proof fn lemma_update_event_type_code_decode(v: u8)
    requires
        UpdateEventType::spec_decode(v) != UpdateEventType::NullVal,
    ensures
        UpdateEventType::spec_decode(v).spec_code() == v,
{
}

/// The one-byte wire codes of the booleans are the gateway schema's: the variants in
/// declaration order take the codes 0 to 1, `NullVal` is `0xff`, and every other byte
/// decodes to `NullVal`.
pub proof fn lemma_boolean_type_wire_codes()
    ensures
        BooleanType::F.spec_code() == 0u8,
        BooleanType::T.spec_code() == 1u8,
        BooleanType::spec_decode(0u8) == BooleanType::F,
        BooleanType::spec_decode(1u8) == BooleanType::T,
        BooleanType::NullVal.spec_code() == 0xffu8,
        forall|v: u8| v >= 2 ==> BooleanType::spec_decode(v) == BooleanType::NullVal,
{
}

/// The one-byte wire codes of the bulk operation types are the gateway schema's: the variants in
/// declaration order take the codes 0 to 18, `NullVal` is `0xff`, and every other byte
/// decodes to `NullVal`.
pub proof fn lemma_bulk_operation_type_wire_codes()
    ensures
        BulkOperationType::NONE.spec_code() == 0u8,
        BulkOperationType::CREATE_CACHE.spec_code() == 1u8,
        BulkOperationType::ADD_ITEM.spec_code() == 2u8,
        BulkOperationType::REMOVE_ITEM.spec_code() == 3u8,
        BulkOperationType::CLEAR_CACHE.spec_code() == 4u8,
        BulkOperationType::GET_ITEM.spec_code() == 5u8,
        BulkOperationType::DELETE_CACHE.spec_code() == 6u8,
        BulkOperationType::PATCH_ITEM.spec_code() == 7u8,
        BulkOperationType::CREATE_COUNTER_CACHE.spec_code() == 8u8,
        BulkOperationType::ADD_COUNTER.spec_code() == 9u8,
        BulkOperationType::REMOVE_COUNTER.spec_code() == 10u8,
        BulkOperationType::CLEAR_COUNTER_CACHE.spec_code() == 11u8,
        BulkOperationType::GET_COUNTER.spec_code() == 12u8,
        BulkOperationType::DELETE_COUNTER_CACHE.spec_code() == 13u8,
        BulkOperationType::INCREMENT_COUNTER.spec_code() == 14u8,
        BulkOperationType::DECREMENT_COUNTER.spec_code() == 15u8,
        BulkOperationType::SET_COUNTER.spec_code() == 16u8,
        BulkOperationType::CANCEL_ITEM.spec_code() == 17u8,
        BulkOperationType::CANCEL_COUNTER.spec_code() == 18u8,
        BulkOperationType::spec_decode(0u8) == BulkOperationType::NONE,
        BulkOperationType::spec_decode(1u8) == BulkOperationType::CREATE_CACHE,
        BulkOperationType::spec_decode(2u8) == BulkOperationType::ADD_ITEM,
        BulkOperationType::spec_decode(3u8) == BulkOperationType::REMOVE_ITEM,
        BulkOperationType::spec_decode(4u8) == BulkOperationType::CLEAR_CACHE,
        BulkOperationType::spec_decode(5u8) == BulkOperationType::GET_ITEM,
        BulkOperationType::spec_decode(6u8) == BulkOperationType::DELETE_CACHE,
        BulkOperationType::spec_decode(7u8) == BulkOperationType::PATCH_ITEM,
        BulkOperationType::spec_decode(8u8) == BulkOperationType::CREATE_COUNTER_CACHE,
        BulkOperationType::spec_decode(9u8) == BulkOperationType::ADD_COUNTER,
        BulkOperationType::spec_decode(10u8) == BulkOperationType::REMOVE_COUNTER,
        BulkOperationType::spec_decode(11u8) == BulkOperationType::CLEAR_COUNTER_CACHE,
        BulkOperationType::spec_decode(12u8) == BulkOperationType::GET_COUNTER,
        BulkOperationType::spec_decode(13u8) == BulkOperationType::DELETE_COUNTER_CACHE,
        BulkOperationType::spec_decode(14u8) == BulkOperationType::INCREMENT_COUNTER,
        BulkOperationType::spec_decode(15u8) == BulkOperationType::DECREMENT_COUNTER,
        BulkOperationType::spec_decode(16u8) == BulkOperationType::SET_COUNTER,
        BulkOperationType::spec_decode(17u8) == BulkOperationType::CANCEL_ITEM,
        BulkOperationType::spec_decode(18u8) == BulkOperationType::CANCEL_COUNTER,
        BulkOperationType::NullVal.spec_code() == 0xffu8,
        forall|v: u8| v >= 19 ==> BulkOperationType::spec_decode(v) == BulkOperationType::NullVal,
{
}

/// The one-byte wire codes of the operation statuses are the gateway schema's: the variants in
/// declaration order take the codes 0 to 7, `NullVal` is `0xff`, and every other byte
/// decodes to `NullVal`.
pub proof fn lemma_operation_status_wire_codes()
    ensures
        OperationStatus::NONE.spec_code() == 0u8,
        OperationStatus::SUCCESS.spec_code() == 1u8,
        OperationStatus::ERROR.spec_code() == 2u8,
        OperationStatus::UNKNOWN_CACHE.spec_code() == 3u8,
        OperationStatus::UNKNOWN_KEY.spec_code() == 4u8,
        OperationStatus::CACHE_EXISTS.spec_code() == 5u8,
        OperationStatus::DUPLICATE_SUBSCRIPTION.spec_code() == 6u8,
        OperationStatus::UNKNOWN_SUBSCRIPTION.spec_code() == 7u8,
        OperationStatus::spec_decode(0u8) == OperationStatus::NONE,
        OperationStatus::spec_decode(1u8) == OperationStatus::SUCCESS,
        OperationStatus::spec_decode(2u8) == OperationStatus::ERROR,
        OperationStatus::spec_decode(3u8) == OperationStatus::UNKNOWN_CACHE,
        OperationStatus::spec_decode(4u8) == OperationStatus::UNKNOWN_KEY,
        OperationStatus::spec_decode(5u8) == OperationStatus::CACHE_EXISTS,
        OperationStatus::spec_decode(6u8) == OperationStatus::DUPLICATE_SUBSCRIPTION,
        OperationStatus::spec_decode(7u8) == OperationStatus::UNKNOWN_SUBSCRIPTION,
        OperationStatus::NullVal.spec_code() == 0xffu8,
        forall|v: u8| v >= 8 ==> OperationStatus::spec_decode(v) == OperationStatus::NullVal,
{
}

/// The one-byte wire codes of the subscription modes are the gateway schema's: the variants in
/// declaration order take the codes 0 to 1, `NullVal` is `0xff`, and every other byte
/// decodes to `NullVal`.
pub proof fn lemma_subscription_mode_wire_codes()
    ensures
        SubscriptionMode::FULL.spec_code() == 0u8,
        SubscriptionMode::PATCH.spec_code() == 1u8,
        SubscriptionMode::spec_decode(0u8) == SubscriptionMode::FULL,
        SubscriptionMode::spec_decode(1u8) == SubscriptionMode::PATCH,
        SubscriptionMode::NullVal.spec_code() == 0xffu8,
        forall|v: u8| v >= 2 ==> SubscriptionMode::spec_decode(v) == SubscriptionMode::NullVal,
{
}

/// The one-byte wire codes of the timer types are the gateway schema's: the variants in
/// declaration order take the codes 0 to 1, `NullVal` is `0xff`, and every other byte
/// decodes to `NullVal`.
pub proof fn lemma_timer_type_wire_codes()
    ensures
        TimerType::CACHE.spec_code() == 0u8,
        TimerType::COUNTER.spec_code() == 1u8,
        TimerType::spec_decode(0u8) == TimerType::CACHE,
        TimerType::spec_decode(1u8) == TimerType::COUNTER,
        TimerType::NullVal.spec_code() == 0xffu8,
        forall|v: u8| v >= 2 ==> TimerType::spec_decode(v) == TimerType::NullVal,
{
}

/// The one-byte wire codes of the update event types are the gateway schema's: the variants in
/// declaration order take the codes 0 to 4, `NullVal` is `0xff`, and every other byte
/// decodes to `NullVal`.
pub proof fn lemma_update_event_type_wire_codes()
    ensures
        UpdateEventType::ADD_ITEM.spec_code() == 0u8,
        UpdateEventType::REMOVE_ITEM.spec_code() == 1u8,
        UpdateEventType::CLEAR_CACHE.spec_code() == 2u8,
        UpdateEventType::DELETE_CACHE.spec_code() == 3u8,
        UpdateEventType::PATCH_ITEM.spec_code() == 4u8,
        UpdateEventType::spec_decode(0u8) == UpdateEventType::ADD_ITEM,
        UpdateEventType::spec_decode(1u8) == UpdateEventType::REMOVE_ITEM,
        UpdateEventType::spec_decode(2u8) == UpdateEventType::CLEAR_CACHE,
        UpdateEventType::spec_decode(3u8) == UpdateEventType::DELETE_CACHE,
        UpdateEventType::spec_decode(4u8) == UpdateEventType::PATCH_ITEM,
        UpdateEventType::NullVal.spec_code() == 0xffu8,
        forall|v: u8| v >= 5 ==> UpdateEventType::spec_decode(v) == UpdateEventType::NullVal,
{
}

} // verus!
