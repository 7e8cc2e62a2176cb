//! Message type ids carried in a gateway command (they mirror the server's request message
//! types).

use vstd::prelude::*;

verus! {

pub const CREATE_CACHE: u16 = 1;

pub const ADD_CACHE_ENTRY: u16 = 2;

pub const GET_CACHE_ENTRY: u16 = 3;

pub const CLEAR_CACHE: u16 = 4;

pub const DELETE_CACHE: u16 = 5;

pub const GET_CACHE_ENTRIES: u16 = 6;

pub const GET_CACHE_STATS: u16 = 9;

pub const REMOVE_CACHE_ENTRY: u16 = 10;

pub const PATCH_CACHE_ENTRY: u16 = 12;

pub const CANCEL_CACHE_ITEM_REMOVAL: u16 = 13;

pub const CREATE_COUNTER_CACHE: u16 = 101;

pub const ADD_COUNTER_ENTRY: u16 = 102;

pub const GET_COUNTER_ENTRY: u16 = 103;

pub const DELETE_COUNTER_CACHE: u16 = 105;

pub const REMOVE_COUNTER_ENTRY: u16 = 110;

pub const INCREMENT_COUNTER_ENTRY: u16 = 111;

pub const DECREMENT_COUNTER_ENTRY: u16 = 112;

pub const SET_COUNTER_ENTRY: u16 = 113;

pub const CANCEL_COUNTER_ITEM_REMOVAL: u16 = 114;

} // verus!
