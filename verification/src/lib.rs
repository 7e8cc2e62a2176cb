//! Embedded cache client for Aeron Cache: the data model of the HTTP, WebSocket and gateway
//! transports, the local mirrors that embedded caches keep in sync from streaming updates, and the
//! request planning, response mapping and correlation routing that the transports share.

pub mod messages;
pub mod mirror;
pub mod order;
pub mod model;
pub mod error;
pub mod transport;
pub mod unified_cache;
pub mod json;
pub mod text;
pub mod correlation;
pub mod stream;
pub mod endpoints;
pub mod gateway;
pub mod bidi;
