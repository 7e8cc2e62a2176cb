//! The bidirectional WebSocket transport: a single connection carries every command and
//! subscription, multiplexed by client-minted correlation ids that the server echoes on each
//! correlated frame.

pub mod frames;
pub mod router;
