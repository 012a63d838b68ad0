//! Real-time gateway and identity subsystem of a forum backend.
//!
//! The crate covers the pieces with real coordination and a wire protocol:
//! the snowflake identifier generator, the stateless bearer-token codec,
//! the online-connection registry, the broadcast dispatch filter and the
//! per-connection gateway protocol state machine.

use vstd::prelude::*;

pub mod gateway;
pub mod models;
pub mod routes;
pub mod utils;

verus! {

use crate::utils::snowflake::Snowflake;

/// Routing scope for an event published on the broadcast bus.
#[derive(Clone, Copy, PartialEq, Eq, Structural, Debug)]
pub enum DispatchTarget {
    /// Every authenticated connection receives the event.
    Global,
    /// Only the connection authenticated as this user receives the event.
    User(Snowflake),
    /// Connections subscribed to this thread receive the event.
    Thread(Snowflake),
}

} // verus!
