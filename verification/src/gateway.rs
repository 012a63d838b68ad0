//! The real-time gateway: the online-connection registry and the
//! per-connection protocol state machine.

pub mod connection;
pub mod dispatcher;
pub mod registry;
