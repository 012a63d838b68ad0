//! The gateway wire protocol: packets, events, errors and close reasons.

use vstd::prelude::*;

verus! {

use crate::models::message::Message;
use crate::models::thread::Thread;
use crate::models::user::User;
use crate::utils::convectors::is_hex_lower;
use crate::utils::snowflake::Snowflake;

/// An error that terminates a gateway connection. Every variant maps to
/// one fixed close code and reason.
#[derive(PartialEq, Eq, Structural, Copy, Clone, Debug)]
pub enum GatewayError {
    /// A frame could not be decoded.
    Decode,
    /// An unclassified failure.
    UnknownError,
    /// A transport-level protocol failure.
    WebSocketError,
    /// A frame of an unsupported type arrived.
    UnsupportedMessageType,
    /// An operation that needs authentication ran before identification.
    NotAuthenticated,
    /// The presented token did not verify.
    AuthenticationFail,
    /// Identification arrived on an already identified connection, or
    /// the user is already online elsewhere.
    AlreadyAuthenticated,
    /// The client sent too much.
    RateLimited,
    /// Nothing arrived within the inactivity window.
    Inactive,
    /// The connection closed.
    Closed,
}

/// The close frame sent before the socket is dropped.
pub struct CloseReason {
    /// The WebSocket close code.
    pub code: u16,
    /// The human-readable reason.
    pub description: String,
}

impl GatewayError {
    /// The fixed close code of each error: the standard codes for normal,
    /// away and unsupported-data closures, and the private 4000-4008
    /// range for protocol and authentication errors.
    pub open spec fn spec_close_code(&self) -> u16 {
        match self {
            GatewayError::Inactive => 1001,
            GatewayError::Closed => 1000,
            GatewayError::UnsupportedMessageType => 1003,
            GatewayError::WebSocketError => 4000,
            GatewayError::UnknownError => 4001,
            GatewayError::Decode => 4002,
            GatewayError::NotAuthenticated => 4003,
            GatewayError::AuthenticationFail => 4004,
            GatewayError::AlreadyAuthenticated => 4005,
            GatewayError::RateLimited => 4008,
        }
    }

    /// The fixed close code of the error.
    pub fn close_code(&self) -> (c: u16)
        ensures
            c == self.spec_close_code(),
    {
        match self {
            GatewayError::Inactive => 1001,
            GatewayError::Closed => 1000,
            GatewayError::UnsupportedMessageType => 1003,
            GatewayError::WebSocketError => 4000,
            GatewayError::UnknownError => 4001,
            GatewayError::Decode => 4002,
            GatewayError::NotAuthenticated => 4003,
            GatewayError::AuthenticationFail => 4004,
            GatewayError::AlreadyAuthenticated => 4005,
            GatewayError::RateLimited => 4008,
        }
    }

    /// The fixed human-readable reason of each error.
    pub open spec fn spec_description(&self) -> Seq<char> {
        match self {
            GatewayError::Decode => "Decode error"@,
            GatewayError::UnknownError => "Unknown error"@,
            GatewayError::WebSocketError => "WebSocket error"@,
            GatewayError::UnsupportedMessageType => "Unsupported message type"@,
            GatewayError::NotAuthenticated => "Not authenticated"@,
            GatewayError::AuthenticationFail => "Authentication failed"@,
            GatewayError::AlreadyAuthenticated => "Already authenticated"@,
            GatewayError::RateLimited => "Rate limited"@,
            GatewayError::Inactive => "Inactive connection"@,
            GatewayError::Closed => "Connection closed"@,
        }
    }

    /// The close frame for the error: its fixed code and reason.
    pub fn to_close_reason(&self) -> (r: CloseReason)
        ensures
            r.code == self.spec_close_code(),
            r.description@ == self.spec_description(),
    {
        let description = match self {
            GatewayError::Decode => "Decode error".to_owned(),
            GatewayError::UnknownError => "Unknown error".to_owned(),
            GatewayError::WebSocketError => "WebSocket error".to_owned(),
            GatewayError::UnsupportedMessageType => "Unsupported message type".to_owned(),
            GatewayError::NotAuthenticated => "Not authenticated".to_owned(),
            GatewayError::AuthenticationFail => "Authentication failed".to_owned(),
            GatewayError::AlreadyAuthenticated => "Already authenticated".to_owned(),
            GatewayError::RateLimited => "Rate limited".to_owned(),
            GatewayError::Inactive => "Inactive connection".to_owned(),
            GatewayError::Closed => "Connection closed".to_owned(),
        };
        CloseReason { code: self.close_code(), description }
    }
}

/// The identification request a client sends: its bearer token.
pub struct IncomingIdentifyPacket {
    pub token: String,
}

impl Clone for IncomingIdentifyPacket {
    fn clone(&self) -> (res: Self)
        ensures
            res == *self,
    {
        IncomingIdentifyPacket { token: self.token.clone() }
    }
}

/// A packet a client can send.
pub enum IncomingGatewayPacket {
    /// Identify with a bearer token.
    Identify(IncomingIdentifyPacket),
    /// Keep the connection alive.
    Heartbeat,
}

impl Clone for IncomingGatewayPacket {
    fn clone(&self) -> (res: Self)
        ensures
            res == *self,
    {
        match self {
            IncomingGatewayPacket::Identify(p) => IncomingGatewayPacket::Identify(p.clone()),
            IncomingGatewayPacket::Heartbeat => IncomingGatewayPacket::Heartbeat,
        }
    }
}

/// The payload of the `Hello` packet: how often the client must send a
/// heartbeat.
#[derive(PartialEq, Eq, Structural, Copy, Clone, Debug)]
pub struct GatewayHelloPacket {
    pub heartbeat_interval: u64,
}

/// The post-authentication snapshot: the authenticated user's own profile
/// and every other currently online user.
pub struct Ready {
    /// The currently authenticated user.
    pub user: User,
    /// All other online users; the receiving user is not among them.
    pub users: Vec<User>,
}

impl Clone for Ready {
    fn clone(&self) -> (res: Self)
        ensures
            res.user == self.user,
            res.users@ == self.users@,
    {
        let res = Ready { user: self.user.clone(), users: self.users.clone() };
        proof {
            assert forall|i: int| 0 <= i < self.users@.len() implies res.users@[i]
                == self.users@[i] by {
                assert(cloned::<User>(self.users[i], res.users[i]));
            }
            assert(res.users@ =~= self.users@);
        }
        res
    }
}

/// A domain notification delivered to connected clients.
pub enum GatewayEvent {
    Ready(Ready),
    ThreadCreate(Thread),
    ThreadUpdate(Thread),
    ThreadDelete { thread_id: Snowflake },
    MessageCreate(Message),
    MessageUpdate(Message),
    MessageDelete { thread_id: Snowflake, message_id: Snowflake },
    ThreadTypingStart { thread_id: Snowflake, user_id: Snowflake },
    ThreadTypingStop { thread_id: Snowflake, user_id: Snowflake },
    UserUpdate(User),
}

impl Clone for GatewayEvent {
    fn clone(&self) -> Self {
        match self {
            GatewayEvent::Ready(r) => GatewayEvent::Ready(r.clone()),
            GatewayEvent::ThreadCreate(t) => GatewayEvent::ThreadCreate(t.clone()),
            GatewayEvent::ThreadUpdate(t) => GatewayEvent::ThreadUpdate(t.clone()),
            GatewayEvent::ThreadDelete { thread_id } => GatewayEvent::ThreadDelete {
                thread_id: *thread_id,
            },
            GatewayEvent::MessageCreate(m) => GatewayEvent::MessageCreate(m.clone()),
            GatewayEvent::MessageUpdate(m) => GatewayEvent::MessageUpdate(m.clone()),
            GatewayEvent::MessageDelete { thread_id, message_id } => GatewayEvent::MessageDelete {
                thread_id: *thread_id,
                message_id: *message_id,
            },
            GatewayEvent::ThreadTypingStart { thread_id, user_id } => {
                GatewayEvent::ThreadTypingStart { thread_id: *thread_id, user_id: *user_id }
            },
            GatewayEvent::ThreadTypingStop { thread_id, user_id } => {
                GatewayEvent::ThreadTypingStop { thread_id: *thread_id, user_id: *user_id }
            },
            GatewayEvent::UserUpdate(u) => GatewayEvent::UserUpdate(u.clone()),
        }
    }
}

impl Ready {
    /// The `Ready` payload as the event it is delivered in.
    pub fn into_event(self) -> (e: GatewayEvent)
        ensures
            e == GatewayEvent::Ready(self),
    {
        GatewayEvent::Ready(self)
    }
}

/// A packet the gateway can send.
pub enum OutgoingGatewayPacket {
    /// Sent once, immediately after the socket upgrade.
    Hello(GatewayHelloPacket),
    /// A domain notification.
    Event(GatewayEvent),
    /// A request for an immediate heartbeat.
    HeartbeatRequest,
    /// The reply to a heartbeat.
    HeartbeatAck,
}

/// A fresh random gateway session identifier: 32 lowercase hex characters.
pub fn new_session_id() -> (r: String)
    ensures
        r@.len() == 32,
        forall|i: int| 0 <= i < r@.len() ==> is_hex_lower(#[trigger] r@[i]),
{
    crate::models::new_hex_id(32)
}

} // verus!
