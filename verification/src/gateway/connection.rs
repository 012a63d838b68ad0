//! The per-connection gateway protocol state machine.
//!
//! A connection starts `Pending`, greets the client with `Hello`, and
//! becomes `Authenticated` on a successful identification; every error,
//! timeout or close frame terminates it. The machine is written as pure
//! transition functions over the connection, the incoming input and the
//! shared registry; the surrounding event loop performs the socket and
//! channel work and feeds the results in as inputs.

use vstd::prelude::*;

verus! {

use crate::DispatchTarget;
use crate::gateway::registry::ConnectionRegistry;
use crate::gateway::registry::spec_register;
use crate::gateway::registry::spec_unregister;
use crate::models::gateway::GatewayError;
use crate::models::gateway::GatewayEvent;
use crate::models::gateway::GatewayHelloPacket;
use crate::models::gateway::IncomingGatewayPacket;
use crate::models::gateway::OutgoingGatewayPacket;
use crate::models::gateway::Ready;
use crate::models::thread::Thread;
use crate::models::user::User;

/// How often, in milliseconds, a client must send a heartbeat.
pub const HEARTBEAT_INTERVAL: u64 = 27500;

/// The inactivity window in milliseconds: a connection with no inbound
/// message for this long is closed as inactive.
pub const INCOMING_MESSAGE_TIMEOUT_MS: u64 = HEARTBEAT_INTERVAL + 10000;

/// One gateway connection and its protocol state.
pub struct GatewayConnection {
    /// The gateway session ID.
    pub session_id: String,
    /// The currently subscribed thread.
    pub thread: Option<Thread>,
    /// The currently authenticated user; `None` while pending.
    pub user: Option<User>,
}

/// What the event loop observed and hands to the state machine: the
/// decoded result of one select arm.
pub enum GatewayInput {
    /// Nothing arrived within the inactivity window.
    Timeout,
    /// The broadcast bus delivered an event for the given target.
    Broadcast(DispatchTarget, GatewayEvent),
    /// The broadcast bus is closed.
    ChannelClosed,
    /// The broadcast bus dropped events because this connection lagged.
    ChannelLagged,
    /// A text frame decoded to a packet; for an identification the
    /// surrounding loop has already asked the authentication collaborator
    /// to resolve the carried token, and hands in the verified user, or
    /// `None` when the token did not verify.
    Packet(IncomingGatewayPacket, Option<User>),
    /// A text frame that did not decode to a packet.
    MalformedFrame,
    /// The client sent a close frame.
    CloseFrame,
    /// A frame of an unsupported type arrived.
    UnsupportedFrame,
    /// The socket stream ended without a close frame.
    StreamEnded,
}

/// What the event loop must do after one step.
pub enum StepResult {
    /// Nothing to send; keep waiting.
    Continue,
    /// Send this packet, then keep waiting.
    Reply(OutgoingGatewayPacket),
    /// Close the socket with this error's close reason and stop.
    Close(GatewayError),
    /// Stop without sending a close frame.
    Stop,
}

impl GatewayConnection {
    /// A fresh pending connection for a new socket.
    pub fn new(session_id: String) -> (c: GatewayConnection)
        ensures
            c.session_id == session_id,
            c.thread is None,
            c.user is None,
    {
        GatewayConnection { session_id, thread: None, user: None }
    }

    /// The id of the authenticated user, while there is one.
    pub open spec fn spec_user_id(&self) -> Option<i64> {
        match self.user {
            Some(u) => Some(u.id.0),
            None => None,
        }
    }

    /// Whether a broadcast for the given target is delivered on this
    /// connection: global events reach every authenticated connection,
    /// user-targeted events exactly the connection authenticated as that
    /// user, and no event reaches a pending connection.
    pub open spec fn spec_wants(&self, target: DispatchTarget) -> bool {
        match self.user {
            Some(u) => match target {
                DispatchTarget::Global => true,
                DispatchTarget::User(id) => id.0 == u.id.0,
                DispatchTarget::Thread(_) => false,
            },
            None => false,
        }
    }

    /// The packet that greets every new connection.
    pub fn hello() -> (p: OutgoingGatewayPacket)
        ensures
            p == OutgoingGatewayPacket::Hello(
                GatewayHelloPacket { heartbeat_interval: HEARTBEAT_INTERVAL },
            ),
    {
        OutgoingGatewayPacket::Hello(GatewayHelloPacket { heartbeat_interval: HEARTBEAT_INTERVAL })
    }

    /// Get the current authenticated user.
    pub fn current_user(&self) -> (r: Result<User, GatewayError>)
        ensures
            match self.user {
                Some(u) => r matches Ok(v) && v == u,
                None => r == Err::<User, GatewayError>(GatewayError::NotAuthenticated),
            },
    {
        match &self.user {
            Some(u) => Ok(u.clone()),
            None => Err(GatewayError::NotAuthenticated),
        }
    }

    /// Whether a broadcast for the given target is delivered on this
    /// connection.
    pub fn wants_event(&self, target: &DispatchTarget) -> (r: bool)
        ensures
            r == self.spec_wants(*target),
    {
        match &self.user {
            Some(u) => match target {
                DispatchTarget::Global => true,
                DispatchTarget::User(id) => id.0 == u.id.0,
                DispatchTarget::Thread(_) => false,
            },
            None => false,
        }
    }

    /// Handle an incoming packet.
    ///
    /// A heartbeat is acknowledged in any state. An identification is
    /// refused on an already authenticated connection; otherwise the
    /// collaborator's verdict on the token decides: no user means the
    /// token failed, a user already online means a duplicate session, and
    /// only then is the user registered and answered with the `Ready`
    /// snapshot of all other online users.
    pub fn handle(
        &mut self,
        packet: IncomingGatewayPacket,
        auth: Option<User>,
        registry: &mut ConnectionRegistry,
    ) -> (r: Result<OutgoingGatewayPacket, GatewayError>)
        requires
            old(registry).wf(),
        ensures
            final(registry).wf(),
            match packet {
                IncomingGatewayPacket::Heartbeat => {
                    &&& r matches Ok(p) && p == OutgoingGatewayPacket::HeartbeatAck
                    &&& *final(self) == *old(self)
                    &&& final(registry)@ == old(registry)@
                },
                IncomingGatewayPacket::Identify(_) => {
                    if old(self).user is Some {
                        &&& r == Err::<OutgoingGatewayPacket, GatewayError>(
                            GatewayError::AlreadyAuthenticated,
                        )
                        &&& *final(self) == *old(self)
                        &&& final(registry)@ == old(registry)@
                    } else {
                        match auth {
                            None => {
                                &&& r == Err::<OutgoingGatewayPacket, GatewayError>(
                                    GatewayError::AuthenticationFail,
                                )
                                &&& *final(self) == *old(self)
                                &&& final(registry)@ == old(registry)@
                            },
                            Some(u) => {
                                if old(registry).spec_is_online(u.id.0) {
                                    &&& r == Err::<OutgoingGatewayPacket, GatewayError>(
                                        GatewayError::AlreadyAuthenticated,
                                    )
                                    &&& *final(self) == *old(self)
                                    &&& final(registry)@ == old(registry)@
                                } else {
                                    &&& final(registry)@ == spec_register(old(registry)@, u).0
                                    &&& final(self).user == Some(u)
                                    &&& final(self).session_id == old(self).session_id
                                    &&& final(self).thread == old(self).thread
                                    &&& r matches Ok(OutgoingGatewayPacket::Event(
                                        GatewayEvent::Ready(ready),
                                    )) && ready.user == u && ready.users@ == spec_unregister(
                                        old(registry)@,
                                        u.id.0,
                                    )
                                }
                            },
                        }
                    }
                },
            },
    {
        match packet {
            IncomingGatewayPacket::Identify(_) => {
                if self.user.is_some() {
                    return Err(GatewayError::AlreadyAuthenticated);
                }
                let user = match auth {
                    Some(u) => u,
                    None => {
                        return Err(GatewayError::AuthenticationFail);
                    },
                };
                let users = registry.snapshot_excluding(user.id.0);
                match registry.register(user.clone()) {
                    Err(_) => Err(GatewayError::AlreadyAuthenticated),
                    Ok(()) => {
                        self.user = Some(user.clone());
                        Ok(
                            OutgoingGatewayPacket::Event(
                                GatewayEvent::Ready(Ready { user, users }),
                            ),
                        )
                    },
                }
            },
            IncomingGatewayPacket::Heartbeat => Ok(OutgoingGatewayPacket::HeartbeatAck),
        }
    }

    /// Remove this connection's user from the registry, if it has one:
    /// run on every close path, before the socket is dropped, so that no
    /// window exists in which the registry claims the user is online
    /// with a dead handle.
    pub fn deregister(&self, registry: &mut ConnectionRegistry)
        requires
            old(registry).wf(),
        ensures
            final(registry).wf(),
            final(registry)@ == match self.spec_user_id() {
                Some(id) => spec_unregister(old(registry)@, id),
                None => old(registry)@,
            },
    {
        match &self.user {
            Some(u) => registry.unregister(u.id.0),
            None => (),
        }
    }

    /// One step of the connection's event loop: react to whichever of
    /// the three waited-on sources produced this input. Every terminal
    /// outcome deregisters the connection first.
    pub fn step(&mut self, input: GatewayInput, registry: &mut ConnectionRegistry) -> (r:
        StepResult)
        requires
            old(registry).wf(),
        ensures
            final(registry).wf(),
            match input {
                GatewayInput::Timeout => {
                    &&& r == StepResult::Close(GatewayError::Inactive)
                    &&& *final(self) == *old(self)
                    &&& spec_deregistered(*old(self), old(registry)@, final(registry)@)
                },
                GatewayInput::Broadcast(target, event) => {
                    &&& *final(self) == *old(self)
                    &&& final(registry)@ == old(registry)@
                    &&& if old(self).spec_wants(target) {
                        r == StepResult::Reply(OutgoingGatewayPacket::Event(event))
                    } else {
                        r == StepResult::Continue
                    }
                },
                GatewayInput::ChannelClosed | GatewayInput::ChannelLagged => {
                    &&& r == StepResult::Close(GatewayError::Closed)
                    &&& *final(self) == *old(self)
                    &&& spec_deregistered(*old(self), old(registry)@, final(registry)@)
                },
                GatewayInput::Packet(_, _) => true,
                GatewayInput::MalformedFrame => {
                    &&& r == StepResult::Close(GatewayError::Decode)
                    &&& *final(self) == *old(self)
                    &&& spec_deregistered(*old(self), old(registry)@, final(registry)@)
                },
                GatewayInput::CloseFrame => {
                    &&& r == StepResult::Close(GatewayError::Closed)
                    &&& *final(self) == *old(self)
                    &&& spec_deregistered(*old(self), old(registry)@, final(registry)@)
                },
                GatewayInput::UnsupportedFrame => {
                    &&& r == StepResult::Close(GatewayError::UnsupportedMessageType)
                    &&& *final(self) == *old(self)
                    &&& spec_deregistered(*old(self), old(registry)@, final(registry)@)
                },
                GatewayInput::StreamEnded => {
                    &&& r == StepResult::Stop
                    &&& *final(self) == *old(self)
                    &&& spec_deregistered(*old(self), old(registry)@, final(registry)@)
                },
            },
            match input {
                GatewayInput::Packet(packet, auth) => match packet {
                    IncomingGatewayPacket::Heartbeat => {
                        &&& r == StepResult::Reply(OutgoingGatewayPacket::HeartbeatAck)
                        &&& *final(self) == *old(self)
                        &&& final(registry)@ == old(registry)@
                    },
                    IncomingGatewayPacket::Identify(_) => {
                        if old(self).user is Some {
                            &&& r == StepResult::Close(GatewayError::AlreadyAuthenticated)
                            &&& *final(self) == *old(self)
                            &&& spec_deregistered(*old(self), old(registry)@, final(registry)@)
                        } else {
                            match auth {
                                None => {
                                    &&& r == StepResult::Close(GatewayError::AuthenticationFail)
                                    &&& *final(self) == *old(self)
                                    &&& final(registry)@ == old(registry)@
                                },
                                Some(u) => {
                                    if old(registry).spec_is_online(u.id.0) {
                                        &&& r == StepResult::Close(
                                            GatewayError::AlreadyAuthenticated,
                                        )
                                        &&& *final(self) == *old(self)
                                        &&& final(registry)@ == old(registry)@
                                    } else {
                                        &&& final(registry)@ == spec_register(old(registry)@, u).0
                                        &&& final(self).user == Some(u)
                                        &&& r matches StepResult::Reply(
                                            OutgoingGatewayPacket::Event(GatewayEvent::Ready(
                                                ready,
                                            )),
                                        ) && ready.user == u && ready.users@ == spec_unregister(
                                            old(registry)@,
                                            u.id.0,
                                        )
                                    }
                                },
                            }
                        }
                    },
                },
                _ => true,
            },
    {
        match input {
            GatewayInput::Timeout => {
                self.deregister(registry);
                StepResult::Close(GatewayError::Inactive)
            },
            GatewayInput::Broadcast(target, event) => {
                if self.wants_event(&target) {
                    StepResult::Reply(OutgoingGatewayPacket::Event(event))
                } else {
                    StepResult::Continue
                }
            },
            GatewayInput::ChannelClosed => {
                self.deregister(registry);
                StepResult::Close(GatewayError::Closed)
            },
            GatewayInput::ChannelLagged => {
                self.deregister(registry);
                StepResult::Close(GatewayError::Closed)
            },
            GatewayInput::Packet(packet, auth) => {
                match self.handle(packet, auth, registry) {
                    Ok(reply) => StepResult::Reply(reply),
                    Err(e) => {
                        if e == GatewayError::AlreadyAuthenticated && self.user.is_some() {
                            self.deregister(registry);
                        }
                        StepResult::Close(e)
                    },
                }
            },
            GatewayInput::MalformedFrame => {
                self.deregister(registry);
                StepResult::Close(GatewayError::Decode)
            },
            GatewayInput::CloseFrame => {
                self.deregister(registry);
                StepResult::Close(GatewayError::Closed)
            },
            GatewayInput::UnsupportedFrame => {
                self.deregister(registry);
                StepResult::Close(GatewayError::UnsupportedMessageType)
            },
            GatewayInput::StreamEnded => {
                self.deregister(registry);
                StepResult::Stop
            },
        }
    }
}

/// The registry after a close path: the connection's user, if any, is
/// gone; nothing else changed.
pub open spec fn spec_deregistered(
    conn: GatewayConnection,
    before: Seq<User>,
    after: Seq<User>,
) -> bool {
    match conn.spec_user_id() {
        Some(id) => after == spec_unregister(before, id),
        None => after == before,
    }
}

/// Broadcast targeting, stated in one place: a `User`-targeted event is
/// delivered exactly on the connection authenticated as that user, never
/// on one authenticated as someone else or still pending; a `Global`
/// event is delivered exactly on the authenticated connections; and a
/// pending connection receives nothing at all.
pub proof fn lemma_dispatch_targeting(c: GatewayConnection, a: crate::utils::snowflake::Snowflake)
    ensures
        c.spec_wants(DispatchTarget::User(a)) <==> (c.user matches Some(u) && u.id.0 == a.0),
        c.spec_wants(DispatchTarget::Global) <==> c.user is Some,
        c.user is None ==> forall|t: DispatchTarget| !c.spec_wants(t),
{
}

} // verus!
