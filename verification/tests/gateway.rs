//! Scenario tests of the gateway protocol state machine.

use forum::gateway::connection::GatewayConnection;
use forum::gateway::connection::GatewayInput;
use forum::gateway::connection::StepResult;
use forum::gateway::connection::HEARTBEAT_INTERVAL;
use forum::gateway::connection::INCOMING_MESSAGE_TIMEOUT_MS;
use forum::gateway::dispatcher::DispatchError;
use forum::gateway::dispatcher::Dispatcher;
use forum::gateway::registry::ConnectionRegistry;
use forum::models::gateway::GatewayError;
use forum::models::gateway::GatewayEvent;
use forum::models::gateway::IncomingGatewayPacket;
use forum::models::gateway::IncomingIdentifyPacket;
use forum::models::gateway::OutgoingGatewayPacket;
use forum::models::message::Message;
use forum::models::user::User;
use forum::DispatchTarget;
use forum::utils::snowflake::Snowflake;

fn user(id: i64, name: &str) -> User {
    User::new(Snowflake(id), name, name, "correct horse battery staple")
}

fn identify() -> IncomingGatewayPacket {
    IncomingGatewayPacket::Identify(IncomingIdentifyPacket { token: "t".to_string() })
}

fn authenticate(conn: &mut GatewayConnection, reg: &mut ConnectionRegistry, u: User) {
    match conn.step(GatewayInput::Packet(identify(), Some(u)), reg) {
        StepResult::Reply(OutgoingGatewayPacket::Event(GatewayEvent::Ready(_))) => {}
        other => panic!("expected a Ready reply, got {}", kind(&other)),
    }
}

fn kind(r: &StepResult) -> &'static str {
    match r {
        StepResult::Continue => "Continue",
        StepResult::Reply(_) => "Reply",
        StepResult::Close(_) => "Close",
        StepResult::Stop => "Stop",
    }
}

#[test]
fn hello_carries_the_heartbeat_interval() {
    assert_eq!(HEARTBEAT_INTERVAL, 27500);
    assert_eq!(INCOMING_MESSAGE_TIMEOUT_MS, 37500);
    match GatewayConnection::hello() {
        OutgoingGatewayPacket::Hello(h) => assert_eq!(h.heartbeat_interval, 27500),
        _ => panic!("expected a Hello packet"),
    }
}

#[test]
fn heartbeat_is_acknowledged_in_any_state() {
    let mut reg = ConnectionRegistry::new();
    let mut conn = GatewayConnection::new("s1".to_string());
    match conn.step(GatewayInput::Packet(IncomingGatewayPacket::Heartbeat, None), &mut reg) {
        StepResult::Reply(OutgoingGatewayPacket::HeartbeatAck) => {}
        other => panic!("expected a heartbeat ack, got {}", kind(&other)),
    }
    authenticate(&mut conn, &mut reg, user(1, "u1"));
    match conn.step(GatewayInput::Packet(IncomingGatewayPacket::Heartbeat, None), &mut reg) {
        StepResult::Reply(OutgoingGatewayPacket::HeartbeatAck) => {}
        other => panic!("expected a heartbeat ack, got {}", kind(&other)),
    }
}

#[test]
fn timeout_without_identify_closes_away() {
    // scenario: connect, never identify, stay silent past the window
    let mut reg = ConnectionRegistry::new();
    let mut conn = GatewayConnection::new("s1".to_string());
    match conn.step(GatewayInput::Timeout, &mut reg) {
        StepResult::Close(e) => {
            assert_eq!(e, GatewayError::Inactive);
            let reason = e.to_close_reason();
            assert_eq!(reason.code, 1001);
            assert_eq!(reason.description, "Inactive connection");
        }
        other => panic!("expected a close, got {}", kind(&other)),
    }
}

#[test]
fn duplicate_session_is_rejected_and_first_unaffected() {
    // scenario: a second connection identifies as an already online user
    let mut reg = ConnectionRegistry::new();
    let mut first = GatewayConnection::new("s1".to_string());
    authenticate(&mut first, &mut reg, user(1, "u1"));
    assert!(reg.is_online(1));

    let mut second = GatewayConnection::new("s2".to_string());
    match second.step(GatewayInput::Packet(identify(), Some(user(1, "u1"))), &mut reg) {
        StepResult::Close(e) => {
            assert_eq!(e, GatewayError::AlreadyAuthenticated);
            assert_eq!(e.to_close_reason().code, 4005);
        }
        other => panic!("expected a close, got {}", kind(&other)),
    }
    // the first connection and its registration are untouched
    assert!(reg.is_online(1));
    assert!(first.current_user().is_ok());
    assert!(second.current_user().is_err());
}

#[test]
fn failed_authentication_closes_with_4004() {
    let mut reg = ConnectionRegistry::new();
    let mut conn = GatewayConnection::new("s1".to_string());
    match conn.step(GatewayInput::Packet(identify(), None), &mut reg) {
        StepResult::Close(e) => {
            assert_eq!(e, GatewayError::AuthenticationFail);
            assert_eq!(e.to_close_reason().code, 4004);
        }
        other => panic!("expected a close, got {}", kind(&other)),
    }
}

#[test]
fn reidentification_closes_the_connection() {
    let mut reg = ConnectionRegistry::new();
    let mut conn = GatewayConnection::new("s1".to_string());
    authenticate(&mut conn, &mut reg, user(1, "u1"));
    match conn.step(GatewayInput::Packet(identify(), Some(user(1, "u1"))), &mut reg) {
        StepResult::Close(e) => assert_eq!(e, GatewayError::AlreadyAuthenticated),
        other => panic!("expected a close, got {}", kind(&other)),
    }
    // the close deregistered the user
    assert!(!reg.is_online(1));
}

#[test]
fn ready_snapshot_excludes_self() {
    let mut reg = ConnectionRegistry::new();
    let mut first = GatewayConnection::new("s1".to_string());
    authenticate(&mut first, &mut reg, user(1, "u1"));
    let mut second = GatewayConnection::new("s2".to_string());
    match second.step(GatewayInput::Packet(identify(), Some(user(2, "u2"))), &mut reg) {
        StepResult::Reply(OutgoingGatewayPacket::Event(GatewayEvent::Ready(ready))) => {
            assert_eq!(ready.user.id, Snowflake(2));
            let ids: Vec<i64> = ready.users.iter().map(|u| u.id.0).collect();
            assert_eq!(ids, vec![1]);
        }
        other => panic!("expected a Ready reply, got {}", kind(&other)),
    }
}

#[test]
fn global_event_reaches_authenticated_connection_with_payload() {
    // scenario: identify, then a REST collaborator publishes a global
    // message-create event
    let mut reg = ConnectionRegistry::new();
    let mut conn = GatewayConnection::new("s1".to_string());
    authenticate(&mut conn, &mut reg, user(1, "u1"));
    let message = Message::new(Snowflake(77), user(2, "author"), Snowflake(88), "hi there", None);
    let event = GatewayEvent::MessageCreate(message);
    match conn.step(GatewayInput::Broadcast(DispatchTarget::Global, event), &mut reg) {
        StepResult::Reply(OutgoingGatewayPacket::Event(GatewayEvent::MessageCreate(m))) => {
            assert_eq!(m.id, Snowflake(77));
            assert_eq!(m.thread_id, Snowflake(88));
            assert_eq!(m.content, "hi there");
            assert_eq!(m.author.id, Snowflake(2));
        }
        other => panic!("expected the event to be forwarded, got {}", kind(&other)),
    }
}

#[test]
fn global_event_skips_pending_connection() {
    let mut reg = ConnectionRegistry::new();
    let mut conn = GatewayConnection::new("s1".to_string());
    let event = GatewayEvent::ThreadDelete { thread_id: Snowflake(5) };
    match conn.step(GatewayInput::Broadcast(DispatchTarget::Global, event), &mut reg) {
        StepResult::Continue => {}
        other => panic!("expected the event to be dropped, got {}", kind(&other)),
    }
}

#[test]
fn user_targeted_event_reaches_only_that_user() {
    // scenario: two authenticated connections; an event targeted at the
    // second user reaches only the second connection
    let mut reg = ConnectionRegistry::new();
    let mut c1 = GatewayConnection::new("s1".to_string());
    let mut c2 = GatewayConnection::new("s2".to_string());
    authenticate(&mut c1, &mut reg, user(1, "u1"));
    authenticate(&mut c2, &mut reg, user(2, "u2"));

    let event = GatewayEvent::UserUpdate(user(2, "u2-renamed"));
    match c1.step(
        GatewayInput::Broadcast(DispatchTarget::User(Snowflake(2)), event),
        &mut reg,
    ) {
        StepResult::Continue => {}
        other => panic!("u1 must not receive u2's event, got {}", kind(&other)),
    }
    let event = GatewayEvent::UserUpdate(user(2, "u2-renamed"));
    match c2.step(
        GatewayInput::Broadcast(DispatchTarget::User(Snowflake(2)), event),
        &mut reg,
    ) {
        StepResult::Reply(OutgoingGatewayPacket::Event(GatewayEvent::UserUpdate(u))) => {
            assert_eq!(u.username, "u2-renamed");
        }
        other => panic!("u2 must receive its event, got {}", kind(&other)),
    }
}

#[test]
fn thread_targeted_event_is_dropped() {
    let mut reg = ConnectionRegistry::new();
    let mut conn = GatewayConnection::new("s1".to_string());
    authenticate(&mut conn, &mut reg, user(1, "u1"));
    let event = GatewayEvent::ThreadTypingStart { thread_id: Snowflake(3), user_id: Snowflake(9) };
    match conn.step(GatewayInput::Broadcast(DispatchTarget::Thread(Snowflake(3)), event), &mut reg)
    {
        StepResult::Continue => {}
        other => panic!("expected the event to be dropped, got {}", kind(&other)),
    }
}

#[test]
fn close_paths_deregister_the_user() {
    for input in [
        GatewayInput::Timeout,
        GatewayInput::ChannelClosed,
        GatewayInput::ChannelLagged,
        GatewayInput::MalformedFrame,
        GatewayInput::CloseFrame,
        GatewayInput::UnsupportedFrame,
        GatewayInput::StreamEnded,
    ] {
        let mut reg = ConnectionRegistry::new();
        let mut conn = GatewayConnection::new("s1".to_string());
        authenticate(&mut conn, &mut reg, user(1, "u1"));
        assert!(reg.is_online(1));
        let _ = conn.step(input, &mut reg);
        assert!(!reg.is_online(1), "every close path must deregister");
    }
}

#[test]
fn malformed_and_unsupported_frames_close_with_their_codes() {
    let mut reg = ConnectionRegistry::new();
    let mut conn = GatewayConnection::new("s1".to_string());
    match conn.step(GatewayInput::MalformedFrame, &mut reg) {
        StepResult::Close(e) => assert_eq!(e.to_close_reason().code, 4002),
        other => panic!("expected a close, got {}", kind(&other)),
    }
    let mut conn = GatewayConnection::new("s2".to_string());
    match conn.step(GatewayInput::UnsupportedFrame, &mut reg) {
        StepResult::Close(e) => assert_eq!(e.to_close_reason().code, 1003),
        other => panic!("expected a close, got {}", kind(&other)),
    }
}

#[test]
fn channel_lag_closes_the_connection() {
    let mut reg = ConnectionRegistry::new();
    let mut conn = GatewayConnection::new("s1".to_string());
    authenticate(&mut conn, &mut reg, user(1, "u1"));
    match conn.step(GatewayInput::ChannelLagged, &mut reg) {
        StepResult::Close(e) => assert_eq!(e, GatewayError::Closed),
        other => panic!("expected a close, got {}", kind(&other)),
    }
}

#[test]
fn publishing_without_subscribers_reports_and_never_blocks() {
    let d = Dispatcher::new(16);
    let event = GatewayEvent::ThreadDelete { thread_id: Snowflake(1) };
    assert_eq!(d.publish(DispatchTarget::Global, event), Err(DispatchError::NoSubscribers));
}

#[test]
fn published_events_reach_every_subscription() {
    let d = Dispatcher::new(16);
    let mut rx1 = d.subscribe();
    let mut rx2 = d.subscribe();
    let event = GatewayEvent::MessageDelete { thread_id: Snowflake(4), message_id: Snowflake(5) };
    assert!(d.publish(DispatchTarget::User(Snowflake(2)), event).is_ok());
    for rx in [&mut rx1, &mut rx2] {
        let (target, received) = rx.try_recv().expect("the event must be queued");
        assert_eq!(target, DispatchTarget::User(Snowflake(2)));
        match received {
            GatewayEvent::MessageDelete { thread_id, message_id } => {
                assert_eq!(thread_id, Snowflake(4));
                assert_eq!(message_id, Snowflake(5));
            }
            _ => panic!("wrong event payload"),
        }
    }
}

#[test]
fn every_error_maps_to_its_fixed_close_code() {
    assert_eq!(GatewayError::Closed.close_code(), 1000);
    assert_eq!(GatewayError::Inactive.close_code(), 1001);
    assert_eq!(GatewayError::UnsupportedMessageType.close_code(), 1003);
    assert_eq!(GatewayError::WebSocketError.close_code(), 4000);
    assert_eq!(GatewayError::UnknownError.close_code(), 4001);
    assert_eq!(GatewayError::Decode.close_code(), 4002);
    assert_eq!(GatewayError::NotAuthenticated.close_code(), 4003);
    assert_eq!(GatewayError::AuthenticationFail.close_code(), 4004);
    assert_eq!(GatewayError::AlreadyAuthenticated.close_code(), 4005);
    assert_eq!(GatewayError::RateLimited.close_code(), 4008);
    assert_eq!(
        GatewayError::AuthenticationFail.to_close_reason().description,
        "Authentication failed"
    );
    assert_eq!(
        GatewayError::UnsupportedMessageType.to_close_reason().description,
        "Unsupported message type"
    );
}

#[test]
fn stream_end_stops_without_close_frame() {
    let mut reg = ConnectionRegistry::new();
    let mut conn = GatewayConnection::new("s1".to_string());
    match conn.step(GatewayInput::StreamEnded, &mut reg) {
        StepResult::Stop => {}
        other => panic!("expected a stop, got {}", kind(&other)),
    }
}
