//! The process-wide broadcast dispatcher: any producer publishes a
//! `(target, event)` pair, and every live connection filters the stream
//! against its own authentication state.
//!
//! The bus is tokio's broadcast channel. Publishing never blocks and is
//! best-effort: with no subscriber the pair is dropped and the publisher
//! told so; a subscriber that falls behind the channel's capacity loses
//! events and learns of it on its own receiving end.

use vstd::prelude::*;

verus! {

use crate::DispatchTarget;
use crate::models::gateway::GatewayEvent;

#[verifier::external_type_specification]
#[verifier::external_body]
#[verifier::reject_recursive_types(T)]
pub struct ExSender<T>(tokio::sync::broadcast::Sender<T>);

#[verifier::external_type_specification]
#[verifier::external_body]
#[verifier::reject_recursive_types(T)]
pub struct ExReceiver<T>(tokio::sync::broadcast::Receiver<T>);

#[verifier::external_type_specification]
#[verifier::external_body]
#[verifier::reject_recursive_types(T)]
pub struct ExSendError<T>(tokio::sync::broadcast::error::SendError<T>);

/// The failure publishing can end in: nobody is currently subscribed, so
/// the event was dropped. Delivery is best-effort, so callers may ignore
/// it.
#[derive(PartialEq, Eq, Structural, Copy, Clone, Debug)]
pub enum DispatchError {
    NoSubscribers,
}

/// Relies on tokio's broadcast `Sender::new`: a channel that keeps up to
/// `capacity` events per lagging receiver. It panics on a zero or
/// excessive capacity, which the bound excludes.
#[verifier::external_body]
fn bus_new(capacity: usize) -> tokio::sync::broadcast::Sender<(DispatchTarget, GatewayEvent)>
    requires
        1 <= capacity <= 0x4000_0000,
{
    tokio::sync::broadcast::Sender::new(capacity)
}

/// Relies on tokio's broadcast `Sender::send`: never blocks, hands the
/// value to every current subscriber's queue, and errs exactly when no
/// subscriber exists.
#[verifier::external_body]
fn bus_send(
    channel: &tokio::sync::broadcast::Sender<(DispatchTarget, GatewayEvent)>,
    message: (DispatchTarget, GatewayEvent),
) -> Result<usize, tokio::sync::broadcast::error::SendError<(DispatchTarget, GatewayEvent)>> {
    channel.send(message)
}

/// Relies on tokio's broadcast `Sender::subscribe`: a fresh receiving end
/// that observes every pair published after this call.
#[verifier::external_body]
fn bus_subscribe(
    channel: &tokio::sync::broadcast::Sender<(DispatchTarget, GatewayEvent)>,
) -> tokio::sync::broadcast::Receiver<(DispatchTarget, GatewayEvent)> {
    channel.subscribe()
}

/// The fan-out bus shared by every producer and every gateway
/// connection.
pub struct Dispatcher {
    channel: tokio::sync::broadcast::Sender<(DispatchTarget, GatewayEvent)>,
}

impl Dispatcher {
    /// A fresh bus holding up to `capacity` undelivered events per
    /// subscriber.
    pub fn new(capacity: usize) -> Dispatcher
        requires
            1 <= capacity <= 0x4000_0000,
    {
        Dispatcher { channel: bus_new(capacity) }
    }

    /// Publish an event for a routing target. Never blocks; with no
    /// subscriber the event is dropped and the only possible error says
    /// so.
    pub fn publish(&self, to: DispatchTarget, event: GatewayEvent) -> (r: Result<
        (),
        DispatchError,
    >)
        ensures
            r is Err ==> r == Err::<(), DispatchError>(DispatchError::NoSubscribers),
    {
        match bus_send(&self.channel, (to, event)) {
            Ok(_) => Ok(()),
            Err(_) => Err(DispatchError::NoSubscribers),
        }
    }

    /// A fresh subscription that observes every pair published from now
    /// on; each gateway connection holds one.
    pub fn subscribe(&self) -> tokio::sync::broadcast::Receiver<(DispatchTarget, GatewayEvent)> {
        bus_subscribe(&self.channel)
    }
}

} // verus!
