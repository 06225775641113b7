//! The state that the connection manager shares with the failure handler,
//! and the handler itself.

use crate::error::Error;
use crate::event::{Event, EventChannel};
use crate::peer::PeerAddr;
use crate::registry::Registry;
use bytes::Bytes;
use vstd::prelude::*;

verus! {

/// The shared state: the connection registry and the sending side of the
/// event channel. Whoever holds it mutably has it to themselves, so every
/// change made through one `&mut Context` is seen whole by the next holder.
pub struct Context<C> {
    pub connections: Registry<C>,
    pub event_tx: EventChannel,
}

/// A `Context` as plain values.
#[verifier::ext_equal]
pub struct ContextView<C> {
    /// The connection of each peer that has one.
    pub connections: Map<PeerAddr, C>,
    /// The events submitted and not yet taken, oldest first.
    pub queued: Seq<Event>,
    /// Whether the event channel has a receiver left.
    pub connected: bool,
}

impl<C> View for Context<C> {
    type V = ContextView<C>;

    open spec fn view(&self) -> ContextView<C> {
        ContextView {
            connections: self.connections@,
            queued: self.event_tx.queued(),
            connected: self.event_tx.connected(),
        }
    }
}

/// The events that a failure gives rise to: one that returns the undelivered
/// message, where there is such a message, and none otherwise.
pub open spec fn failure_events(peer_addr: PeerAddr, unsent_user_msg: Option<Bytes>) -> Seq<
    Event,
> {
    match unsent_user_msg {
        Some(msg) => seq![Event::UnsentUserMessage { peer_addr, msg }],
        None => Seq::empty(),
    }
}

/// The shared state after a failure in the communication with `peer_addr`
/// was handled.
///
/// The peer has no connection any more. The failure's events are queued
/// behind those already there; without a receiver they are dropped.
pub open spec fn after_failure<C>(
    pre: ContextView<C>,
    peer_addr: PeerAddr,
    unsent_user_msg: Option<Bytes>,
) -> ContextView<C> {
    ContextView {
        connections: pre.connections.remove(peer_addr),
        queued: if pre.connected {
            pre.queued + failure_events(peer_addr, unsent_user_msg)
        } else {
            pre.queued
        },
        connected: pre.connected,
    }
}

/// Cleans up after a failure in the communication with a peer.
///
/// The peer's connection is taken out of the registry; that it had none is
/// no error. A message that could not be delivered is returned to the user
/// as an event, or dropped where nobody listens for events. The failure
/// itself, `e` with its `details`, was reported where it happened: it does
/// not change what is done here, and the handler has no failure of its own.
#[allow(unused_variables)]
pub fn handle_communication_err<C>(
    ctx: &mut Context<C>,
    peer_addr: PeerAddr,
    e: &Error,
    details: &str,
    unsent_user_msg: Option<Bytes>,
)
    ensures
        final(ctx)@ == after_failure(old(ctx)@, peer_addr, unsent_user_msg),
{
    let _ = ctx.connections.remove(peer_addr);
    if let Some(msg) = unsent_user_msg {
        let _ = ctx.event_tx.send(Event::UnsentUserMessage { peer_addr, msg });
    }
    assert(ctx@ =~= after_failure(old(ctx)@, peer_addr, unsent_user_msg));
}

/// Handling a failure for a peer that has no connection leaves the registry
/// as it is, however often it is done: after a first and a second failure
/// for such a peer the registry is the one from before, and the queue has
/// grown by the events of the two failures and nothing else.
pub proof fn lemma_failure_of_absent_peer<C>(
    pre: ContextView<C>,
    peer_addr: PeerAddr,
    first: Option<Bytes>,
    second: Option<Bytes>,
)
    requires
        !pre.connections.contains_key(peer_addr),
    ensures
        after_failure(pre, peer_addr, first).connections == pre.connections,
        ({
            let twice = after_failure(after_failure(pre, peer_addr, first), peer_addr, second);
            &&& twice.connections == pre.connections
            &&& twice.connected == pre.connected
            &&& twice.queued == if pre.connected {
                pre.queued + failure_events(peer_addr, first) + failure_events(peer_addr, second)
            } else {
                pre.queued
            }
        }),
{
    assert(pre.connections.remove(peer_addr) =~= pre.connections);
}

/// Handling a failure twice removes no more than handling it once: whatever
/// the registry held, the second handling leaves it as the first did.
pub proof fn lemma_failure_removal_idempotent<C>(
    pre: ContextView<C>,
    peer_addr: PeerAddr,
    first: Option<Bytes>,
    second: Option<Bytes>,
)
    ensures
        !after_failure(pre, peer_addr, first).connections.contains_key(peer_addr),
        after_failure(after_failure(pre, peer_addr, first), peer_addr, second).connections
            == after_failure(pre, peer_addr, first).connections,
{
    let once = pre.connections.remove(peer_addr);
    assert(once.remove(peer_addr) =~= once);
}

/// A failure touches no other peer: every other address keeps its connection,
/// or stays without one.
pub proof fn lemma_failure_keeps_other_peers<C>(
    pre: ContextView<C>,
    peer_addr: PeerAddr,
    unsent_user_msg: Option<Bytes>,
    other: PeerAddr,
)
    requires
        other != peer_addr,
    ensures
        after_failure(pre, peer_addr, unsent_user_msg).connections.contains_key(other)
            == pre.connections.contains_key(other),
        pre.connections.contains_key(other) ==> after_failure(
            pre,
            peer_addr,
            unsent_user_msg,
        ).connections[other] == pre.connections[other],
{
}

} // verus!
