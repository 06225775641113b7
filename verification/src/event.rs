//! What the library reports to its user, and the channel it reports on.

use crate::peer::PeerAddr;
use bytes::Bytes;
use vstd::prelude::*;

verus! {

/// `bytes::Bytes`, the bytes of a message. The library hands such a value on
/// and never looks inside it, so nothing is claimed of it.
#[verifier::external_type_specification]
#[verifier::external_body]
pub struct ExBytes(bytes::Bytes);

/// Something the user of the library is told about.
#[derive(Debug, PartialEq, Eq)]
pub enum Event {
    /// A message for `peer_addr` that could not be delivered before the
    /// connection to that peer failed. It goes back to the user.
    UnsentUserMessage { peer_addr: PeerAddr, msg: Bytes },
}

/// The sending side of the event channel, as the library sees it: the events
/// that were submitted and not yet taken by the user, oldest first, and
/// whether anyone is still there to take them.
pub struct EventChannel {
    queued: Vec<Event>,
    connected: bool,
}

impl EventChannel {
    /// The events submitted and not yet taken, oldest first.
    pub closed spec fn queued(&self) -> Seq<Event> {
        self.queued@
    }

    /// Whether a receiver is left.
    pub closed spec fn connected(&self) -> bool {
        self.connected
    }

    /// A channel with a receiver and nothing queued.
    pub fn new() -> (channel: Self)
        ensures
            channel.connected(),
            channel.queued() == Seq::<Event>::empty(),
    {
        EventChannel { queued: Vec::new(), connected: true }
    }

    /// Whether a receiver is left.
    pub fn is_connected(&self) -> (connected: bool)
        ensures
            connected == self.connected(),
    {
        self.connected
    }

    /// Submits an event. With a receiver left the event joins the queue;
    /// without one the channel stays as it is and the event comes back.
    pub fn send(&mut self, event: Event) -> (res: Result<(), Event>)
        ensures
            final(self).connected() == old(self).connected(),
            old(self).connected() ==> res is Ok && final(self).queued() == old(self).queued().push(
                event,
            ),
            !old(self).connected() ==> res == Err::<(), Event>(event) && final(self).queued()
                == old(self).queued(),
    {
        if self.connected {
            self.queued.push(event);
            Ok(())
        } else {
            Err(event)
        }
    }

    /// Takes the queued events out, oldest first, as the receiver does.
    pub fn take_queued(&mut self) -> (events: Vec<Event>)
        ensures
            events@ == old(self).queued(),
            final(self).queued() == Seq::<Event>::empty(),
            final(self).connected() == old(self).connected(),
    {
        let mut events = Vec::new();
        std::mem::swap(&mut events, &mut self.queued);
        events
    }

    /// Records that the receiver is gone. What was queued goes with it.
    pub fn disconnect(&mut self)
        ensures
            !final(self).connected(),
            final(self).queued() == Seq::<Event>::empty(),
    {
        self.queued = Vec::new();
        self.connected = false;
    }
}

} // verus!
