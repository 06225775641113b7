use bytes::Bytes;
use quic_p2p::{
    handle_communication_err, Context, Error, Event, EventChannel, IoErrorKind, PeerAddr,
    Registry,
};

fn v4(last: u32, port: u16) -> PeerAddr {
    PeerAddr::V4 { ipv4: 0x0a00_0000 + last, port }
}

fn context_with(peers: &[(PeerAddr, u32)]) -> Context<u32> {
    let mut connections = Registry::new();
    for (addr, conn) in peers {
        connections.insert(*addr, *conn);
    }
    Context { connections, event_tx: EventChannel::new() }
}

fn failure() -> Error {
    Error::Io(IoErrorKind::Other)
}

#[test]
fn failed_peer_leaves_the_registry() {
    let a = v4(1, 5000);
    let b = v4(2, 5000);
    let mut ctx = context_with(&[(a, 11), (b, 22)]);
    handle_communication_err(&mut ctx, a, &failure(), "send failed", None);
    assert!(!ctx.connections.contains(a));
    assert_eq!(ctx.connections.get(a), None);
    assert_eq!(ctx.connections.get(b), Some(&22));
    assert!(ctx.event_tx.take_queued().is_empty());
}

#[test]
fn undelivered_message_goes_back_as_an_event() {
    let a = v4(1, 5000);
    let mut ctx = context_with(&[(a, 11)]);
    let msg = Bytes::from_static(b"hello");
    handle_communication_err(&mut ctx, a, &failure(), "send failed", Some(msg.clone()));
    assert!(!ctx.connections.contains(a));
    let events = ctx.event_tx.take_queued();
    assert_eq!(events, vec![Event::UnsentUserMessage { peer_addr: a, msg }]);
    assert!(ctx.event_tx.take_queued().is_empty());
}

#[test]
fn events_keep_the_order_of_the_failures() {
    let a = v4(1, 5000);
    let b = v4(2, 5000);
    let mut ctx = context_with(&[(a, 11), (b, 22)]);
    handle_communication_err(&mut ctx, b, &failure(), "", Some(Bytes::from_static(b"second peer")));
    handle_communication_err(&mut ctx, a, &failure(), "", Some(Bytes::from_static(b"first peer")));
    let events = ctx.event_tx.take_queued();
    assert_eq!(
        events,
        vec![
            Event::UnsentUserMessage { peer_addr: b, msg: Bytes::from_static(b"second peer") },
            Event::UnsentUserMessage { peer_addr: a, msg: Bytes::from_static(b"first peer") },
        ]
    );
}

#[test]
fn absent_peer_is_handled_twice_alike() {
    let a = v4(1, 5000);
    let b = v4(2, 5000);
    let mut ctx = context_with(&[(b, 22)]);
    handle_communication_err(&mut ctx, a, &failure(), "first", None);
    assert!(!ctx.connections.contains(a));
    assert_eq!(ctx.connections.get(b), Some(&22));
    assert!(ctx.event_tx.take_queued().is_empty());
    handle_communication_err(&mut ctx, a, &failure(), "second", None);
    assert!(!ctx.connections.contains(a));
    assert_eq!(ctx.connections.get(b), Some(&22));
    assert!(ctx.event_tx.take_queued().is_empty());
}

#[test]
fn absent_peer_with_payload_gives_one_event_each_time() {
    let a = v4(1, 5000);
    let mut ctx = context_with(&[]);
    let msg = Bytes::from(vec![1u8, 2, 3]);
    handle_communication_err(&mut ctx, a, &failure(), "first", Some(msg.clone()));
    handle_communication_err(&mut ctx, a, &failure(), "second", Some(msg.clone()));
    assert!(!ctx.connections.contains(a));
    let events = ctx.event_tx.take_queued();
    assert_eq!(
        events,
        vec![
            Event::UnsentUserMessage { peer_addr: a, msg: msg.clone() },
            Event::UnsentUserMessage { peer_addr: a, msg },
        ]
    );
}

#[test]
fn event_is_dropped_without_a_receiver() {
    let a = v4(1, 5000);
    let mut ctx = context_with(&[(a, 11)]);
    ctx.event_tx.disconnect();
    handle_communication_err(&mut ctx, a, &failure(), "", Some(Bytes::from_static(b"lost")));
    assert!(!ctx.connections.contains(a));
    assert!(!ctx.event_tx.is_connected());
    assert!(ctx.event_tx.take_queued().is_empty());
}

#[test]
fn outcome_does_not_depend_on_the_error() {
    let a = v4(1, 5000);
    let mut one = context_with(&[(a, 11)]);
    let mut two = context_with(&[(a, 11)]);
    handle_communication_err(&mut one, a, &Error::Io(IoErrorKind::NotFound), "x", None);
    handle_communication_err(
        &mut two,
        a,
        &Error::Configuration("other".to_string()),
        "another detail",
        None,
    );
    assert_eq!(one.connections.contains(a), two.connections.contains(a));
    assert_eq!(one.event_tx.take_queued(), two.event_tx.take_queued());
}

#[test]
fn addresses_differ_by_each_part() {
    let base = PeerAddr::V6 { ipv6: 1, port: 9, flowinfo: 0, scope_id: 0 };
    let others = [
        PeerAddr::V6 { ipv6: 2, port: 9, flowinfo: 0, scope_id: 0 },
        PeerAddr::V6 { ipv6: 1, port: 10, flowinfo: 0, scope_id: 0 },
        PeerAddr::V6 { ipv6: 1, port: 9, flowinfo: 1, scope_id: 0 },
        PeerAddr::V6 { ipv6: 1, port: 9, flowinfo: 0, scope_id: 1 },
        PeerAddr::V4 { ipv4: 1, port: 9 },
    ];
    let mut ctx = context_with(&[(base, 0)]);
    for (i, other) in others.iter().enumerate() {
        ctx.connections.insert(*other, i as u32 + 1);
    }
    handle_communication_err(&mut ctx, base, &failure(), "", None);
    assert!(!ctx.connections.contains(base));
    for (i, other) in others.iter().enumerate() {
        assert_eq!(ctx.connections.get(*other), Some(&(i as u32 + 1)));
    }
}

#[test]
fn registry_starts_empty() {
    let registry: Registry<u32> = Registry::new();
    assert!(!registry.contains(v4(1, 1)));
    assert_eq!(registry.get(v4(1, 1)), None);
}

#[test]
fn registry_insert_replaces_and_returns_the_old_handle() {
    let a = v4(1, 1);
    let mut registry = Registry::new();
    assert_eq!(registry.insert(a, "old"), None);
    assert_eq!(registry.get(a), Some(&"old"));
    assert_eq!(registry.insert(a, "new"), Some("old"));
    assert_eq!(registry.get(a), Some(&"new"));
    assert_eq!(registry.remove(a), Some("new"));
    assert_eq!(registry.remove(a), None);
    assert!(!registry.contains(a));
}

#[test]
fn registry_remove_keeps_the_other_entries() {
    let mut registry = Registry::new();
    for i in 0..10u32 {
        assert_eq!(registry.insert(v4(i, 7), i), None);
    }
    assert_eq!(registry.remove(v4(4, 7)), Some(4));
    assert_eq!(registry.remove(v4(4, 8)), None);
    for i in 0..10u32 {
        if i == 4 {
            assert!(!registry.contains(v4(i, 7)));
        } else {
            assert_eq!(registry.get(v4(i, 7)), Some(&i));
        }
    }
}

#[test]
fn channel_hands_events_out_in_order_once() {
    let a = v4(1, 1);
    let mut channel = EventChannel::new();
    assert!(channel.is_connected());
    for i in 0..3u8 {
        let event = Event::UnsentUserMessage { peer_addr: a, msg: Bytes::from(vec![i]) };
        assert_eq!(channel.send(event), Ok(()));
    }
    let events = channel.take_queued();
    assert_eq!(events.len(), 3);
    for (i, event) in events.iter().enumerate() {
        assert_eq!(
            *event,
            Event::UnsentUserMessage { peer_addr: a, msg: Bytes::from(vec![i as u8]) }
        );
    }
    assert!(channel.take_queued().is_empty());
    assert!(channel.is_connected());
}

#[test]
fn channel_without_receiver_gives_the_event_back() {
    let a = v4(1, 1);
    let mut channel = EventChannel::new();
    assert_eq!(
        channel.send(Event::UnsentUserMessage { peer_addr: a, msg: Bytes::from_static(b"kept") }),
        Ok(())
    );
    channel.disconnect();
    assert!(!channel.is_connected());
    assert!(channel.take_queued().is_empty());
    let late = Event::UnsentUserMessage { peer_addr: a, msg: Bytes::from_static(b"x") };
    let back = channel.send(late);
    assert_eq!(
        back,
        Err(Event::UnsentUserMessage { peer_addr: a, msg: Bytes::from_static(b"x") })
    );
    assert!(channel.take_queued().is_empty());
}
