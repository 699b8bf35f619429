use portal_core::websocket::address::Address;
use portal_core::websocket::frame::{process_message, receive, CloseFrame, Message, ReadError};
use portal_core::websocket::manager::{SendOutcome, WebSocketManager};
use portal_core::websocket::push::{push_message, push_reply};
use std::ops::ControlFlow;

fn peer() -> Address {
    Address::v4([127, 0, 0, 1], 9001)
}

fn frames() -> Vec<Message> {
    vec![
        Message::Text("hi".to_string()),
        Message::Binary(vec![1, 2, 3]),
        Message::Ping(vec![]),
        Message::Pong(vec![9]),
    ]
}

/// Writes a message to a channel that keeps what it was sent, unless the
/// channel is closed.
fn write(channel: &mut (bool, Vec<String>), msg: Message) -> bool {
    match msg {
        Message::Text(text) if channel.0 => {
            channel.1.push(text);
            true
        }
        _ => false,
    }
}

fn push(manager: &mut WebSocketManager<(bool, Vec<String>)>, address: Address) -> SendOutcome {
    match manager.send_to_client(address) {
        Some(channel) => SendOutcome::report(true, write(channel, push_message())),
        None => SendOutcome::report(false, false),
    }
}

#[test]
fn address_is_its_octets_and_port() {
    assert_eq!(peer(), Address::V4 { ip: 0x7F00_0001, port: 9001 });
    assert_eq!(Address::v4([255, 255, 255, 255], 65535), Address::V4 { ip: u32::MAX, port: 65535 });
    assert_eq!(Address::v4([0, 0, 0, 0], 0), Address::V4 { ip: 0, port: 0 });
    assert_eq!(Address::v4([1, 2, 3, 4], 80), Address::V4 { ip: 0x0102_0304, port: 80 });
    assert_ne!(Address::v4([127, 0, 0, 1], 9001), Address::v4([127, 0, 0, 1], 9002));
    assert_ne!(
        Address::V6 { ip: 1, port: 9001, flowinfo: 0, scope_id: 0 },
        Address::V6 { ip: 1, port: 9001, flowinfo: 0, scope_id: 1 }
    );
}

#[test]
fn new_registry_is_empty() {
    let manager: WebSocketManager<u8> = WebSocketManager::new();
    assert_eq!(manager.len(), 0);
    assert!(!manager.has_client(peer()));
    let manager: WebSocketManager<u8> = WebSocketManager::default();
    assert_eq!(manager.len(), 0);
}

#[test]
fn outcome_is_named_from_lookup_and_write() {
    assert_eq!(SendOutcome::report(true, true), SendOutcome::Sent);
    assert_eq!(SendOutcome::report(true, false), SendOutcome::SendFailed);
    assert_eq!(SendOutcome::report(false, true), SendOutcome::NotFound);
    assert_eq!(SendOutcome::report(false, false), SendOutcome::NotFound);
}

#[test]
fn registered_peer_is_reached() {
    let mut manager = WebSocketManager::new();
    manager.add_client(peer(), (true, Vec::new()));
    assert!(manager.has_client(peer()));
    assert_eq!(manager.len(), 1);
    assert_eq!(push(&mut manager, peer()), SendOutcome::Sent);
}

#[test]
fn closed_channel_fails_the_send_and_stays_registered() {
    let mut manager = WebSocketManager::new();
    manager.add_client(peer(), (false, Vec::new()));
    assert_eq!(push(&mut manager, peer()), SendOutcome::SendFailed);
    assert!(manager.has_client(peer()));
    assert_eq!(manager.len(), 1);
    assert_eq!(push(&mut manager, peer()), SendOutcome::SendFailed);
}

#[test]
fn unregistered_peer_is_not_found() {
    let mut manager = WebSocketManager::new();
    assert_eq!(push(&mut manager, peer()), SendOutcome::NotFound);
    manager.add_client(peer(), (true, Vec::new()));
    manager.remove_client(peer());
    assert_eq!(push(&mut manager, peer()), SendOutcome::NotFound);
    assert_eq!(manager.len(), 0);
}

#[test]
fn unregistering_an_unknown_peer_changes_nothing() {
    let mut manager = WebSocketManager::new();
    manager.remove_client(peer());
    assert_eq!(manager.len(), 0);
    let other = Address::v4([10, 0, 0, 1], 9001);
    manager.add_client(other, (true, Vec::new()));
    manager.remove_client(peer());
    manager.remove_client(peer());
    assert_eq!(manager.len(), 1);
    assert!(manager.has_client(other));
    assert_eq!(push(&mut manager, other), SendOutcome::Sent);
}

#[test]
fn registering_again_supersedes_the_channel() {
    let mut manager = WebSocketManager::new();
    manager.add_client(peer(), 1u8);
    manager.add_client(peer(), 2u8);
    assert_eq!(manager.len(), 1);
    assert_eq!(manager.send_to_client(peer()), Some(&mut 2u8));
}

#[test]
fn peers_are_kept_apart() {
    let mut manager = WebSocketManager::new();
    let peers = [
        Address::v4([127, 0, 0, 1], 9001),
        Address::v4([127, 0, 0, 1], 9002),
        Address::v4([127, 0, 0, 2], 9001),
        Address::V6 { ip: 1, port: 9001, flowinfo: 0, scope_id: 0 },
        Address::V6 { ip: 1, port: 9001, flowinfo: 5, scope_id: 0 },
    ];
    for (i, p) in peers.iter().enumerate() {
        manager.add_client(*p, i);
    }
    assert_eq!(manager.len(), 5);
    for (i, p) in peers.iter().enumerate() {
        assert_eq!(manager.send_to_client(*p).copied(), Some(i));
    }
    manager.remove_client(peers[1]);
    assert_eq!(manager.len(), 4);
    for (i, p) in peers.iter().enumerate() {
        assert_eq!(manager.send_to_client(*p).copied(), if i == 1 { None } else { Some(i) });
    }
}

#[test]
fn write_through_the_channel_is_kept() {
    let mut manager = WebSocketManager::new();
    manager.add_client(peer(), 0u32);
    *manager.send_to_client(peer()).unwrap() += 5;
    *manager.send_to_client(peer()).unwrap() += 5;
    assert_eq!(manager.send_to_client(peer()), Some(&mut 10u32));
}

#[test]
fn close_frame_breaks_the_loop() {
    assert_eq!(process_message(&Message::Close(None)), ControlFlow::Break(()));
    let frame = CloseFrame { code: 1000, reason: "bye".to_string() };
    assert_eq!(process_message(&Message::Close(Some(frame))), ControlFlow::Break(()));
}

#[test]
fn other_frames_are_observed() {
    for frame in frames() {
        assert_eq!(process_message(&frame), ControlFlow::Continue(()));
    }
}

#[test]
fn read_ends_the_session_on_close_error_and_end() {
    assert_eq!(receive(&None), ControlFlow::Break(()));
    assert_eq!(receive(&Some(Err(ReadError))), ControlFlow::Break(()));
    assert_eq!(receive(&Some(Ok(Message::Close(None)))), ControlFlow::Break(()));
    for frame in frames() {
        assert_eq!(receive(&Some(Ok(frame))), ControlFlow::Continue(()));
    }
}

#[test]
fn session_keeps_the_peer_until_it_ends() {
    for last in [None, Some(Err(ReadError)), Some(Ok(Message::Close(None)))] {
        let mut manager = WebSocketManager::new();
        manager.add_client(peer(), 1u8);
        for frame in frames() {
            assert_eq!(manager.handle_socket(peer(), &Some(Ok(frame))), ControlFlow::Continue(()));
            assert!(manager.has_client(peer()));
        }
        assert_eq!(manager.handle_socket(peer(), &last), ControlFlow::Break(()));
        assert!(!manager.has_client(peer()));
        assert_eq!(manager.len(), 0);
    }
}

#[test]
fn ending_one_session_leaves_the_others() {
    let mut manager = WebSocketManager::new();
    let other = Address::v4([127, 0, 0, 1], 9002);
    manager.add_client(peer(), 1u8);
    manager.add_client(other, 2u8);
    assert_eq!(manager.handle_socket(peer(), &None), ControlFlow::Break(()));
    assert!(manager.has_client(other));
    assert_eq!(manager.len(), 1);
}

#[test]
fn pushed_message_is_the_fixed_text() {
    match push_message() {
        Message::Text(text) => assert_eq!(text, "Hello, World!"),
        other => panic!("{:?}", other),
    }
}

#[test]
fn answer_shows_only_a_target_that_is_no_address() {
    assert_eq!(push_reply(None), "error: Invalid address format");
    assert_eq!(push_reply(Some(SendOutcome::Sent)), "status: Message sent");
    assert_eq!(push_reply(Some(SendOutcome::NotFound)), "status: Message sent");
    assert_eq!(push_reply(Some(SendOutcome::SendFailed)), "status: Message sent");
}

#[test]
fn connected_client_gets_the_push_and_a_gone_one_is_not_found() {
    let mut manager = WebSocketManager::new();
    let address = Address::v4([127, 0, 0, 1], 9001);

    manager.add_client(address, (true, Vec::new()));
    let outcome = push(&mut manager, address);
    assert_eq!(outcome, SendOutcome::Sent);
    assert_eq!(push_reply(Some(outcome)), "status: Message sent");
    let received = manager.send_to_client(address).unwrap().1.clone();
    assert_eq!(received, vec!["Hello, World!".to_string()]);

    let flow = manager.handle_socket(address, &Some(Ok(Message::Close(None))));
    assert_eq!(flow, ControlFlow::Break(()));

    let outcome = push(&mut manager, address);
    assert_eq!(outcome, SendOutcome::NotFound);
    assert_eq!(push_reply(Some(outcome)), "status: Message sent");
}
