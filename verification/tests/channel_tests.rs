use message_threads::channel::{Channel, ReceiveError, SendError};
use message_threads::message::{ActorId, Message};

#[test]
fn new_channel_is_open_and_empty() {
    let channel = Channel::new();
    assert!(channel.is_open());
    assert!(channel.is_empty());
    assert_eq!(channel.len(), 0);
}

#[test]
fn first_sent_is_first_received() {
    let mut channel = Channel::new();
    for seq in 1..=5u64 {
        assert_eq!(channel.send(Message::greeting(ActorId::A, seq)), Ok(()));
    }
    assert_eq!(channel.len(), 5);
    for seq in 1..=5u64 {
        let got = channel.receive_with_timeout(1000, 0);
        assert_eq!(got, Ok(Message::greeting(ActorId::A, seq)));
    }
    assert!(channel.is_empty());
}

#[test]
fn order_holds_when_sends_and_receives_alternate() {
    let mut channel = Channel::new();
    channel.send(Message::new(ActorId::B, 1, String::from("one"))).unwrap();
    channel.send(Message::new(ActorId::B, 2, String::from("two"))).unwrap();
    assert_eq!(channel.receive_with_timeout(10, 0).unwrap().payload, "one");
    channel.send(Message::new(ActorId::B, 3, String::from("three"))).unwrap();
    assert_eq!(channel.receive_with_timeout(10, 0).unwrap().payload, "two");
    assert_eq!(channel.receive_with_timeout(10, 0).unwrap().payload, "three");
    assert_eq!(channel.receive_with_timeout(10, 10), Err(ReceiveError::TimedOut));
}

#[test]
fn message_is_delivered_whole() {
    let mut channel = Channel::new();
    let sent = Message::new(ActorId::A, 9, String::from("a longer text, with a comma"));
    let copy = sent.duplicate();
    channel.send(sent).unwrap();
    assert_eq!(channel.receive_with_timeout(1, 0), Ok(copy));
}

#[test]
fn send_fails_with_peer_closed_once_the_receiver_is_gone() {
    let mut channel = Channel::new();
    channel.send(Message::greeting(ActorId::A, 1)).unwrap();
    channel.close_receiver();
    assert!(!channel.is_open());
    assert_eq!(channel.send(Message::greeting(ActorId::A, 2)), Err(SendError::PeerClosed));
    assert_eq!(channel.len(), 1);
}

#[test]
fn receive_goes_on_waiting_before_the_timeout() {
    let mut channel = Channel::new();
    assert_eq!(channel.receive_with_timeout(1000, 0), Err(ReceiveError::StillWaiting));
    assert_eq!(channel.receive_with_timeout(1000, 999), Err(ReceiveError::StillWaiting));
}

#[test]
fn receive_times_out_at_the_timeout_and_after() {
    let mut channel = Channel::new();
    assert_eq!(channel.receive_with_timeout(1000, 1000), Err(ReceiveError::TimedOut));
    assert_eq!(channel.receive_with_timeout(1000, 5000), Err(ReceiveError::TimedOut));
    assert_eq!(channel.receive_with_timeout(0, 0), Err(ReceiveError::TimedOut));
    assert_eq!(channel.receive_with_timeout(u64::MAX, u64::MAX), Err(ReceiveError::TimedOut));
}

#[test]
fn a_message_is_handed_out_even_after_the_timeout() {
    let mut channel = Channel::new();
    channel.send(Message::greeting(ActorId::B, 1)).unwrap();
    assert_eq!(channel.receive_with_timeout(1000, 2000), Ok(Message::greeting(ActorId::B, 1)));
}

#[test]
fn a_timeout_leaves_the_queue_as_it_is() {
    let mut channel = Channel::new();
    assert_eq!(channel.receive_with_timeout(5, 5), Err(ReceiveError::TimedOut));
    channel.send(Message::greeting(ActorId::A, 1)).unwrap();
    assert_eq!(channel.len(), 1);
    assert_eq!(channel.receive_with_timeout(5, 0), Ok(Message::greeting(ActorId::A, 1)));
}

#[test]
fn the_channel_has_no_capacity_limit() {
    let mut channel = Channel::new();
    for seq in 1..=10_000u64 {
        assert_eq!(channel.send(Message::greeting(ActorId::A, seq)), Ok(()));
    }
    assert_eq!(channel.len(), 10_000);
    assert_eq!(channel.receive_with_timeout(1, 0).unwrap().seq, 1);
}
