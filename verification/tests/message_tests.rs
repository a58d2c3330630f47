use message_threads::message::{decimal, ActorId, Message};

#[test]
fn decimal_of_single_digits() {
    assert_eq!(decimal(0), "0");
    assert_eq!(decimal(7), "7");
    assert_eq!(decimal(9), "9");
}

#[test]
fn decimal_of_longer_numbers() {
    assert_eq!(decimal(10), "10");
    assert_eq!(decimal(405), "405");
    assert_eq!(decimal(1_000_000), "1000000");
    assert_eq!(decimal(u64::MAX), "18446744073709551615");
}

#[test]
fn decimal_agrees_with_the_standard_library() {
    let mut n: u64 = 1;
    for _ in 0..19 {
        assert_eq!(decimal(n), n.to_string());
        assert_eq!(decimal(n - 1), (n - 1).to_string());
        n *= 10;
    }
}

#[test]
fn actors_are_numbered_one_and_two() {
    assert_eq!(ActorId::A.ordinal(), 1);
    assert_eq!(ActorId::B.ordinal(), 2);
}

#[test]
fn each_actor_is_the_peer_of_the_other() {
    assert_eq!(ActorId::A.peer(), ActorId::B);
    assert_eq!(ActorId::B.peer(), ActorId::A);
    assert_eq!(ActorId::A.peer().peer(), ActorId::A);
}

#[test]
fn greeting_of_the_first_actor() {
    let m = Message::greeting(ActorId::A, 1);
    assert_eq!(m.sender, ActorId::A);
    assert_eq!(m.seq, 1);
    assert_eq!(m.payload, "Hello from Thread 1! (message 1)");
}

#[test]
fn greeting_of_the_second_actor() {
    let m = Message::greeting(ActorId::B, 12);
    assert_eq!(m.sender, ActorId::B);
    assert_eq!(m.seq, 12);
    assert_eq!(m.payload, "Hello from Thread 2! (message 12)");
}

#[test]
fn new_keeps_tags_and_text() {
    let m = Message::new(ActorId::B, 3, String::from("anything at all"));
    assert_eq!(m.sender, ActorId::B);
    assert_eq!(m.seq, 3);
    assert_eq!(m.payload, "anything at all");
}

#[test]
fn duplicate_is_equal_to_the_message_it_was_made_from() {
    let m = Message::greeting(ActorId::A, 44);
    let copy = m.duplicate();
    assert_eq!(copy, m);
    assert_eq!(copy.payload, "Hello from Thread 1! (message 44)");
}
