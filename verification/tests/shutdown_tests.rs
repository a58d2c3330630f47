use message_threads::shutdown::ShutdownFlag;

#[test]
fn new_flag_is_running() {
    let flag = ShutdownFlag::new();
    assert!(!flag.get());
}

#[test]
fn set_stops_the_flag_and_owes_the_notice() {
    let mut flag = ShutdownFlag::new();
    assert!(flag.set());
    assert!(flag.get());
}

#[test]
fn set_twice_is_set_once() {
    let mut once = ShutdownFlag::new();
    let notices_once = [once.set()];

    let mut twice = ShutdownFlag::new();
    let notices_twice = [twice.set(), twice.set()];

    assert_eq!(once.get(), twice.get());
    assert_eq!(notices_once.iter().filter(|n| **n).count(), 1);
    assert_eq!(notices_twice.iter().filter(|n| **n).count(), 1);
    assert_eq!(notices_twice, [true, false]);
}

#[test]
fn get_does_not_change_the_flag() {
    let flag = ShutdownFlag::new();
    assert!(!flag.get());
    assert!(!flag.get());
    let mut flag = flag;
    flag.set();
    assert!(flag.get());
    assert!(flag.get());
}
