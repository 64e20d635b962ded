use punch_clock::{PunchClock, StampingClock, Worker};

#[test]
fn stamping_clock_starts_at_zero() {
    let clock = StampingClock::new();
    assert_eq!(clock.total(), 0);
}

#[test]
fn punch_clock_starts_at_zero() {
    let clock = PunchClock::new();
    assert_eq!(clock.total(), 0);
}

#[test]
fn two_workers_total_twenty_five() {
    let mut clock: Option<StampingClock> = Some(StampingClock::new());
    let mut w1 = Worker::new();
    let mut w2 = Worker::new();
    w1.stamp(&mut clock, 10);
    w1.stamp(&mut clock, 5);
    w2.stamp(&mut clock, 10);
    assert_eq!(clock.unwrap().total(), 25);
}

#[test]
fn shared_clock_updates_visible_at_once() {
    let mut clock: Option<StampingClock> = Some(StampingClock::new());
    let mut w1 = Worker::new();
    let mut w2 = Worker::new();
    w1.stamp(&mut clock, 10);
    assert_eq!(clock.as_ref().unwrap().total(), 10);
    w2.stamp(&mut clock, 7);
    assert_eq!(clock.as_ref().unwrap().total(), 17);
}

#[test]
fn unbound_worker_stamp_is_noop() {
    let mut clock: Option<StampingClock> = None;
    let mut w = Worker::new();
    w.stamp(&mut clock, 10);
    assert!(clock.is_none());
}

#[test]
fn zero_stamp_is_noop() {
    let mut clock = StampingClock::new();
    clock.stamp(9);
    clock.stamp(0);
    assert_eq!(clock.total(), 9);

    let mut clock: Option<StampingClock> = Some(StampingClock::new());
    let mut w = Worker::new();
    w.stamp(&mut clock, 0);
    assert_eq!(clock.unwrap().total(), 0);
}

#[test]
fn punch_clock_accumulates() {
    let mut clock = PunchClock::new();
    clock.stamp(8);
    clock.stamp(4);
    assert_eq!(clock.total(), 12);
}

#[test]
fn stamp_all_adds_the_sum() {
    let quantities: Vec<u32> = vec![7, 0, 3, 5];
    let mut clock = StampingClock::new();
    clock.stamp_all(&quantities);
    assert_eq!(clock.total(), 15);

    let mut punch = PunchClock::new();
    punch.stamp(1);
    punch.stamp_all(&quantities);
    assert_eq!(punch.total(), 16);
}

#[test]
fn order_of_stamps_does_not_matter() {
    let mut a = StampingClock::new();
    a.stamp_all(&vec![10, 5, 10]);
    let mut b = StampingClock::new();
    b.stamp_all(&vec![5, 10, 10]);
    assert_eq!(a.total(), b.total());
}

#[test]
fn total_can_reach_the_maximum() {
    let mut clock = StampingClock::new();
    clock.stamp(u32::MAX - 1);
    clock.stamp(1);
    assert_eq!(clock.total(), u32::MAX);
}
