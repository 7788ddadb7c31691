use embassy_litex::time_driver::TimeDriver;
use std::sync::atomic::{AtomicUsize, Ordering};
use std::sync::Arc;
use std::task::{Wake, Waker};

struct Flag(AtomicUsize);

impl Wake for Flag {
    fn wake(self: Arc<Self>) {
        self.0.fetch_add(1, Ordering::SeqCst);
    }
}

fn waker() -> (Arc<Flag>, Waker) {
    let f = Arc::new(Flag(AtomicUsize::new(0)));
    (f.clone(), Waker::from(f))
}

fn woken(f: &Arc<Flag>) -> usize {
    f.0.load(Ordering::SeqCst)
}

/// Re-arms the way the timer interrupt does, with the clock standing at `now`.
fn rearm(d: &mut TimeDriver, now: u64) {
    while !d.on_interrupt(now, now) {}
}

#[test]
fn new_driver_is_disarmed() {
    let d = TimeDriver::new();
    assert_eq!(d.alarm(), u64::MAX);
}

#[test]
fn three_deadlines_fire_in_order() {
    let mut d = TimeDriver::new();
    let (f100, w100) = waker();
    let (f50, w50) = waker();
    let (f200, w200) = waker();
    let mut now = 0;
    if d.schedule_wake(100, &w100) {
        rearm(&mut d, now);
    }
    assert_eq!(d.alarm(), 100);
    if d.schedule_wake(50, &w50) {
        rearm(&mut d, now);
    }
    assert_eq!(d.alarm(), 50);
    if d.schedule_wake(200, &w200) {
        rearm(&mut d, now);
    }
    assert_eq!(d.alarm(), 50);
    now = 60;
    rearm(&mut d, now);
    assert_eq!(woken(&f50), 1);
    assert_eq!(woken(&f100), 0);
    assert_eq!(woken(&f200), 0);
    assert_eq!(d.alarm(), 100);
}

#[test]
fn due_deadline_fires_on_next_pass() {
    let mut d = TimeDriver::new();
    let (f, w) = waker();
    let now = 500;
    assert!(d.schedule_wake(400, &w));
    assert_eq!(woken(&f), 0);
    assert!(d.on_interrupt(now, now));
    assert_eq!(woken(&f), 1);
    assert_eq!(d.alarm(), u64::MAX);
}

#[test]
fn deadline_equal_to_clock_is_due() {
    let mut d = TimeDriver::new();
    let (f, w) = waker();
    assert!(d.schedule_wake(70, &w));
    assert_eq!(d.next_expiration(70), u64::MAX);
    assert_eq!(woken(&f), 1);
}

#[test]
fn rescheduling_same_waker_keeps_earlier_deadline() {
    let mut d = TimeDriver::new();
    let (f, w) = waker();
    assert!(d.schedule_wake(300, &w));
    assert!(!d.schedule_wake(400, &w));
    assert!(d.schedule_wake(200, &w));
    assert_eq!(d.next_expiration(0), 200);
    assert_eq!(d.next_expiration(250), u64::MAX);
    assert_eq!(woken(&f), 1);
}

#[test]
fn set_alarm_refuses_the_past() {
    let mut d = TimeDriver::new();
    assert!(!d.set_alarm(10, 10));
    assert!(!d.set_alarm(5, 10));
    assert_eq!(d.alarm(), u64::MAX);
    assert!(d.set_alarm(11, 10));
    assert_eq!(d.alarm(), 11);
}

#[test]
fn failed_arm_is_retried_with_a_fresh_clock() {
    let mut d = TimeDriver::new();
    let (f, w) = waker();
    assert!(d.schedule_wake(100, &w));
    // The clock passes the deadline between expiring and arming.
    assert!(!d.on_interrupt(90, 120));
    assert_eq!(woken(&f), 0);
    assert!(d.on_interrupt(120, 121));
    assert_eq!(woken(&f), 1);
    assert_eq!(d.alarm(), u64::MAX);
}

#[test]
fn repeated_insertions_arm_minimum() {
    let mut d = TimeDriver::new();
    let deadlines = [900u64, 300, 700, 100, 500];
    let mut flags = Vec::new();
    let mut min = u64::MAX;
    for at in deadlines {
        let (f, w) = waker();
        flags.push(f);
        if d.schedule_wake(at, &w) {
            rearm(&mut d, 0);
        }
        min = min.min(at);
        assert_eq!(d.alarm(), min);
    }
    rearm(&mut d, 300);
    assert_eq!(d.alarm(), 500);
    assert_eq!(flags.iter().filter(|f| woken(f) == 1).count(), 2);
}

#[test]
fn full_queue_wakes_a_timer_to_make_room() {
    let mut d = TimeDriver::new();
    let mut flags = Vec::new();
    for i in 0..16u64 {
        let (f, w) = waker();
        flags.push(f);
        assert!(d.schedule_wake(1000 + i, &w));
    }
    let (extra, w) = waker();
    assert!(d.schedule_wake(5000, &w));
    assert_eq!(flags.iter().map(|f| woken(f)).sum::<usize>(), 1);
    assert_eq!(woken(&extra), 0);
}
