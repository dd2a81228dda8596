//! Tests of the injectable clock used by the worker pair.
use std::cell::Cell;
use std::rc::Rc;

use tokkit::token_manager::internals::{diff_millis, minus_millis, plus_millis, Clock, SystemClock};

/// A settable clock shared between test drivers.
#[derive(Clone)]
struct TestClock {
    time: Rc<Cell<u64>>,
}

impl TestClock {
    pub fn new() -> Self {
        TestClock { time: Rc::new(Cell::new(0)) }
    }

    pub fn inc(&self, by_ms: u64) {
        let past = self.time.get();
        self.time.set(past + by_ms);
    }
}

impl Clock for TestClock {
    fn now(&self) -> u64 {
        self.time.get()
    }
}

#[test]
fn request_scheduler_clock_test() {
    let clock1 = TestClock::new();
    let clock2 = clock1.clone();
    clock1.inc(100);
    assert_eq!(100, clock2.now());
}

#[test]
fn token_updater_clock_test() {
    let clock1 = TestClock::new();
    let clock2 = clock1.clone();
    clock1.inc(100);
    assert_eq!(100, clock2.now());
}

#[test]
fn system_clock_is_usable() {
    let clock = SystemClock;
    let a = clock.now();
    let b = clock.clone().now();
    assert!(b >= a);
}

#[test]
fn millis_helpers() {
    assert_eq!(0, diff_millis(10, 5));
    assert_eq!(5, diff_millis(5, 10));
    assert_eq!(0, minus_millis(5, 10));
    assert_eq!(5, minus_millis(10, 5));
    assert_eq!(15, plus_millis(10, 5));
    assert_eq!(u64::MAX, plus_millis(u64::MAX, 1));
}
