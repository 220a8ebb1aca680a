use dnspod_ddns::counter::RefreshCounter;
use dnspod_ddns::schedule::Schedule;

#[test]
fn counter_is_due_at_the_threshold() {
    let mut c = RefreshCounter::new(3);
    assert_eq!((c.ticks(), c.threshold()), (0, 3));
    assert!(!c.advance());
    assert_eq!(c.ticks(), 1);
    assert!(!c.advance());
    assert_eq!(c.ticks(), 2);
    assert!(c.advance());
    assert_eq!(c.ticks(), 3);
}

#[test]
fn counter_stays_at_the_threshold_until_reset() {
    let mut c = RefreshCounter::new(2);
    c.advance();
    c.advance();
    for _ in 0..5 {
        assert!(c.advance());
        assert_eq!(c.ticks(), 2);
    }
    c.reset();
    assert_eq!((c.ticks(), c.threshold()), (0, 2));
    assert!(!c.advance());
    assert_eq!(c.ticks(), 1);
}

#[test]
fn counter_with_threshold_zero_is_always_due() {
    let mut c = RefreshCounter::new(0);
    assert!(c.advance());
    assert!(c.advance());
    assert_eq!(c.ticks(), 0);
}

#[test]
fn counter_at_the_largest_threshold_does_not_overflow() {
    let mut c = RefreshCounter::new(u64::MAX);
    assert!(!c.advance());
    assert_eq!(c.ticks(), 1);
    assert_eq!(c.threshold(), u64::MAX);
}

#[test]
fn schedule_needs_a_positive_interval() {
    assert_eq!(Schedule::new(0, 5), None);
    assert_eq!(Schedule::new(0, 0), None);
    let s = Schedule::new(30, 0).unwrap();
    assert_eq!((s.interval(), s.refresh()), (30, 0));
    let s = Schedule::new(1, u64::MAX).unwrap();
    assert_eq!((s.interval(), s.refresh()), (1, u64::MAX));
}
