use mix_agent::scheduler::Scheduler;

#[test]
fn schedule_fires_every_fifteen_seconds() {
    let s = Scheduler::new("*/15 * * * * ?".to_string(), 0);
    assert!(!s.is_inert());
    assert_eq!(s.next_due, Some(15));
}

#[test]
fn unparseable_schedule_is_inert() {
    let mut s = Scheduler::new("not a schedule".to_string(), 0);
    assert!(s.is_inert());
    assert!(!s.should_fire(1_000_000));
}

#[test]
fn fires_exactly_when_due_and_reschedules() {
    let mut s = Scheduler::new("*/15 * * * * ?".to_string(), 0);
    assert!(!s.should_fire(10));
    assert_eq!(s.next_due, Some(15));
    assert!(s.should_fire(15));
    assert_eq!(s.next_due, Some(30));
    assert!(!s.should_fire(16));
    assert!(s.should_fire(45));
    assert_eq!(s.next_due, Some(60));
}

#[test]
fn daily_schedule_next_occurrence() {
    let s = Scheduler::new("0 0 0 * * ?".to_string(), 100);
    assert_eq!(s.next_due, Some(86400));
}

#[test]
fn instant_at_the_top_of_the_range_is_inert() {
    let s = Scheduler::new("*/15 * * * * ?".to_string(), i64::MAX);
    assert!(s.is_inert());
    let s2 = Scheduler::new("*/15 * * * * ?".to_string(), i64::MAX - 1);
    assert!(s2.is_inert());
}
