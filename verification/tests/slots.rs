use ledger_gen::slots::{slots_elapsed, SlotWait, WaitDecision};

#[test]
fn barrier_is_passed_at_the_asked_gap_and_not_before() {
    assert!(!slots_elapsed(100, 2, 100));
    assert!(!slots_elapsed(100, 2, 101));
    assert!(slots_elapsed(100, 2, 102));
    assert!(slots_elapsed(100, 2, 150));
    assert!(slots_elapsed(100, 0, 100));
}

#[test]
fn slot_height_below_the_entry_height_passes_no_barrier_but_the_empty_one() {
    assert!(!slots_elapsed(100, 1, 99));
    assert!(!slots_elapsed(100, 0, 99));
}

#[test]
fn barrier_near_the_largest_slot_does_not_overflow() {
    assert!(!slots_elapsed(u64::MAX - 1, 2, u64::MAX));
    assert!(slots_elapsed(u64::MAX - 1, 1, u64::MAX));
    assert!(slots_elapsed(0, u64::MAX, u64::MAX));
    assert!(!slots_elapsed(1, u64::MAX, u64::MAX));
}

#[test]
fn wait_polls_until_the_gap_is_reached() {
    let mut wait = SlotWait::begin(10, 2, 5);
    assert_eq!(wait.observe(10), WaitDecision::PollAgain);
    assert_eq!(wait.polls_left, 4);
    assert_eq!(wait.observe(11), WaitDecision::PollAgain);
    assert_eq!(wait.polls_left, 3);
    assert_eq!(wait.observe(12), WaitDecision::Reached);
    assert_eq!(wait.polls_left, 3);
    assert_eq!(wait.entry, 10);
    assert_eq!(wait.slots, 2);
}

#[test]
fn wait_times_out_when_its_polls_are_used_up() {
    let mut wait = SlotWait::begin(10, 2, 2);
    assert_eq!(wait.observe(10), WaitDecision::PollAgain);
    assert_eq!(wait.observe(10), WaitDecision::PollAgain);
    assert_eq!(wait.observe(11), WaitDecision::TimedOut);
    assert_eq!(wait.observe(11), WaitDecision::TimedOut);
    assert_eq!(wait.observe(12), WaitDecision::Reached);
}

#[test]
fn wait_without_polls_is_decided_by_the_first_observation() {
    let mut wait = SlotWait::begin(7, 1, 0);
    assert_eq!(wait.observe(7), WaitDecision::TimedOut);
    let mut wait = SlotWait::begin(7, 1, 0);
    assert_eq!(wait.observe(8), WaitDecision::Reached);
    let mut wait = SlotWait::begin(7, 0, 0);
    assert_eq!(wait.observe(7), WaitDecision::Reached);
}
