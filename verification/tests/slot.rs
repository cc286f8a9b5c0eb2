use file_dialog_bridge::slot::{PollStep, ResultSlot, POLL_INTERVAL_MS};

#[test]
fn poll_interval_is_fifty_milliseconds() {
    assert_eq!(POLL_INTERVAL_MS, 50);
}

#[test]
fn new_slot_is_pending() {
    let slot: ResultSlot<String> = ResultSlot::new();
    assert_eq!(slot, ResultSlot::Pending);
}

#[test]
fn pending_slot_tells_to_wait_one_interval() {
    let slot: ResultSlot<String> = ResultSlot::new();
    assert_eq!(slot.poll(), PollStep::Wait { millis: 50 });
    assert_eq!(slot.poll(), PollStep::Wait { millis: 50 });
    assert_eq!(slot, ResultSlot::Pending);
}

#[test]
fn written_selection_is_read_by_next_poll() {
    let mut slot: ResultSlot<String> = ResultSlot::new();
    assert!(slot.resolve(Some("/home/u/report.pdf".to_string())));
    assert_eq!(slot, ResultSlot::Resolved(Some("/home/u/report.pdf".to_string())));
    assert_eq!(slot.poll(), PollStep::Done(&Some("/home/u/report.pdf".to_string())));
}

#[test]
fn written_cancellation_is_read_by_next_poll() {
    let mut slot: ResultSlot<String> = ResultSlot::new();
    assert!(slot.resolve(None));
    assert_eq!(slot, ResultSlot::Resolved(None));
    assert_eq!(slot.poll(), PollStep::Done(&None));
}

#[test]
fn polling_does_not_consume_the_outcome() {
    let mut slot: ResultSlot<u32> = ResultSlot::new();
    slot.resolve(Some(7));
    assert_eq!(slot.poll(), PollStep::Done(&Some(7)));
    assert_eq!(slot.poll(), PollStep::Done(&Some(7)));
}

#[test]
fn second_write_is_dropped() {
    let mut slot: ResultSlot<u32> = ResultSlot::new();
    assert!(slot.resolve(Some(1)));
    assert!(!slot.resolve(Some(2)));
    assert!(!slot.resolve(None));
    assert_eq!(slot.poll(), PollStep::Done(&Some(1)));
}

#[test]
fn cancellation_is_not_overwritten_by_a_later_selection() {
    let mut slot: ResultSlot<u32> = ResultSlot::new();
    assert!(slot.resolve(None));
    assert!(!slot.resolve(Some(9)));
    assert_eq!(slot.poll(), PollStep::Done(&None));
}

/// Runs the waiting side on a clock of its own against a callback that fires
/// at `fired_at`, and returns the time of the poll that saw the outcome with
/// the number of polls made.
fn observe(fired_at: u64, outcome: Option<u32>) -> (u64, u32, Option<u32>) {
    let mut slot: ResultSlot<u32> = ResultSlot::new();
    let mut now: u64 = 0;
    let mut polls: u32 = 0;
    loop {
        if now >= fired_at {
            slot.resolve(outcome);
        }
        polls += 1;
        match slot.poll() {
            PollStep::Wait { millis } => now += millis,
            PollStep::Done(seen) => return (now, polls, *seen),
        }
        assert!(polls < 1_000_000);
    }
}

#[test]
fn callback_at_120_is_observed_at_150() {
    let (seen_at, polls, seen) = observe(120, Some(5));
    assert_eq!(seen_at, 150);
    assert!(seen_at <= 170);
    assert_eq!(polls, 4);
    assert_eq!(seen, Some(5));
}

#[test]
fn callback_before_first_poll_is_observed_at_once() {
    assert_eq!(observe(0, None), (0, 1, None));
}

#[test]
fn callback_on_a_poll_instant_is_observed_by_that_poll() {
    assert_eq!(observe(100, Some(1)), (100, 3, Some(1)));
}

#[test]
fn callback_just_after_a_poll_waits_for_the_next() {
    assert_eq!(observe(101, Some(1)), (150, 4, Some(1)));
    assert_eq!(observe(1, Some(1)), (50, 2, Some(1)));
}

#[test]
fn observation_is_never_later_than_one_interval() {
    for fired_at in 0..500u64 {
        let (seen_at, _, seen) = observe(fired_at, Some(3));
        assert!(seen_at >= fired_at);
        assert!(seen_at < fired_at + 50);
        assert_eq!(seen_at % 50, 0);
        assert_eq!(seen, Some(3));
    }
}
