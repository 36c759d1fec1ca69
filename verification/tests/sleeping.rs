use abpl::thread::cancelable::{
    cancelable_sleep, next_sleep_step, sleeper_was_there, SleepAction, SleepEvent, SleepState,
    Span, WaitOutcome, WakeOffer,
};

fn span(secs: u64, nanos: u32) -> Span {
    Span { secs, nanos }
}

#[test]
fn deadline_passed_yields_once() {
    assert_eq!(next_sleep_step(SleepState::Start, SleepEvent::Remaining(None)), (SleepState::Finished, SleepAction::Yield));
    assert_eq!(
        next_sleep_step(SleepState::Start, SleepEvent::Remaining(Some(span(0, 0)))),
        (SleepState::Finished, SleepAction::Yield)
    );
}

#[test]
fn time_left_waits_exactly_that_long() {
    assert_eq!(
        next_sleep_step(SleepState::Start, SleepEvent::Remaining(Some(span(2, 5)))),
        (SleepState::Waiting, SleepAction::WaitForWake(span(2, 5)))
    );
}

#[test]
fn unrepresentable_deadline_sleeps_the_span() {
    assert_eq!(
        next_sleep_step(SleepState::Start, SleepEvent::Unrepresentable(span(u64::MAX, 1))),
        (SleepState::Waiting, SleepAction::WaitForWake(span(u64::MAX, 1)))
    );
    assert_eq!(
        next_sleep_step(SleepState::Waiting, SleepEvent::Waited(WaitOutcome::Woken)),
        (SleepState::Finished, SleepAction::Stop)
    );
}

#[test]
fn wake_or_timeout_ends_the_sleep() {
    for outcome in [WaitOutcome::Woken, WaitOutcome::TimedOut] {
        assert_eq!(
            next_sleep_step(SleepState::Waiting, SleepEvent::Waited(outcome)),
            (SleepState::Finished, SleepAction::Stop)
        );
    }
}

#[test]
fn lost_handles_sleep_out_the_rest() {
    assert_eq!(
        next_sleep_step(SleepState::Waiting, SleepEvent::Waited(WaitOutcome::HandlesGone)),
        (SleepState::Rechecking, SleepAction::ReadClock)
    );
    assert_eq!(
        next_sleep_step(SleepState::Rechecking, SleepEvent::Remaining(Some(span(0, 300)))),
        (SleepState::Finished, SleepAction::Sleep(span(0, 300)))
    );
    assert_eq!(
        next_sleep_step(SleepState::Rechecking, SleepEvent::Remaining(None)),
        (SleepState::Finished, SleepAction::Stop)
    );
}

#[test]
fn finished_stays_finished() {
    assert_eq!(
        next_sleep_step(SleepState::Finished, SleepEvent::Remaining(Some(span(1, 0)))),
        (SleepState::Finished, SleepAction::Stop)
    );
}

#[test]
fn cancel_reports_a_gone_sleeper() {
    let (handle, sleeper) = cancelable_sleep();
    // Nobody is sleeping yet: the offer is dropped, but the sleeper exists.
    assert!(handle.cancel());
    drop(sleeper);
    assert!(!handle.cancel());
    assert!(!handle.clone().cancel());
}

#[test]
fn offer_outcomes() {
    assert!(sleeper_was_there(WakeOffer::Delivered));
    assert!(sleeper_was_there(WakeOffer::NobodyWaiting));
    assert!(!sleeper_was_there(WakeOffer::SleeperGone));
}

#[test]
fn wait_without_handles_asks_for_the_clock() {
    let (handle, sleeper) = cancelable_sleep();
    drop(handle);
    let step = sleeper.advance(SleepState::Start, SleepEvent::Remaining(Some(span(5, 0))));
    assert_eq!(step, (SleepState::Rechecking, SleepAction::ReadClock));
}

#[test]
fn wait_times_out_when_nobody_wakes() {
    let (handle, sleeper) = cancelable_sleep();
    let step = sleeper.advance(SleepState::Start, SleepEvent::Remaining(Some(span(0, 1_000_000))));
    assert_eq!(step, (SleepState::Finished, SleepAction::Stop));
    drop(handle);
}

#[test]
fn whole_sleep_from_start_takes_at_most_three_steps() {
    let (_handle, sleeper) = cancelable_sleep();
    let mut state = SleepState::Start;
    let mut event = SleepEvent::Remaining(Some(span(0, 1_000)));
    let mut steps = 0;
    while state != SleepState::Finished {
        let (next, action) = sleeper.advance(state, event);
        state = next;
        steps += 1;
        if action == SleepAction::ReadClock {
            event = SleepEvent::Remaining(None);
        }
    }
    assert!(steps <= 3);
}
