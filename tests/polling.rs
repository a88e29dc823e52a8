use knobz::{poll_step, PollStep, ReadOutcome};

#[test]
fn sample_ends_the_wait() {
    assert_eq!(poll_step(ReadOutcome::Sample(1234), 0), PollStep::Done(Some(1234)));
    assert_eq!(poll_step(ReadOutcome::Sample(-5), 99_999), PollStep::Done(Some(-5)));
}

#[test]
fn bus_error_ends_the_wait_without_sample() {
    assert_eq!(poll_step(ReadOutcome::Failed, 0), PollStep::Done(None));
    assert_eq!(poll_step(ReadOutcome::Failed, 42), PollStep::Done(None));
}

#[test]
fn busy_converter_is_asked_again_until_the_last_read() {
    assert_eq!(poll_step(ReadOutcome::Busy, 0), PollStep::Retry);
    assert_eq!(poll_step(ReadOutcome::Busy, 99_998), PollStep::Retry);
    assert_eq!(poll_step(ReadOutcome::Busy, 99_999), PollStep::Done(None));
    assert_eq!(poll_step(ReadOutcome::Busy, u32::MAX), PollStep::Done(None));
}
