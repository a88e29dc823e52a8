use vstd::prelude::*;

verus! {

/// How many reads of one channel are issued, at most, while the front end
/// is still converting; a conversion unfinished by then counts as a
/// failed read.
pub const MAX_CONVERSION_POLLS: u32 = 100_000;

/// What one attempt to read a channel came back with.
#[derive(Debug, Clone, Copy, PartialEq, Eq, Structural)]
pub enum ReadOutcome {
    /// The finished conversion's raw sample.
    Sample(i16),
    /// A conversion is still in progress (or was just started).
    Busy,
    /// The bus transaction failed.
    Failed,
}

/// What to do after one attempt to read.
#[derive(Debug, Clone, Copy, PartialEq, Eq, Structural)]
pub enum PollStep {
    /// Issue the read again.
    Retry,
    /// Stop, with the sample or `None` for a failed read.
    Done(Option<i16>),
}

/// The step after the read numbered `polls` (counting from 0) came back
/// with `outcome`: a sample or a bus error ends the wait; a busy converter
/// is asked again unless that was the last read allowed.
pub open spec fn spec_poll_step(outcome: ReadOutcome, polls: int) -> PollStep {
    match outcome {
        ReadOutcome::Sample(v) => PollStep::Done(Some(v)),
        ReadOutcome::Failed => PollStep::Done(None),
        ReadOutcome::Busy => if polls + 1 < MAX_CONVERSION_POLLS {
            PollStep::Retry
        } else {
            PollStep::Done(None)
        },
    }
}

/// `r` is what a wait for a conversion ends with when its reads come back
/// with `outcomes`, in order: every read but the last asks for a retry,
/// and the last one ends the wait with `r`.
pub open spec fn polled(outcomes: Seq<ReadOutcome>, r: Option<i16>) -> bool {
    &&& outcomes.len() >= 1
    &&& forall|i: int|
        0 <= i < outcomes.len() - 1 ==> #[trigger] spec_poll_step(outcomes[i], i) == PollStep::Retry
    &&& spec_poll_step(outcomes.last(), outcomes.len() - 1) == PollStep::Done(r)
}

/// The step after the read numbered `polls` came back with `outcome`.
pub fn poll_step(outcome: ReadOutcome, polls: u32) -> (r: PollStep)
    ensures
        r == spec_poll_step(outcome, polls as int),
{
    match outcome {
        ReadOutcome::Sample(v) => PollStep::Done(Some(v)),
        ReadOutcome::Failed => PollStep::Done(None),
        ReadOutcome::Busy => if polls < MAX_CONVERSION_POLLS - 1 {
            PollStep::Retry
        } else {
            PollStep::Done(None)
        },
    }
}

} // verus!
