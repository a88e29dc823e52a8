use vstd::prelude::*;

use crate::knobz::{update_step, Knobz};
use crate::sampler::{is_due, timer_step, SAMPLE_INTERVAL_US};
use crate::scale::{bucket_max, clamp_raw, scaled};
use crate::types::{Change, Channel, Range};

verus! {

/// Total of a run of elapsed times.
pub open spec fn total_us(dts: Seq<u32>) -> int
    decreases dts.len(),
{
    if dts.len() == 0 {
        0
    } else {
        total_us(dts.drop_last()) + dts.last()
    }
}

/// The accumulated time after a run of elapsed times, starting from `t`.
pub open spec fn timer_after(t: int, dts: Seq<u32>) -> int
    decreases dts.len(),
{
    if dts.len() == 0 {
        t
    } else {
        timer_step(timer_after(t, dts.drop_last()), dts.last() as int)
    }
}

/// A prefix of a run of elapsed times adds up to no more than the run.
pub proof fn lemma_prefix_total(dts: Seq<u32>, k: int)
    requires
        0 <= k <= dts.len(),
    ensures
        total_us(dts.take(k)) <= total_us(dts),
        k < dts.len() ==> total_us(dts.take(k + 1)) == total_us(dts.take(k)) + dts[k],
    decreases dts.len(),
{
    if k < dts.len() {
        assert(dts.take(k + 1).drop_last() =~= dts.take(k));
        let init = dts.drop_last();
        if k < init.len() {
            lemma_prefix_total(init, k);
            assert(init.take(k) =~= dts.take(k));
        } else {
            assert(dts.take(k) =~= init);
        }
    } else {
        assert(dts.take(k) =~= dts);
    }
}

/// A run of `update` calls whose elapsed times, added to the timer the run
/// starts from, stay below the sample interval never reads the front end
/// and never reports anything: after each call the state is the one the
/// run started from, but for the timer, which holds the sum so far.
/// `states[i]` is the controller before the call with `dts[i]`, which
/// returned `results[i]`.
pub proof fn lemma_quiet_updates<I2C>(
    states: Seq<Knobz<I2C>>,
    dts: Seq<u32>,
    results: Seq<Option<Change>>,
)
    requires
        states.len() == dts.len() + 1,
        results.len() == dts.len(),
        states[0].wf(),
        forall|i: int|
            0 <= i < dts.len() ==> update_step(states[i], dts[i], #[trigger] states[i + 1], results[i]),
        states[0].spec_sampler().spec_timer() + total_us(dts) < SAMPLE_INTERVAL_US,
    ensures
        forall|i: int| 0 <= i < results.len() ==> (#[trigger] results[i]).is_none(),
        forall|k: int|
            0 <= k < states.len() ==> {
                let s0 = states[0].spec_sampler();
                let s = (#[trigger] states[k]).spec_sampler();
                &&& s.spec_timer() == s0.spec_timer() + total_us(dts.take(k))
                &&& s.spec_values() == s0.spec_values()
                &&& s.spec_ranges() == s0.spec_ranges()
                &&& s.spec_inverted() == s0.spec_inverted()
                &&& s.spec_cursor() == s0.spec_cursor()
                &&& states[k].spec_adc() == states[0].spec_adc()
            },
{
    lemma_quiet_prefix(states, dts, results, states.len() - 1);
}

proof fn lemma_quiet_prefix<I2C>(
    states: Seq<Knobz<I2C>>,
    dts: Seq<u32>,
    results: Seq<Option<Change>>,
    n: int,
)
    requires
        0 <= n < states.len(),
        states.len() == dts.len() + 1,
        results.len() == dts.len(),
        states[0].wf(),
        forall|i: int|
            0 <= i < dts.len() ==> update_step(states[i], dts[i], #[trigger] states[i + 1], results[i]),
        states[0].spec_sampler().spec_timer() + total_us(dts) < SAMPLE_INTERVAL_US,
    ensures
        forall|i: int| 0 <= i < n ==> (#[trigger] results[i]).is_none(),
        forall|k: int|
            0 <= k <= n ==> {
                let s0 = states[0].spec_sampler();
                let s = (#[trigger] states[k]).spec_sampler();
                &&& s.spec_timer() == s0.spec_timer() + total_us(dts.take(k))
                &&& s.spec_values() == s0.spec_values()
                &&& s.spec_ranges() == s0.spec_ranges()
                &&& s.spec_inverted() == s0.spec_inverted()
                &&& s.spec_cursor() == s0.spec_cursor()
                &&& states[k].spec_adc() == states[0].spec_adc()
            },
    decreases n,
{
    if n == 0 {
        assert(dts.take(0) =~= Seq::<u32>::empty());
    } else {
        lemma_quiet_prefix(states, dts, results, n - 1);
        let m = n - 1;
        lemma_prefix_total(dts, m);
        lemma_prefix_total(dts, n);
        assert(update_step(states[m], dts[m], states[m + 1], results[m]));
        let t = states[m].spec_sampler().spec_timer();
        assert(!is_due(t, dts[m] as int));
    }
}

/// A scaled value never leaves its bucket: it lies between 0 and the
/// bucket's maximum for every non-negative raw value.
pub proof fn lemma_scale_within_bucket(value: int, range: Range, inverted: bool)
    requires
        0 <= value,
    ensures
        0 <= scaled(value, range, inverted) <= bucket_max(range),
{
}

/// In the three bounded buckets a value and its inversion add up to the
/// bucket's maximum.
pub proof fn lemma_inversion_complements(value: int, range: Range)
    requires
        0 <= value,
        range != Range::Full,
    ensures
        scaled(value, range, true) + scaled(value, range, false) == bucket_max(range),
{
}

/// A negative reading scales exactly as a reading of zero.
pub proof fn lemma_negative_reading_is_zero(raw: int, range: Range, inverted: bool)
    requires
        raw < 0,
    ensures
        scaled(clamp_raw(raw), range, inverted) == scaled(clamp_raw(0), range, inverted),
{
}

/// While the running total of elapsed times stays below the sample
/// interval, no step of the run makes a sample due, and the timer simply
/// holds the sum.
pub proof fn lemma_quiet_below_interval(t: int, dts: Seq<u32>)
    requires
        0 <= t,
        t + total_us(dts) < SAMPLE_INTERVAL_US,
    ensures
        timer_after(t, dts) == t + total_us(dts),
        forall|i: int|
            0 <= i < dts.len() ==> !is_due(#[trigger] timer_after(t, dts.take(i)), dts[i] as int),
    decreases dts.len(),
{
    if dts.len() > 0 {
        let init = dts.drop_last();
        assert(total_us(init) <= total_us(dts));
        lemma_quiet_below_interval(t, init);
        assert forall|i: int| 0 <= i < dts.len() implies !is_due(
            #[trigger] timer_after(t, dts.take(i)),
            dts[i] as int,
        ) by {
            if i < init.len() {
                assert(dts.take(i) =~= init.take(i));
                assert(init[i] == dts[i]);
            } else {
                assert(dts.take(i) =~= init);
            }
        }
    }
}

/// Sampling visits the channels in the fixed order A0, A1, A2, A3 and then
/// starts over: the position after `c` is the next one modulo four, and
/// four steps bring the cycle back to `c`.
pub proof fn lemma_cycle_order(c: Channel)
    ensures
        Channel::spec_from_index((c.spec_index() + 1) % 4) == match c {
            Channel::A0 => Channel::A1,
            Channel::A1 => Channel::A2,
            Channel::A2 => Channel::A3,
            Channel::A3 => Channel::A0,
        },
        Channel::spec_from_index((c.spec_index() + 4) % 4) == c,
{
}

} // verus!
