use vstd::prelude::*;

use crate::adc::{destroy_ads1115, new_ads1115, read_once, set_full_scale_4v, Adc};
use crate::poll::{poll_step, polled, spec_poll_step, PollStep, ReadOutcome, MAX_CONVERSION_POLLS};
use crate::sampler::{is_due, records, timer_step, Sampler};
use crate::types::{Address, Change, Channel, Range};

verus! {

/// Reads `channel` and waits for the conversion to finish: the read is
/// issued again while `poll_step` says so. Whatever the reads come back
/// with, the result is what `poll_step` ends the wait with.
fn read_sample<I2C>(adc: &mut Adc<I2C>, channel: Channel) -> (r: Option<i16>) where
    I2C: embedded_hal::i2c::I2c,

    ensures
        exists|outcomes: Seq<ReadOutcome>| polled(outcomes, r),
{
    let mut polls: u32 = 0;
    let ghost mut seen: Seq<ReadOutcome> = Seq::empty();
    loop
        invariant
            polls < MAX_CONVERSION_POLLS,
            seen.len() == polls,
            forall|i: int| 0 <= i < seen.len() ==> #[trigger] spec_poll_step(seen[i], i) == PollStep::Retry,
        decreases MAX_CONVERSION_POLLS - polls,
    {
        let outcome = read_once(adc, channel);
        match poll_step(outcome, polls) {
            PollStep::Done(r) => {
                let ghost outcomes = seen.push(outcome);
                assert(forall|i: int| 0 <= i < outcomes.len() - 1 ==> outcomes[i] == seen[i]);
                assert(polled(outcomes, r));
                return r;
            },
            PollStep::Retry => {
                proof {
                    seen = seen.push(outcome);
                }
                polls = polls + 1;
            },
        }
    }
}

/// `post` and `r` are what one call of `update` with `dt` makes of `pre`.
/// The timer moves on as `timer_step` says. When no sample is due nothing
/// is reported and, apart from the timer, the state and the front end are
/// left as they were. When a sample is due, the current channel was read
/// until `poll_step` ended the wait with `reading`, whatever the reads came
/// back with, and that reading was recorded.
pub open spec fn update_step<I2C>(pre: Knobz<I2C>, dt: u32, post: Knobz<I2C>, r: Option<Change>) -> bool {
    let s = pre.spec_sampler();
    let t = post.spec_sampler();
    &&& post.wf()
    &&& t.spec_timer() == timer_step(s.spec_timer(), dt as int)
    &&& if is_due(s.spec_timer(), dt as int) {
        exists|outcomes: Seq<ReadOutcome>, reading: Option<i16>|
            #[trigger] polled(outcomes, reading) && #[trigger] records(s, reading, t, r)
    } else {
        &&& r.is_none()
        &&& t.spec_values() == s.spec_values()
        &&& t.spec_ranges() == s.spec_ranges()
        &&& t.spec_inverted() == s.spec_inverted()
        &&& t.spec_cursor() == s.spec_cursor()
        &&& post.spec_adc() == pre.spec_adc()
    }
}

/// Why a controller could not be built.
#[derive(Debug, Clone, Copy, PartialEq, Eq, Structural)]
pub enum ConfigError {
    /// The front end refused its configuration on the bus.
    I2C,
}

/// Four knobs read in turn through one ADS1115, reporting the knobs whose
/// scaled value changed.
#[verifier::reject_recursive_types(I2C)]
pub struct Knobz<I2C> {
    sampler: Sampler,
    ads1115: Adc<I2C>,
}

impl<I2C> Knobz<I2C> {
    /// The state of the sampling cycle.
    pub closed spec fn spec_sampler(&self) -> Sampler {
        self.sampler
    }

    /// The front end driver, as an opaque value.
    pub closed spec fn spec_adc(&self) -> Adc<I2C> {
        self.ads1115
    }

    /// The sampling state is well formed.
    pub open spec fn wf(&self) -> bool {
        self.spec_sampler().wf()
    }

    /// Hands the bus handle back, consuming the controller.
    pub fn destroy(self) -> I2C {
        destroy_ads1115(self.ads1115)
    }

    /// Sets the range that later samples of `channel` are scaled into.
    pub fn set_channel_range(&mut self, channel: Channel, range: Range)
        requires
            old(self).wf(),
        ensures
            final(self).wf(),
            final(self).spec_sampler().spec_ranges() == old(self).spec_sampler().spec_ranges().update(
                channel.spec_index(),
                range,
            ),
            final(self).spec_sampler().spec_values() == old(self).spec_sampler().spec_values(),
            final(self).spec_sampler().spec_inverted() == old(self).spec_sampler().spec_inverted(),
            final(self).spec_sampler().spec_cursor() == old(self).spec_sampler().spec_cursor(),
            final(self).spec_sampler().spec_timer() == old(self).spec_sampler().spec_timer(),
            final(self).spec_adc() == old(self).spec_adc(),
    {
        self.sampler.set_channel_range(channel, range);
    }

    /// Sets whether later samples of `channel` are inverted.
    pub fn set_invert_channel(&mut self, channel: Channel, inverted: bool)
        requires
            old(self).wf(),
        ensures
            final(self).wf(),
            final(self).spec_sampler().spec_inverted() == old(self).spec_sampler().spec_inverted().update(
                channel.spec_index(),
                inverted,
            ),
            final(self).spec_sampler().spec_values() == old(self).spec_sampler().spec_values(),
            final(self).spec_sampler().spec_ranges() == old(self).spec_sampler().spec_ranges(),
            final(self).spec_sampler().spec_cursor() == old(self).spec_sampler().spec_cursor(),
            final(self).spec_sampler().spec_timer() == old(self).spec_sampler().spec_timer(),
            final(self).spec_adc() == old(self).spec_adc(),
    {
        self.sampler.set_invert_channel(channel, inverted);
    }

    /// Last scaled value of `channel`.
    pub fn value(&self, channel: Channel) -> (r: u16)
        requires
            self.wf(),
        ensures
            r == self.spec_sampler().spec_values()[channel.spec_index()],
    {
        self.sampler.value(channel)
    }

    /// The channel sampled next.
    pub fn current_channel(&self) -> (r: Channel)
        requires
            self.wf(),
        ensures
            r == self.spec_sampler().spec_current(),
    {
        self.sampler.current_channel()
    }

    /// Time accumulated towards the next sample, in microseconds.
    pub fn timer_us(&self) -> (r: u32)
        requires
            self.wf(),
        ensures
            r == self.spec_sampler().spec_timer(),
    {
        self.sampler.timer_us()
    }
}

impl<I2C> Knobz<I2C> where I2C: embedded_hal::i2c::I2c {
    /// Takes the bus handle and the selector of the device, sets the front
    /// end's full-scale range, and starts with every channel at value 0,
    /// range `Within1023`, not inverted, sampling from A0 with the timer at
    /// the selector's phase offset. Fails with `ConfigError::I2C` where the
    /// configuration write fails.
    pub fn new(i2c_device: I2C, address: Address) -> (r: Result<Self, ConfigError>)
        ensures
            r is Ok ==> {
                let s = r->Ok_0.spec_sampler();
                &&& r->Ok_0.wf()
                &&& s.spec_values() == seq![0u16, 0u16, 0u16, 0u16]
                &&& s.spec_ranges() == seq![Range::Within1023, Range::Within1023, Range::Within1023, Range::Within1023]
                &&& s.spec_inverted() == seq![false, false, false, false]
                &&& s.spec_cursor() == 0
                &&& s.spec_timer() == address.spec_phase_offset_us()
            },
            r is Err ==> r->Err_0 == ConfigError::I2C,
    {
        let mut adc = new_ads1115(i2c_device, address);
        if set_full_scale_4v(&mut adc) {
            Ok(Knobz { sampler: Sampler::new(address), ads1115: adc })
        } else {
            Err(ConfigError::I2C)
        }
    }

    /// Adds `dt_us` to the accumulated time. Below the sample interval
    /// nothing else happens: the front end is left untouched and nothing is
    /// reported. Once the interval is reached the timer restarts from zero,
    /// the current channel is read, waiting for its conversion to finish,
    /// and the outcome of that read is recorded: the cycle moves on to the next channel whatever came back,
    /// and a change is reported only for a sample whose scaled value differs
    /// from the one stored for that channel.
    ///
    /// The wait for a conversion is the one place where the controller puts
    /// a limit of its own on the front end: after `MAX_CONVERSION_POLLS`
    /// reads that all find the converter busy, the read counts as failed, so
    /// that a converter that never finishes cannot hold `update` forever.
    pub fn update(&mut self, dt_us: u32) -> (r: Option<Change>)
        requires
            old(self).wf(),
        ensures
            update_step(*old(self), dt_us, *final(self), r),
    {
        let ghost pre = self.sampler;
        match self.sampler.tick(dt_us) {
            None => None,
            Some(channel) => {
                let reading = read_sample(&mut self.ads1115, channel);
                let r = self.sampler.record(reading);
                let ghost outcomes = choose|o: Seq<ReadOutcome>| polled(o, reading);
                assert(records(pre, reading, self.sampler, r));
                assert(pre == old(self).spec_sampler());
                assert(self.sampler == self.spec_sampler());
                assert(polled(outcomes, reading) && records(
                    old(self).spec_sampler(),
                    reading,
                    self.spec_sampler(),
                    r,
                ));
                r
            },
        }
    }
}

} // verus!
