use vstd::prelude::*;

use crate::scale::{bucket_max, clamp_raw, scaled};
use crate::types::{Address, Change, Channel, Range};

verus! {

/// Time, in microseconds, that must build up between two samples.
pub const SAMPLE_INTERVAL_US: u32 = 1000;

/// Whether adding `dt` to the accumulated time `t` makes a sample due.
pub open spec fn is_due(t: int, dt: int) -> bool {
    t + dt >= SAMPLE_INTERVAL_US
}

/// The accumulated time after adding `dt` to `t`: it restarts from zero
/// once a sample is due, dropping whatever went past the interval.
pub open spec fn timer_step(t: int, dt: int) -> int {
    if is_due(t, dt) { 0 } else { t + dt }
}

/// `post` and `r` are what taking the outcome `reading` of a read of the
/// current channel makes of `pre`: a failed read (`None`) leaves the
/// values as they were and reports nothing; a sample is scaled with the
/// channel's range and polarity, stored, and reported only if it differs
/// from the stored value. Either way the cycle moves on one channel.
pub open spec fn records(pre: Sampler, reading: Option<i16>, post: Sampler, r: Option<Change>) -> bool {
    let i = pre.spec_cursor();
    &&& post.spec_cursor() == (i + 1) % 4
    &&& post.spec_ranges() == pre.spec_ranges()
    &&& post.spec_inverted() == pre.spec_inverted()
    &&& match reading {
        None => r.is_none() && post.spec_values() == pre.spec_values(),
        Some(raw) => {
            let v = scaled(clamp_raw(raw as int), pre.spec_ranges()[i], pre.spec_inverted()[i]);
            &&& v <= bucket_max(pre.spec_ranges()[i])
            &&& post.spec_values() == pre.spec_values().update(i, v as u16)
            &&& r == (if pre.spec_values()[i] == v {
                None
            } else {
                Some(Change { channel: pre.spec_current(), value: v as u16 })
            })
        },
    }
}

/// The state of the sampling cycle, apart from the front end itself:
/// per channel the last scaled value, its range and its polarity; the
/// channel sampled next; and the time accumulated towards the next sample.
pub struct Sampler {
    values: [u16; 4],
    ranges: [Range; 4],
    inverted: [bool; 4],
    cursor: usize,
    timer_us: u32,
}

impl Sampler {
    /// Last scaled value of each channel, indexed by channel position.
    pub closed spec fn spec_values(&self) -> Seq<u16> {
        self.values@
    }

    /// Configured range of each channel.
    pub closed spec fn spec_ranges(&self) -> Seq<Range> {
        self.ranges@
    }

    /// Configured polarity of each channel.
    pub closed spec fn spec_inverted(&self) -> Seq<bool> {
        self.inverted@
    }

    /// Position of the channel sampled next.
    pub closed spec fn spec_cursor(&self) -> int {
        self.cursor as int
    }

    /// Time accumulated towards the next sample, in microseconds.
    pub closed spec fn spec_timer(&self) -> int {
        self.timer_us as int
    }

    /// Each channel has one value, range and polarity; the cursor names one
    /// of the four channels; the timer stands below the sample interval.
    pub open spec fn wf(&self) -> bool {
        &&& self.spec_values().len() == 4
        &&& self.spec_ranges().len() == 4
        &&& self.spec_inverted().len() == 4
        &&& 0 <= self.spec_cursor() < 4
        &&& 0 <= self.spec_timer() < SAMPLE_INTERVAL_US
    }

    /// The channel sampled next.
    pub open spec fn spec_current(&self) -> Channel {
        Channel::spec_from_index(self.spec_cursor())
    }

    /// Every channel at value 0, range `Within1023`, not inverted; sampling
    /// starts at A0 with the timer set to the selector's phase offset.
    pub fn new(address: Address) -> (r: Sampler)
        ensures
            r.wf(),
            r.spec_values() == seq![0u16, 0u16, 0u16, 0u16],
            r.spec_ranges() == seq![Range::Within1023, Range::Within1023, Range::Within1023, Range::Within1023],
            r.spec_inverted() == seq![false, false, false, false],
            r.spec_cursor() == 0,
            r.spec_timer() == address.spec_phase_offset_us(),
    {
        let r = Sampler {
            values: [0u16; 4],
            ranges: [Range::Within1023; 4],
            inverted: [false; 4],
            cursor: 0,
            timer_us: address.phase_offset_us(),
        };
        assert(r.values@ =~= seq![0u16, 0u16, 0u16, 0u16]);
        assert(r.ranges@ =~= seq![Range::Within1023, Range::Within1023, Range::Within1023, Range::Within1023]);
        assert(r.inverted@ =~= seq![false, false, false, false]);
        r
    }

    /// Sets the range that later samples of `channel` are scaled into; the
    /// stored value is left as it is.
    pub fn set_channel_range(&mut self, channel: Channel, range: Range)
        requires
            old(self).wf(),
        ensures
            final(self).wf(),
            final(self).spec_ranges() == old(self).spec_ranges().update(channel.spec_index(), range),
            final(self).spec_values() == old(self).spec_values(),
            final(self).spec_inverted() == old(self).spec_inverted(),
            final(self).spec_cursor() == old(self).spec_cursor(),
            final(self).spec_timer() == old(self).spec_timer(),
    {
        let i = channel.index();
        self.ranges[i] = range;
    }

    /// Sets whether later samples of `channel` are inverted.
    pub fn set_invert_channel(&mut self, channel: Channel, inverted: bool)
        requires
            old(self).wf(),
        ensures
            final(self).wf(),
            final(self).spec_inverted() == old(self).spec_inverted().update(channel.spec_index(), inverted),
            final(self).spec_values() == old(self).spec_values(),
            final(self).spec_ranges() == old(self).spec_ranges(),
            final(self).spec_cursor() == old(self).spec_cursor(),
            final(self).spec_timer() == old(self).spec_timer(),
    {
        let i = channel.index();
        self.inverted[i] = inverted;
    }
    /// Adds `dt_us` to the accumulated time. When that reaches the sample
    /// interval the timer restarts from zero and the channel to sample now
    /// is returned; otherwise nothing is due and the time is kept.
    pub fn tick(&mut self, dt_us: u32) -> (r: Option<Channel>)
        requires
            old(self).wf(),
        ensures
            final(self).wf(),
            r.is_some() == is_due(old(self).spec_timer(), dt_us as int),
            r.is_some() ==> r.unwrap() == old(self).spec_current(),
            final(self).spec_timer() == timer_step(old(self).spec_timer(), dt_us as int),
            final(self).spec_values() == old(self).spec_values(),
            final(self).spec_ranges() == old(self).spec_ranges(),
            final(self).spec_inverted() == old(self).spec_inverted(),
            final(self).spec_cursor() == old(self).spec_cursor(),
    {
        if dt_us < SAMPLE_INTERVAL_US - self.timer_us {
            self.timer_us = self.timer_us + dt_us;
            None
        } else {
            self.timer_us = 0;
            Some(Channel::from_index(self.cursor))
        }
    }

    /// Stores `value` as the last value of `channel` and returns it if it
    /// differs from the value stored before.
    pub fn observe(&mut self, channel: Channel, value: u16) -> (r: Option<u16>)
        requires
            old(self).wf(),
        ensures
            final(self).wf(),
            r == (if old(self).spec_values()[channel.spec_index()] == value {
                None
            } else {
                Some(value)
            }),
            final(self).spec_values() == old(self).spec_values().update(channel.spec_index(), value),
            final(self).spec_ranges() == old(self).spec_ranges(),
            final(self).spec_inverted() == old(self).spec_inverted(),
            final(self).spec_cursor() == old(self).spec_cursor(),
            final(self).spec_timer() == old(self).spec_timer(),
    {
        let i = channel.index();
        let changed = self.values[i] != value;
        self.values[i] = value;
        if changed {
            Some(value)
        } else {
            None
        }
    }

    /// Takes the outcome of reading the current channel: a raw sample, or
    /// `None` where the read failed. A sample is scaled with the channel's
    /// range and polarity and handed to the change detector; either way the
    /// cycle moves on to the next channel.
    pub fn record(&mut self, reading: Option<i16>) -> (r: Option<Change>)
        requires
            old(self).wf(),
        ensures
            final(self).wf(),
            final(self).spec_timer() == old(self).spec_timer(),
            records(*old(self), reading, *final(self), r),
    {
        let channel = Channel::from_index(self.cursor);
        let result = match reading {
            None => None,
            Some(raw) => {
                let i = self.cursor;
                let value = Range::scale_reading(raw, &self.ranges[i], self.inverted[i]);
                match self.observe(channel, value) {
                    Some(v) => Some(Change { channel, value: v }),
                    None => None,
                }
            },
        };
        self.cursor = channel.next().index();
        result
    }

    /// Last scaled value of `channel`.
    pub fn value(&self, channel: Channel) -> (r: u16)
        requires
            self.wf(),
        ensures
            r == self.spec_values()[channel.spec_index()],
    {
        self.values[channel.index()]
    }

    /// Range configured for `channel`.
    pub fn range(&self, channel: Channel) -> (r: Range)
        requires
            self.wf(),
        ensures
            r == self.spec_ranges()[channel.spec_index()],
    {
        self.ranges[channel.index()]
    }

    /// Whether `channel` is inverted.
    pub fn is_inverted(&self, channel: Channel) -> (r: bool)
        requires
            self.wf(),
        ensures
            r == self.spec_inverted()[channel.spec_index()],
    {
        self.inverted[channel.index()]
    }

    /// The channel sampled next.
    pub fn current_channel(&self) -> (r: Channel)
        requires
            self.wf(),
        ensures
            r == self.spec_current(),
    {
        Channel::from_index(self.cursor)
    }

    /// Time accumulated towards the next sample, in microseconds.
    pub fn timer_us(&self) -> (r: u32)
        requires
            self.wf(),
        ensures
            r == self.spec_timer(),
    {
        self.timer_us
    }
}

} // verus!
