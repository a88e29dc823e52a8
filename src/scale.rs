use vstd::prelude::*;

use crate::types::{Range, MAX_CHANNEL_VALUE};

verus! {

/// Largest value a reading scaled into `range` can take.
pub open spec fn bucket_max(range: Range) -> int {
    match range {
        Range::Within255 => 255,
        Range::Within511 => 511,
        Range::Within1023 => 1023,
        Range::Full => MAX_CHANNEL_VALUE as int,
    }
}

/// Step width of a bucket: how many raw counts make one output step.
pub open spec fn bucket_divisor(range: Range) -> int {
    match range {
        Range::Within255 => 103,
        Range::Within511 => 51,
        Range::Within1023 => 25,
        Range::Full => 1,
    }
}

pub open spec fn min(a: int, b: int) -> int {
    if a <= b { a } else { b }
}

/// The raw value quantised to the bucket's steps and capped at its maximum.
pub open spec fn quantized(value: int, range: Range) -> int {
    min(bucket_max(range), value / bucket_divisor(range))
}

/// A raw value scaled into `range`. The three bounded buckets count upwards
/// unless inverted; `Full` counts downwards unless inverted.
pub open spec fn scaled(value: int, range: Range, inverted: bool) -> int {
    let q = quantized(value, range);
    let up = match range {
        Range::Full => inverted,
        _ => !inverted,
    };
    if up { q } else { bucket_max(range) - q }
}

/// A signed reading with negative values taken as zero.
pub open spec fn clamp_raw(raw: int) -> int {
    if raw < 0 { 0 } else { raw }
}

impl Range {
    /// Scales a raw value into `range`, inverted or not.
    pub fn scale_to_range(value: u16, range: &Range, inverted: bool) -> (r: u16)
        ensures
            r == scaled(value as int, *range, inverted),
            r <= bucket_max(*range),
    {
        match range {
            Range::Within255 => {
                let q = if value / 103 < 255 { value / 103 } else { 255 };
                if inverted { 255 - q } else { q }
            },
            Range::Within511 => {
                let q = if value / 51 < 511 { value / 51 } else { 511 };
                if inverted { 511 - q } else { q }
            },
            Range::Within1023 => {
                let q = if value / 25 < 1023 { value / 25 } else { 1023 };
                if inverted { 1023 - q } else { q }
            },
            Range::Full => {
                let q = if value < MAX_CHANNEL_VALUE { value } else { MAX_CHANNEL_VALUE };
                if inverted { q } else { MAX_CHANNEL_VALUE - q }
            },
        }
    }

    /// Scales a signed reading from the front end: negative readings count
    /// as zero.
    pub fn scale_reading(raw: i16, range: &Range, inverted: bool) -> (r: u16)
        ensures
            r == scaled(clamp_raw(raw as int), *range, inverted),
            r <= bucket_max(*range),
    {
        let value: u16 = if raw < 0 { 0 } else { raw as u16 };
        Range::scale_to_range(value, range, inverted)
    }
}

} // verus!
