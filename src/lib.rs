//! Round-robin sampling of four potentiometer knobs wired to an ADS1115
//! analog front end, with per-channel range scaling, optional inversion and
//! change detection.

pub mod types;
pub mod scale;
pub mod poll;
pub mod sampler;
pub mod laws;
mod adc;
pub mod knobz;

pub use knobz::{ConfigError, Knobz};
pub use poll::{poll_step, PollStep, ReadOutcome};
pub use sampler::Sampler;
pub use types::{Address, Change, Channel, Range};
