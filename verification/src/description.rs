//! What a stream holds: its format, channels and sample rate.
use vstd::prelude::*;

use crate::format::Format;

verus! {

/// The format, channel count and sample rate of an audio stream.
#[derive(Copy, Clone, Debug, PartialEq, Eq, Structural)]
pub struct Description {
    format: Format,
    channel_count: u32,
    sample_rate: u32,
}

impl Description {
    /// The description of a stream of `format` with `channel_count` channels
    /// sampled at `sample_rate` Hz.
    pub fn new(format: Format, channel_count: u32, sample_rate: u32) -> (res: Description)
        ensures
            res.spec_format() == format,
            res.spec_channel_count() == channel_count,
            res.spec_sample_rate() == sample_rate,
    {
        Description { format, channel_count, sample_rate }
    }

    /// The format of the stream.
    pub closed spec fn spec_format(&self) -> Format {
        self.format
    }

    /// The number of channels of the stream.
    pub closed spec fn spec_channel_count(&self) -> u32 {
        self.channel_count
    }

    /// The sample rate of the stream, in Hz.
    pub closed spec fn spec_sample_rate(&self) -> u32 {
        self.sample_rate
    }

    /// The format of the stream.
    pub fn format(&self) -> (res: Format)
        ensures
            res == self.spec_format(),
    {
        self.format
    }

    /// The number of channels of the stream.
    pub fn channel_count(&self) -> (res: u32)
        ensures
            res == self.spec_channel_count(),
    {
        self.channel_count
    }

    /// The sample rate of the stream, in Hz.
    pub fn sample_rate(&self) -> (res: u32)
        ensures
            res == self.spec_sample_rate(),
    {
        self.sample_rate
    }
}

} // verus!
