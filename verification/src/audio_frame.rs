//! A single block of interleaved PCM audio samples.

use vstd::prelude::*;

verus! {

/// One frame of signed 16-bit samples: `samples_per_channel` samples for
/// each of `num_channels` channels.
#[derive(Debug, Clone)]
pub struct AudioFrame {
    pub data: Vec<i16>,
    pub sample_rate: u32,
    pub num_channels: u32,
    pub samples_per_channel: u32,
}

impl AudioFrame {
    /// The sample buffer holds exactly one slot per channel and sample.
    pub open spec fn wf(self) -> bool {
        self.data@.len() == self.num_channels * self.samples_per_channel
    }

    /// A silent frame with the given dimensions: every sample slot exists
    /// and is zero.
    pub fn new(sample_rate: u32, num_channels: u32, samples_per_channel: u32) -> (r: Self)
        requires
            num_channels * samples_per_channel <= u32::MAX,
        ensures
            r.sample_rate == sample_rate,
            r.num_channels == num_channels,
            r.samples_per_channel == samples_per_channel,
            r.data@.len() == num_channels * samples_per_channel,
            forall|i: int| 0 <= i < r.data@.len() ==> r.data@[i] == 0,
            r.wf(),
    {
        let total: u32 = num_channels * samples_per_channel;
        let mut data: Vec<i16> = Vec::new();
        let mut i: u32 = 0;
        while i < total
            invariant
                i <= total,
                data@.len() == i,
                forall|j: int| 0 <= j < data@.len() ==> data@[j] == 0,
            decreases total - i,
        {
            data.push(0);
            i = i + 1;
        }
        AudioFrame { data, sample_rate, num_channels, samples_per_channel }
    }
}

} // verus!
