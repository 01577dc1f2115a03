use vstd::prelude::*;
use crate::error::ConstellationResult;

verus! {

/// Processor of 3D scenes; it keeps no state yet.
#[derive(Debug)]
pub struct Scene3DProcessor {}

impl Scene3DProcessor {
    /// A scene processor; creation always succeeds.
    pub fn new() -> (r: ConstellationResult<Self>)
        ensures
            r is Ok,
    {
        Ok(Scene3DProcessor {})
    }
}

impl Default for Scene3DProcessor {
    fn default() -> (p: Self) {
        Scene3DProcessor {}
    }
}

/// Processor of audio frames at a sample rate and channel count.
#[derive(Debug)]
pub struct AudioProcessor {
    pub sample_rate: u32,
    pub channels: u16,
}

impl AudioProcessor {
    /// A processor for `channels` channels at `sample_rate` Hz.
    pub fn new(sample_rate: u32, channels: u16) -> (p: Self)
        ensures
            p.sample_rate == sample_rate,
            p.channels == channels,
    {
        AudioProcessor { sample_rate, channels }
    }
}

} // verus!
