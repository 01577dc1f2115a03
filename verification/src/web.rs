use vstd::prelude::*;

verus! {

/// A request for a preview stream of the given size and pixel format.
#[derive(Debug)]
pub struct PreviewRequest {
    pub width: u32,
    pub height: u32,
    pub format: String,
}

/// A request for monitoring figures every `interval` milliseconds.
#[derive(Debug)]
pub struct MonitoringRequest {
    pub interval: u64,
    pub metrics: Vec<String>,
}

} // verus!
