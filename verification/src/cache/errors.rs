//! What can go wrong while a frame is cached.

use vstd::prelude::*;
use xflv::errors::{FlvDemuxerError, MpegAacError, MpegAvcError};

verus! {

/// The reason why a payload could not be classified.
#[derive(Debug)]
pub enum CacheErrorValue {
    /// The tag header of the payload could not be read.
    DemuxerError(FlvDemuxerError),
    /// The AAC audio-specific configuration could not be loaded.
    MpegAacError(MpegAacError),
    /// The AVC decoder configuration record could not be loaded.
    MpegAvcError(MpegAvcError),
    /// The AAC audio-specific configuration names a sampling frequency that
    /// no table entry stands for.
    UnknownSamplingFrequency,
}

#[derive(Debug)]
pub struct CacheError {
    pub value: CacheErrorValue,
}

} // verus!
