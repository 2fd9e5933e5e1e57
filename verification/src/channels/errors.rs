//! What can go wrong in the broker and in a transmitter.

use vstd::prelude::*;

use crate::cache::errors::CacheError;

verus! {

#[derive(Debug)]
pub enum ChannelErrorValue {
    /// No stream was ever published under the application name.
    NoAppName,
    /// The application is known, the stream is not being published.
    NoStreamName,
    /// There is nothing to subscribe to under these names.
    NoAppOrStreamName,
    /// The stream is being published already.
    Exists,
    /// A message could not be handed over: the other end is gone.
    SendError,
    /// A frame could not be classified.
    CacheError(CacheError),
}

#[derive(Debug)]
pub struct ChannelError {
    pub value: ChannelErrorValue,
}

} // verus!
