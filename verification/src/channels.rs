//! The stream channel broker: the registry of live streams and the
//! transmitter that serves each of them.

pub mod define;
pub mod errors;
pub mod manager;
pub mod queue;
pub mod transmitter;

pub use manager::ChannelsManager;
pub use transmitter::Transmitter;
