//! User control messages.

pub mod define;
