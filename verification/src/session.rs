//! What the broker knows of the sessions that talk to it.

pub mod common;
pub mod define;
