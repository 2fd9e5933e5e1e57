//! A live-media relay's stream channel broker, with proofs.
//!
//! Publishers push encoded audio and video into the relay, and the relay
//! fans each stream out to its subscribers. This crate is the control plane
//! and the per-stream data plane of that relay:
//!
//! - `cache`: what a stream keeps for late joiners (latest metadata, latest
//!   sequence headers, a bounded window of groups of pictures);
//! - `channels`: the transmitter that serves one stream, and the broker that
//!   keeps the registry of live streams;
//! - `codec`: what the tag header of a payload says;
//! - `service`, `config`, `ts`: what the server starts and how segment files
//!   are named.
//!
//! Every function states what it returns and changes, and Verus proves it.
//! The crate waits for nothing: the tasks that drive a broker or a
//! transmitter hand it one input at a time.

pub mod buffer;
pub mod cache;
pub mod channels;
pub mod codec;
pub mod config;
pub mod errors;
pub mod service;
pub mod session;
pub mod statistics;
pub mod text;
pub mod ts;
pub mod user_control_messages;
