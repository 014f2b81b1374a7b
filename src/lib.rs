//! Line-oriented and packet-oriented framing, with the per-connection
//! pipeline and the race/timeout decisions that drive them.
#![allow(deprecated)]

pub mod buffer;
pub mod codec;
pub mod connection;
pub mod input;
pub mod laws;
pub mod packet;
pub mod pipeline;
pub mod race;
pub mod service;
pub mod transport;
