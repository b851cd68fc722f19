//! A peer-to-peer connection library: handshakes, connecting to a peer, a
//! prioritised write queue, a map of connected peers and the service state
//! around them, each with a contract and its proof.

pub mod uid;
pub mod write_queue;
pub mod addr;
pub mod message;
pub mod error;
pub mod handshake;
pub mod connection_map;
pub mod first_ok;
pub mod service;
pub mod discovery;
pub mod util;
pub mod socket;
pub mod peer;
pub mod drop_notify;
pub mod demux;
pub mod connect;
pub mod compat;
