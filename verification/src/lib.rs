//! Client-side library for a Nacos-style service-discovery and naming system.
//!
//! The library holds the client runtime's logic: grouped service names and
//! cache keys, the service-info cache with change diffing and listener
//! fan-out, the heartbeat task registry with its self-tuning period, the
//! access-token holder, the server-rotation plan of the remote transport,
//! and the decisions of the UDP push receiver. All I/O (HTTP, UDP, disk,
//! timers) stays with the embedding application, which feeds results of
//! outside calls into the functions here.

pub mod constants;
pub mod client;
pub mod config;
pub mod beat_reactor;
pub mod error;
pub mod model;
pub mod push_receiver;
pub mod remote;
pub mod security;
pub mod service_holder;
pub mod util;
