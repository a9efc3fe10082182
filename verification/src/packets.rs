//! The data structures that two BGP peers exchange, and their wire codec.

pub mod buffer;
pub mod header;
pub mod keepalive;
pub mod message;
pub mod open;
pub mod update;
pub mod wire;
