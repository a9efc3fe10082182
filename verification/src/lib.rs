//! Core of a BGP speaker: the wire codec for BGP messages and the peer
//! session state machine that those messages drive.

pub mod bgp_type;
pub mod config;
pub mod error;
pub mod event;
pub mod packets;
pub mod peer;
pub mod routing;
pub mod state;
